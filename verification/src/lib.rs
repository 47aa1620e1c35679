//! Host side of a scripting engine that runs a guest compiler: the catalogue
//! of host operations, the assets offered while a snapshot is built, and what
//! each operation returns for what the host observed.

pub mod assets;
pub mod catalogue;
pub mod digest;
pub mod error;
pub mod glob;
pub mod lifecycle;
pub mod listing;
pub mod ops;
pub mod text;
pub mod watch;

