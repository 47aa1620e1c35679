//! The catalogue of host operations: which operations exist, under which
//! name the guest calls each, in which phase an engine offers it, and the
//! table an engine instance dispatches through.

use crate::text::same_text;
use vstd::prelude::*;

verus! {

/// A host operation the guest may call.
#[derive(Clone, Copy, Debug, PartialEq, Eq, Structural)]
pub enum Op {
    /// Lists the URIs of the assets (snapshot build only).
    BuildInfo,
    /// Loads the text of one asset by URI (snapshot build only).
    Load,
    CreateDirectory,
    CreateHash,
    DeleteFile,
    DirectoryExists,
    FileExists,
    GetCurrentDirectory,
    GetDirectories,
    GetEnv,
    GetFileSize,
    GetMemoryUsage,
    GetModifiedTime,
    ReadDirectory,
    ReadFile,
    SetModifiedTime,
    WatchDirectory,
    WatchFile,
    WriteFile,
}

/// The two lives of an engine: building the snapshot, and running from it.
#[derive(Clone, Copy, Debug, PartialEq, Eq, Structural)]
pub enum Phase {
    Build,
    Run,
}

/// What an operation takes from the guest.
#[derive(Clone, Copy, Debug, PartialEq, Eq, Structural)]
pub enum ArgumentSchema {
    /// Nothing.
    Unit,
    /// `{ path }`
    Path,
    /// `{ fileName }`
    Load,
    /// `{ data }`
    CreateHash,
    /// `{ name }`
    GetEnv,
    /// `{ path, extensions?, include?, exclude?, depth? }`
    ReadDirectory,
    /// `{ path, encoding }`
    ReadFile,
    /// `{ path, time }`
    SetModifiedTime,
    /// `{ path, recursive, options? }`
    WatchDirectory,
    /// `{ path, polling_interval, options? }`
    WatchFile,
    /// `{ path, data, write_byte_order_mark? }`
    WriteFile,
}

/// What an operation hands back to the guest on success.
#[derive(Clone, Copy, Debug, PartialEq, Eq, Structural)]
pub enum ResultSchema {
    Unit,
    Flag,
    Text,
    OptionalText,
    TextList,
    Number,
}

impl Op {
    /// The name under which the guest calls the operation.
    pub open spec fn spec_name(self) -> Seq<char> {
        match self {
            Op::BuildInfo => "op_build_info"@,
            Op::Load => "op_load"@,
            Op::CreateDirectory => "op_create_directory"@,
            Op::CreateHash => "op_create_hash"@,
            Op::DeleteFile => "op_delete_file"@,
            Op::DirectoryExists => "op_directory_exists"@,
            Op::FileExists => "op_file_exists"@,
            Op::GetCurrentDirectory => "op_get_current_directory"@,
            Op::GetDirectories => "op_get_directories"@,
            Op::GetEnv => "op_get_env"@,
            Op::GetFileSize => "op_get_file_size"@,
            Op::GetMemoryUsage => "op_get_memory_usage"@,
            Op::GetModifiedTime => "op_get_modified_time"@,
            Op::ReadDirectory => "op_read_directory"@,
            Op::ReadFile => "op_read_file"@,
            Op::SetModifiedTime => "op_set_modified_time"@,
            Op::WatchDirectory => "op_watch_directory"@,
            Op::WatchFile => "op_watch_file"@,
            Op::WriteFile => "op_write_file"@,
        }
    }

    /// The phase whose engine offers the operation.
    pub open spec fn spec_phase(self) -> Phase {
        match self {
            Op::BuildInfo | Op::Load => Phase::Build,
            _ => Phase::Run,
        }
    }

    /// The shape of the operation's arguments.
    pub open spec fn spec_arguments(self) -> ArgumentSchema {
        match self {
            Op::BuildInfo | Op::GetCurrentDirectory | Op::GetMemoryUsage => ArgumentSchema::Unit,
            Op::Load => ArgumentSchema::Load,
            Op::CreateHash => ArgumentSchema::CreateHash,
            Op::GetEnv => ArgumentSchema::GetEnv,
            Op::ReadDirectory => ArgumentSchema::ReadDirectory,
            Op::ReadFile => ArgumentSchema::ReadFile,
            Op::SetModifiedTime => ArgumentSchema::SetModifiedTime,
            Op::WatchDirectory => ArgumentSchema::WatchDirectory,
            Op::WatchFile => ArgumentSchema::WatchFile,
            Op::WriteFile => ArgumentSchema::WriteFile,
            Op::CreateDirectory | Op::DeleteFile | Op::DirectoryExists | Op::FileExists
            | Op::GetDirectories | Op::GetFileSize | Op::GetModifiedTime => ArgumentSchema::Path,
        }
    }

    /// The shape of the operation's result.
    pub open spec fn spec_result(self) -> ResultSchema {
        match self {
            Op::CreateDirectory | Op::DeleteFile | Op::SetModifiedTime | Op::WriteFile => ResultSchema::Unit,
            Op::DirectoryExists | Op::FileExists => ResultSchema::Flag,
            Op::Load | Op::CreateHash | Op::GetCurrentDirectory | Op::ReadFile => ResultSchema::Text,
            Op::GetEnv => ResultSchema::OptionalText,
            Op::BuildInfo | Op::GetDirectories | Op::ReadDirectory => ResultSchema::TextList,
            Op::GetFileSize | Op::GetMemoryUsage | Op::GetModifiedTime | Op::WatchDirectory
            | Op::WatchFile => ResultSchema::Number,
        }
    }

    /// The name under which the guest calls the operation.
    pub fn name(self) -> (r: &'static str)
        ensures
            r@ == self.spec_name(),
    {
        match self {
            Op::BuildInfo => "op_build_info",
            Op::Load => "op_load",
            Op::CreateDirectory => "op_create_directory",
            Op::CreateHash => "op_create_hash",
            Op::DeleteFile => "op_delete_file",
            Op::DirectoryExists => "op_directory_exists",
            Op::FileExists => "op_file_exists",
            Op::GetCurrentDirectory => "op_get_current_directory",
            Op::GetDirectories => "op_get_directories",
            Op::GetEnv => "op_get_env",
            Op::GetFileSize => "op_get_file_size",
            Op::GetMemoryUsage => "op_get_memory_usage",
            Op::GetModifiedTime => "op_get_modified_time",
            Op::ReadDirectory => "op_read_directory",
            Op::ReadFile => "op_read_file",
            Op::SetModifiedTime => "op_set_modified_time",
            Op::WatchDirectory => "op_watch_directory",
            Op::WatchFile => "op_watch_file",
            Op::WriteFile => "op_write_file",
        }
    }

    /// The phase whose engine offers the operation.
    pub fn phase(self) -> (r: Phase)
        ensures
            r == self.spec_phase(),
    {
        match self {
            Op::BuildInfo | Op::Load => Phase::Build,
            _ => Phase::Run,
        }
    }

    /// The shape of the operation's arguments.
    pub fn arguments(self) -> (r: ArgumentSchema)
        ensures
            r == self.spec_arguments(),
    {
        match self {
            Op::BuildInfo | Op::GetCurrentDirectory | Op::GetMemoryUsage => ArgumentSchema::Unit,
            Op::Load => ArgumentSchema::Load,
            Op::CreateHash => ArgumentSchema::CreateHash,
            Op::GetEnv => ArgumentSchema::GetEnv,
            Op::ReadDirectory => ArgumentSchema::ReadDirectory,
            Op::ReadFile => ArgumentSchema::ReadFile,
            Op::SetModifiedTime => ArgumentSchema::SetModifiedTime,
            Op::WatchDirectory => ArgumentSchema::WatchDirectory,
            Op::WatchFile => ArgumentSchema::WatchFile,
            Op::WriteFile => ArgumentSchema::WriteFile,
            Op::CreateDirectory | Op::DeleteFile | Op::DirectoryExists | Op::FileExists
            | Op::GetDirectories | Op::GetFileSize | Op::GetModifiedTime => ArgumentSchema::Path,
        }
    }

    /// The shape of the operation's result.
    pub fn result(self) -> (r: ResultSchema)
        ensures
            r == self.spec_result(),
    {
        match self {
            Op::CreateDirectory | Op::DeleteFile | Op::SetModifiedTime | Op::WriteFile => ResultSchema::Unit,
            Op::DirectoryExists | Op::FileExists => ResultSchema::Flag,
            Op::Load | Op::CreateHash | Op::GetCurrentDirectory | Op::ReadFile => ResultSchema::Text,
            Op::GetEnv => ResultSchema::OptionalText,
            Op::BuildInfo | Op::GetDirectories | Op::ReadDirectory => ResultSchema::TextList,
            Op::GetFileSize | Op::GetMemoryUsage | Op::GetModifiedTime | Op::WatchDirectory
            | Op::WatchFile => ResultSchema::Number,
        }
    }

    /// The operation the guest means by `name`, if there is one.
    pub fn from_name(name: &str) -> (r: Option<Op>)
        ensures
            match r {
                Some(op) => op.spec_name() == name@,
                None => forall|op: Op| #[trigger] op.spec_name() != name@,
            },
    {
        let build = catalogue(Phase::Build);
        let run = catalogue(Phase::Run);
        proof {
            lemma_catalogue_exact(Phase::Build);
            lemma_catalogue_exact(Phase::Run);
        }
        match find_named(&build, name) {
            Some(op) => Some(op),
            None => {
                let found = find_named(&run, name);
                proof {
                    if found is None {
                        assert forall|op: Op| #[trigger] op.spec_name() != name@ by {
                            if op.spec_phase() == Phase::Build {
                                assert(build@.contains(op));
                            } else {
                                assert(run@.contains(op));
                            }
                        }
                    }
                }
                found
            },
        }
    }
}

/// The first of `ops` that goes by `name`.
fn find_named(ops: &Vec<Op>, name: &str) -> (r: Option<Op>)
    ensures
        match r {
            Some(op) => ops@.contains(op) && op.spec_name() == name@,
            None => forall|op: Op|
                #![trigger ops@.contains(op)]
                #![trigger op.spec_name()]
                ops@.contains(op) ==> op.spec_name() != name@,
        },
{
    let mut i: usize = 0;
    while i < ops.len()
        invariant
            i <= ops@.len(),
            forall|k: int| 0 <= k < i ==> ops@[k].spec_name() != name@,
        decreases ops@.len() - i,
    {
        if same_text(ops[i].name(), name) {
            return Some(ops[i]);
        }
        i += 1;
    }
    None
}

/// The operations an engine of the given phase offers, in the order in which
/// they are registered.
pub open spec fn spec_catalogue(phase: Phase) -> Seq<Op> {
    match phase {
        Phase::Build => seq![Op::BuildInfo, Op::Load],
        Phase::Run => seq![
            Op::CreateDirectory,
            Op::CreateHash,
            Op::DeleteFile,
            Op::DirectoryExists,
            Op::FileExists,
            Op::GetCurrentDirectory,
            Op::GetDirectories,
            Op::GetEnv,
            Op::GetFileSize,
            Op::GetMemoryUsage,
            Op::GetModifiedTime,
            Op::ReadDirectory,
            Op::ReadFile,
            Op::SetModifiedTime,
            Op::WatchDirectory,
            Op::WatchFile,
            Op::WriteFile,
        ],
    }
}

/// The operations an engine of the given phase offers, in the order in which
/// they are registered.
pub fn catalogue(phase: Phase) -> (ops: Vec<Op>)
    ensures
        ops@ == spec_catalogue(phase),
{
    let ops = match phase {
        Phase::Build => vec![Op::BuildInfo, Op::Load],
        Phase::Run => vec![
            Op::CreateDirectory,
            Op::CreateHash,
            Op::DeleteFile,
            Op::DirectoryExists,
            Op::FileExists,
            Op::GetCurrentDirectory,
            Op::GetDirectories,
            Op::GetEnv,
            Op::GetFileSize,
            Op::GetMemoryUsage,
            Op::GetModifiedTime,
            Op::ReadDirectory,
            Op::ReadFile,
            Op::SetModifiedTime,
            Op::WatchDirectory,
            Op::WatchFile,
            Op::WriteFile,
        ],
    };
    assert(ops@ =~= spec_catalogue(phase));
    ops
}

/// No two operations share a name.
pub proof fn lemma_names_distinct(a: Op, b: Op)
    ensures
        a.spec_name() == b.spec_name() <==> a == b,
{
    reveal_strlit("op_build_info");
    reveal_strlit("op_load");
    reveal_strlit("op_create_directory");
    reveal_strlit("op_create_hash");
    reveal_strlit("op_delete_file");
    reveal_strlit("op_directory_exists");
    reveal_strlit("op_file_exists");
    reveal_strlit("op_get_current_directory");
    reveal_strlit("op_get_directories");
    reveal_strlit("op_get_env");
    reveal_strlit("op_get_file_size");
    reveal_strlit("op_get_memory_usage");
    reveal_strlit("op_get_modified_time");
    reveal_strlit("op_read_directory");
    reveal_strlit("op_read_file");
    reveal_strlit("op_set_modified_time");
    reveal_strlit("op_watch_directory");
    reveal_strlit("op_watch_file");
    reveal_strlit("op_write_file");
    if a != b && a.spec_name() == b.spec_name() {
        let n = a.spec_name();
        let m = b.spec_name();
        assert(n.len() == m.len());
        assert(n[3] == m[3]);
        assert(n[4] == m[4]);
        assert(n[5] == m[5]);
        assert(n[7] == m[7]);
        assert(n[8] == m[8]);
        assert(n[10] == m[10]);
        assert(false);
    }
}

/// A phase's catalogue holds exactly the operations of that phase, each once.
pub proof fn lemma_catalogue_exact(phase: Phase)
    ensures
        spec_catalogue(phase).no_duplicates(),
        forall|op: Op| spec_catalogue(phase).contains(op) <==> op.spec_phase() == phase,
{
    let c = spec_catalogue(phase);
    assert forall|op: Op| op.spec_phase() == phase implies c.contains(op) by {
        match phase {
            Phase::Build => {
                assert(c[0] == Op::BuildInfo && c[1] == Op::Load);
            },
            Phase::Run => {
                assert(c[0] == Op::CreateDirectory && c[1] == Op::CreateHash && c[2]
                    == Op::DeleteFile && c[3] == Op::DirectoryExists && c[4] == Op::FileExists
                    && c[5] == Op::GetCurrentDirectory && c[6] == Op::GetDirectories && c[7]
                    == Op::GetEnv && c[8] == Op::GetFileSize && c[9] == Op::GetMemoryUsage
                    && c[10] == Op::GetModifiedTime && c[11] == Op::ReadDirectory && c[12]
                    == Op::ReadFile && c[13] == Op::SetModifiedTime && c[14]
                    == Op::WatchDirectory && c[15] == Op::WatchFile && c[16] == Op::WriteFile);
            },
        }
    }
}

/// The table an engine instance dispatches through: the operations
/// registered with it, in the order of their registration. An operation is
/// registered at most once and never leaves.
pub struct OpRegistry {
    ops: Vec<Op>,
}

impl View for OpRegistry {
    type V = Seq<Op>;

    closed spec fn view(&self) -> Seq<Op> {
        self.ops@
    }
}

impl OpRegistry {
    /// No operation is registered twice.
    pub open spec fn wf(&self) -> bool {
        self@.no_duplicates()
    }

    /// A table with nothing registered.
    pub fn new() -> (r: OpRegistry)
        ensures
            r.wf(),
            r@ == Seq::<Op>::empty(),
    {
        OpRegistry { ops: Vec::new() }
    }

    /// The table of an engine of the given phase: its whole catalogue, in
    /// order.
    pub fn for_phase(phase: Phase) -> (r: OpRegistry)
        ensures
            r.wf(),
            r@ == spec_catalogue(phase),
    {
        let ops = catalogue(phase);
        proof {
            lemma_catalogue_exact(phase);
        }
        OpRegistry { ops }
    }

    /// Registers `op` and returns its position in the table. An operation
    /// that is registered already keeps its place: the table stays as it is
    /// and the answer is `None`.
    pub fn register(&mut self, op: Op) -> (r: Option<usize>)
        requires
            old(self).wf(),
        ensures
            final(self).wf(),
            match r {
                Some(id) => !old(self)@.contains(op) && final(self)@ == old(self)@.push(op) && id
                    == old(self)@.len(),
                None => old(self)@.contains(op) && final(self)@ == old(self)@,
            },
    {
        match self.position(op) {
            Some(_) => None,
            None => {
                let id = self.ops.len();
                self.ops.push(op);
                assert(self.ops@.no_duplicates()) by {
                    assert forall|i: int, j: int|
                        0 <= i < self.ops@.len() && 0 <= j < self.ops@.len() && i != j implies self.ops@[i]
                        != self.ops@[j] by {
                        if i < id && j < id {
                            assert(old(self).ops@[i] != old(self).ops@[j]);
                        } else if i < id {
                            assert(old(self).ops@.contains(old(self).ops@[i]));
                        } else {
                            assert(old(self).ops@.contains(old(self).ops@[j]));
                        }
                    }
                }
                Some(id)
            },
        }
    }

    /// The position of `op` in the table, if it is registered.
    pub fn position(&self, op: Op) -> (r: Option<usize>)
        ensures
            match r {
                Some(id) => id < self@.len() && self@[id as int] == op,
                None => !self@.contains(op),
            },
    {
        let mut i: usize = 0;
        while i < self.ops.len()
            invariant
                i <= self.ops@.len(),
                forall|k: int| 0 <= k < i ==> self.ops@[k] != op,
            decreases self.ops@.len() - i,
        {
            if self.ops[i] == op {
                return Some(i);
            }
            i += 1;
        }
        None
    }

    /// The registered operation that goes by `name`, if there is one.
    pub fn dispatch(&self, name: &str) -> (r: Option<Op>)
        ensures
            match r {
                Some(op) => self@.contains(op) && op.spec_name() == name@,
                None => forall|op: Op|
                    #![trigger self@.contains(op)]
                    #![trigger op.spec_name()]
                    self@.contains(op) ==> op.spec_name() != name@,
            },
    {
        find_named(&self.ops, name)
    }

    /// How many operations are registered.
    pub fn len(&self) -> (n: usize)
        ensures
            n == self@.len(),
    {
        self.ops.len()
    }

    /// The registered operations in the order of their registration.
    pub fn ops(&self) -> (r: &Vec<Op>)
        ensures
            r@ == self@,
    {
        &self.ops
    }
}

} // verus!
