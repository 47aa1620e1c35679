//! Watches: what the guest asked the host to watch, each under an id of its
//! own. Ids count up from one in the order of the requests; a watch, once
//! made, stays.

use vstd::prelude::*;

verus! {

/// How a file is watched.
#[derive(Clone, Copy, Debug, PartialEq, Eq, Structural)]
pub enum WatchFileKind {
    FixedPollingInterval,
    PriorityPollingInterval,
    DynamicPriorityPolling,
    FixedChunkSizePolling,
    UseFsEvents,
    UseFsEventsOnParentDirectory,
}

/// How a directory is watched.
#[derive(Clone, Copy, Debug, PartialEq, Eq, Structural)]
pub enum WatchDirectoryKind {
    UseFsEvents,
    FixedPollingInterval,
    DynamicPriorityPolling,
    FixedChunkSizePolling,
}

/// How to poll where file system events cannot be had.
#[derive(Clone, Copy, Debug, PartialEq, Eq, Structural)]
pub enum PollingWatchKind {
    FixedInterval,
    PriorityInterval,
    DynamicPriority,
    FixedChunkSize,
}

impl WatchFileKind {
    /// The number by which the guest knows the kind.
    pub open spec fn spec_code(self) -> u32 {
        match self {
            WatchFileKind::FixedPollingInterval => 0,
            WatchFileKind::PriorityPollingInterval => 1,
            WatchFileKind::DynamicPriorityPolling => 2,
            WatchFileKind::FixedChunkSizePolling => 3,
            WatchFileKind::UseFsEvents => 4,
            WatchFileKind::UseFsEventsOnParentDirectory => 5,
        }
    }

    /// Whether the file is watched by polling.
    pub open spec fn spec_is_polling(self) -> bool {
        self != WatchFileKind::UseFsEvents && self != WatchFileKind::UseFsEventsOnParentDirectory
    }

    /// The number by which the guest knows the kind.
    pub fn code(self) -> (r: u32)
        ensures
            r == self.spec_code(),
    {
        match self {
            WatchFileKind::FixedPollingInterval => 0,
            WatchFileKind::PriorityPollingInterval => 1,
            WatchFileKind::DynamicPriorityPolling => 2,
            WatchFileKind::FixedChunkSizePolling => 3,
            WatchFileKind::UseFsEvents => 4,
            WatchFileKind::UseFsEventsOnParentDirectory => 5,
        }
    }

    /// Whether the file is watched by polling.
    pub fn is_polling(self) -> (r: bool)
        ensures
            r == self.spec_is_polling(),
    {
        match self {
            WatchFileKind::UseFsEvents | WatchFileKind::UseFsEventsOnParentDirectory => false,
            _ => true,
        }
    }
}

impl WatchDirectoryKind {
    /// The number by which the guest knows the kind.
    pub open spec fn spec_code(self) -> u32 {
        match self {
            WatchDirectoryKind::UseFsEvents => 0,
            WatchDirectoryKind::FixedPollingInterval => 1,
            WatchDirectoryKind::DynamicPriorityPolling => 2,
            WatchDirectoryKind::FixedChunkSizePolling => 3,
        }
    }

    /// The number by which the guest knows the kind.
    pub fn code(self) -> (r: u32)
        ensures
            r == self.spec_code(),
    {
        match self {
            WatchDirectoryKind::UseFsEvents => 0,
            WatchDirectoryKind::FixedPollingInterval => 1,
            WatchDirectoryKind::DynamicPriorityPolling => 2,
            WatchDirectoryKind::FixedChunkSizePolling => 3,
        }
    }
}

impl PollingWatchKind {
    /// The number by which the guest knows the kind.
    pub open spec fn spec_code(self) -> u32 {
        match self {
            PollingWatchKind::FixedInterval => 0,
            PollingWatchKind::PriorityInterval => 1,
            PollingWatchKind::DynamicPriority => 2,
            PollingWatchKind::FixedChunkSize => 3,
        }
    }

    /// The number by which the guest knows the kind.
    pub fn code(self) -> (r: u32)
        ensures
            r == self.spec_code(),
    {
        match self {
            PollingWatchKind::FixedInterval => 0,
            PollingWatchKind::PriorityInterval => 1,
            PollingWatchKind::DynamicPriority => 2,
            PollingWatchKind::FixedChunkSize => 3,
        }
    }
}

/// The guest's wishes for a watch.
#[derive(Clone, Debug, PartialEq, Eq)]
pub struct WatchOptions {
    pub watch_file: Option<WatchFileKind>,
    pub watch_directory: Option<WatchDirectoryKind>,
    pub fallback_polling: Option<PollingWatchKind>,
    pub synchronous_watch_directory: Option<bool>,
    pub exclude_directories: Option<Vec<String>>,
    pub exclude_files: Option<Vec<String>>,
}

/// What is watched, and how.
#[derive(Clone, Copy, Debug, PartialEq, Eq, Structural)]
pub enum WatchKind {
    /// A file, looked at every `polling_interval` where it is polled.
    File { polling_interval: u32, file_kind: Option<WatchFileKind> },
    /// A directory, with what lies below it if `recursive`.
    Directory { recursive: bool, directory_kind: Option<WatchDirectoryKind> },
}

/// One watch.
#[derive(Clone, Debug, PartialEq, Eq)]
pub struct WatchDescriptor {
    pub id: u32,
    pub path: String,
    pub kind: WatchKind,
}

/// A `WatchDescriptor` as a plain value.
pub struct WatchDescriptorView {
    pub id: u32,
    pub path: Seq<char>,
    pub kind: WatchKind,
}

impl View for WatchDescriptor {
    type V = WatchDescriptorView;

    open spec fn view(&self) -> WatchDescriptorView {
        WatchDescriptorView { id: self.id, path: self.path@, kind: self.kind }
    }
}

impl DeepView for WatchDescriptor {
    type V = WatchDescriptorView;

    open spec fn deep_view(&self) -> WatchDescriptorView {
        self@
    }
}

/// The strategy that the options name for a file, if they name one.
pub open spec fn file_strategy(options: Option<WatchOptions>) -> Option<WatchFileKind> {
    match options {
        Some(o) => o.watch_file,
        None => None,
    }
}

/// The strategy that the options name for a directory, if they name one.
pub open spec fn directory_strategy(options: Option<WatchOptions>) -> Option<WatchDirectoryKind> {
    match options {
        Some(o) => o.watch_directory,
        None => None,
    }
}

/// A watch can be put on a schedule unless it is to poll without pause: a
/// file watch whose options name a polling strategy needs a polling interval
/// above zero.
pub open spec fn schedulable(kind: WatchKind) -> bool {
    match kind {
        WatchKind::File { polling_interval, file_kind: Some(strategy) } => !(
        strategy.spec_is_polling() && polling_interval == 0),
        _ => true,
    }
}

/// Whether the watch can be put on a schedule.
pub fn is_schedulable(kind: WatchKind) -> (r: bool)
    ensures
        r == schedulable(kind),
{
    match kind {
        WatchKind::File { polling_interval, file_kind: Some(strategy) } => !(strategy.is_polling()
            && polling_interval == 0),
        _ => true,
    }
}

/// The watches of one engine instance, in the order in which they were made.
#[derive(Debug)]
pub struct WatchTable {
    watches: Vec<WatchDescriptor>,
}

impl View for WatchTable {
    type V = Seq<WatchDescriptorView>;

    closed spec fn view(&self) -> Seq<WatchDescriptorView> {
        self.watches.deep_view()
    }
}

impl WatchTable {
    /// The watch made as the n-th has the id n, and the ids do not run out.
    pub open spec fn wf(&self) -> bool {
        &&& self@.len() <= u32::MAX
        &&& forall|i: int| 0 <= i < self@.len() ==> (#[trigger] self@[i]).id == i + 1
    }

    /// A table without watches.
    pub fn new() -> (r: WatchTable)
        ensures
            r.wf(),
            r@ == Seq::<WatchDescriptorView>::empty(),
    {
        let r = WatchTable { watches: Vec::new() };
        assert(r@ =~= Seq::<WatchDescriptorView>::empty());
        r
    }

    /// How many watches there are.
    pub fn len(&self) -> (n: usize)
        ensures
            n == self@.len(),
    {
        self.watches.len()
    }

    /// The watch with the given id, if there is one.
    pub fn get(&self, id: u32) -> (r: Option<&WatchDescriptor>)
        requires
            self.wf(),
        ensures
            match r {
                Some(watch) => 1 <= id <= self@.len() && watch@ == self@[id - 1] && watch.id == id,
                None => id == 0 || id > self@.len(),
            },
    {
        if id == 0 || id as usize > self.watches.len() {
            None
        } else {
            let watch = &self.watches[(id - 1) as usize];
            assert(watch@ == self@[id - 1]);
            Some(watch)
        }
    }

    /// Makes a watch on `path` and returns its id, the number of watches
    /// there are then. Where the ids have run out, nothing is made.
    pub fn add(&mut self, path: String, kind: WatchKind) -> (r: Option<u32>)
        requires
            old(self).wf(),
        ensures
            final(self).wf(),
            match r {
                Some(id) => id == old(self)@.len() + 1 && final(self)@ == old(self)@.push(
                    WatchDescriptorView { id, path: path@, kind },
                ),
                None => old(self)@.len() == u32::MAX && final(self)@ == old(self)@,
            },
    {
        let count = self.watches.len();
        if count >= u32::MAX as usize {
            return None;
        }
        let id: u32 = count as u32 + 1;
        let ghost before = self@;
        let ghost made = WatchDescriptorView { id, path: path@, kind };
        self.watches.push(WatchDescriptor { id, path, kind });
        assert(self@ =~= before.push(made));
        Some(id)
    }
}

} // verus!
