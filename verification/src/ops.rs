//! The operations themselves. The host does the outside work of an
//! operation (it reads the file, lists the directory, asks the operating
//! system) and hands what it saw to the operation's function here, which
//! says what the guest gets: a value, or an error.

use crate::assets::AssetCatalogue;
use crate::digest::{digest, digest_of};
use crate::error::{failure_error, HostFailure, HostFailureKind, OpError, OpErrorKind, OpErrorView};
use crate::listing::{
    directories, directories_of, select, selection, ListedEntry, ReadDirectoryFilters,
};
use crate::watch::{
    directory_strategy, file_strategy, is_schedulable, schedulable, WatchDescriptorView, WatchKind,
    WatchOptions, WatchTable,
};
use vstd::prelude::*;

verus! {

/// What the host found at a path.
#[derive(Clone, Copy, Debug, PartialEq, Eq, Structural)]
pub enum PathProbe {
    /// Nothing, or nothing that could be looked at.
    Missing,
    /// A file.
    File,
    /// A directory.
    Directory,
    /// Something that is neither.
    Other,
}

/// The arguments of the operation that loads an asset.
#[derive(Debug)]
pub struct OpLoadArgs {
    /// The asset's URI.
    pub file_name: String,
}

/// The arguments of the operation that makes a digest.
#[derive(Debug)]
pub struct OpCreateHashArgs {
    pub data: String,
}

/// The arguments of the operation that reads a directory tree.
#[derive(Debug)]
pub struct OpReadDirectoryArgs {
    pub path: String,
    pub extensions: Option<Vec<String>>,
    pub includes: Option<Vec<String>>,
    pub exclude: Option<Vec<String>>,
    pub depth: Option<u32>,
}

impl OpReadDirectoryArgs {
    /// The filters as plain values.
    pub open spec fn filters(&self) -> ReadDirectoryFilters {
        ReadDirectoryFilters {
            extensions: self.extensions.deep_view(),
            includes: self.includes.deep_view(),
            exclude: self.exclude.deep_view(),
            depth: self.depth,
        }
    }
}

/// The arguments of the operation that watches a directory.
#[derive(Debug)]
pub struct OpWatchDirectoryArgs {
    pub path: String,
    pub recursive: bool,
    pub options: Option<WatchOptions>,
}

/// The arguments of the operation that watches a file.
#[derive(Debug)]
pub struct OpWatchFileArgs {
    pub path: String,
    pub polling_interval: u32,
    pub options: Option<WatchOptions>,
}

/// What the guest is told when it asks for an asset that is not there.
pub open spec fn unknown_asset_message(uri: Seq<char>) -> Seq<char> {
    "Invalid file name: "@ + uri
}

/// What the guest is told when a watch cannot be put on a schedule.
pub open spec fn unschedulable_message() -> Seq<char> {
    "Invalid watch options: a polling watch needs an interval above zero"@
}

/// What the guest is told when the watch ids have run out.
pub open spec fn no_watch_id_message() -> Seq<char> {
    "Invalid watch options: no watch id is left"@
}

/// Lists the URIs of the assets, each once, in no promised order.
pub fn op_build_info(assets: &AssetCatalogue) -> (r: Result<Vec<String>, OpError>)
    requires
        assets.wf(),
    ensures
        match r {
            Ok(uris) => uris.deep_view().no_duplicates() && uris.deep_view().to_set()
                == assets@.dom(),
            Err(_) => false,
        },
{
    Ok(assets.uris())
}

/// Finds the file that holds the asset the guest asks for. An unknown URI is
/// `NotFound`.
pub fn locate_asset(assets: &AssetCatalogue, args: &OpLoadArgs) -> (r: Result<String, OpError>)
    requires
        assets.wf(),
    ensures
        match r {
            Ok(path) => assets@.contains_key(args.file_name@) && path@ == assets@[args.file_name@],
            Err(e) => !assets@.contains_key(args.file_name@) && e@ == (OpErrorView {
                kind: OpErrorKind::NotFound,
                message: unknown_asset_message(args.file_name@),
            }),
        },
{
    match assets.path_of(args.file_name.as_str()) {
        Some(path) => Ok(path.clone()),
        None => Err(
            OpError {
                kind: OpErrorKind::NotFound,
                message: String::from_str("Invalid file name: ").concat(args.file_name.as_str()),
            },
        ),
    }
}

/// Hands the guest the text of an asset as the host read it from the file
/// that `locate_asset` named.
pub fn op_load(contents: Result<String, HostFailure>) -> (r: Result<String, OpError>)
    ensures
        match (contents, r) {
            (Ok(read), Ok(text)) => text@ == read@,
            (Err(failure), Err(e)) => e@ == failure_error(true, failure@),
            _ => false,
        },
{
    match contents {
        Ok(text) => Ok(text),
        Err(failure) => Err(OpError::from_failure(true, failure)),
    }
}

/// Makes a directory. That it was there already is no failure, so that
/// making it twice is as good as once.
pub fn op_create_directory(outcome: Result<(), HostFailure>) -> (r: Result<(), OpError>)
    ensures
        match (outcome, r) {
            (Ok(_), Ok(_)) => true,
            (Err(failure), Ok(_)) => failure.kind == HostFailureKind::AlreadyExists,
            (Err(failure), Err(e)) => failure.kind != HostFailureKind::AlreadyExists && e@
                == failure_error(false, failure@),
            _ => false,
        },
{
    match outcome {
        Ok(_) => Ok(()),
        Err(failure) => {
            if failure.kind == HostFailureKind::AlreadyExists {
                Ok(())
            } else {
                Err(OpError::from_failure(false, failure))
            }
        },
    }
}

/// The digest of the data.
pub fn op_create_hash(args: &OpCreateHashArgs) -> (r: Result<String, OpError>)
    ensures
        match r {
            Ok(text) => text@ == digest_of(args.data@),
            Err(_) => false,
        },
{
    Ok(digest(args.data.as_str()))
}

/// Deletes a file.
pub fn op_delete_file(outcome: Result<(), HostFailure>) -> (r: Result<(), OpError>)
    ensures
        match (outcome, r) {
            (Ok(_), Ok(_)) => true,
            (Err(failure), Err(e)) => e@ == failure_error(false, failure@),
            _ => false,
        },
{
    match outcome {
        Ok(_) => Ok(()),
        Err(failure) => Err(OpError::from_failure(false, failure)),
    }
}

/// Whether a directory is at the path. Never fails.
pub fn op_directory_exists(probe: PathProbe) -> (r: Result<bool, OpError>)
    ensures
        r is Ok,
        r->Ok_0 == (probe == PathProbe::Directory),
{
    Ok(probe == PathProbe::Directory)
}

/// Whether a file is at the path. Never fails.
pub fn op_file_exists(probe: PathProbe) -> (r: Result<bool, OpError>)
    ensures
        r is Ok,
        r->Ok_0 == (probe == PathProbe::File),
{
    Ok(probe == PathProbe::File)
}

/// The directory the process works in.
pub fn op_get_current_directory(outcome: Result<String, HostFailure>) -> (r: Result<
    String,
    OpError,
>)
    ensures
        match (outcome, r) {
            (Ok(found), Ok(path)) => path@ == found@,
            (Err(failure), Err(e)) => e@ == failure_error(false, failure@),
            _ => false,
        },
{
    match outcome {
        Ok(path) => Ok(path),
        Err(failure) => Err(OpError::from_failure(false, failure)),
    }
}

/// The names of the directories directly inside a directory, of which the
/// host listed the entries, in the order of the listing.
pub fn op_get_directories(listing: Result<Vec<ListedEntry>, HostFailure>) -> (r: Result<
    Vec<String>,
    OpError,
>)
    ensures
        match (listing, r) {
            (Ok(entries), Ok(names)) => names.deep_view() == directories_of(entries.deep_view()),
            (Err(failure), Err(e)) => e@ == failure_error(false, failure@),
            _ => false,
        },
{
    match listing {
        Ok(entries) => Ok(directories(&entries)),
        Err(failure) => Err(OpError::from_failure(false, failure)),
    }
}

/// The value of an environment variable. A variable that is not set has no
/// value, which is no failure; one that is set has its value, the empty one
/// too.
pub fn op_get_env(value: Option<String>) -> (r: Result<Option<String>, OpError>)
    ensures
        match r {
            Ok(found) => found.deep_view() == value.deep_view(),
            Err(_) => false,
        },
{
    Ok(value)
}

/// The size of a file in bytes.
pub fn op_get_file_size(outcome: Result<u64, HostFailure>) -> (r: Result<u64, OpError>)
    ensures
        match (outcome, r) {
            (Ok(found), Ok(size)) => size == found,
            (Err(failure), Err(e)) => e@ == failure_error(true, failure@),
            _ => false,
        },
{
    match outcome {
        Ok(size) => Ok(size),
        Err(failure) => Err(OpError::from_failure(true, failure)),
    }
}

/// About how much memory the process holds: what the host measured, or
/// zero where it cannot tell. Never fails.
pub fn op_get_memory_usage(resident: Option<u64>) -> (r: Result<u64, OpError>)
    ensures
        r is Ok,
        r->Ok_0 == (match resident {
            Some(bytes) => bytes,
            None => 0,
        }),
{
    match resident {
        Some(bytes) => Ok(bytes),
        None => Ok(0),
    }
}

/// When a file was last modified.
pub fn op_get_modified_time(outcome: Result<u64, HostFailure>) -> (r: Result<u64, OpError>)
    ensures
        match (outcome, r) {
            (Ok(found), Ok(time)) => time == found,
            (Err(failure), Err(e)) => e@ == failure_error(true, failure@),
            _ => false,
        },
{
    match outcome {
        Ok(time) => Ok(time),
        Err(failure) => Err(OpError::from_failure(true, failure)),
    }
}

/// The paths of the files below a directory that pass the filters, in the
/// order in which the host listed what lies below the directory.
pub fn op_read_directory(
    args: &OpReadDirectoryArgs,
    listing: Result<Vec<ListedEntry>, HostFailure>,
) -> (r: Result<Vec<String>, OpError>)
    ensures
        match (listing, r) {
            (Ok(entries), Ok(paths)) => paths.deep_view() == selection(
                entries.deep_view(),
                args.filters(),
            ),
            (Err(failure), Err(e)) => e@ == failure_error(false, failure@),
            _ => false,
        },
{
    match listing {
        Ok(entries) => Ok(
            select(&entries, &args.extensions, &args.includes, &args.exclude, args.depth),
        ),
        Err(failure) => Err(OpError::from_failure(false, failure)),
    }
}

/// The text of a file, as the host read it.
pub fn op_read_file(outcome: Result<String, HostFailure>) -> (r: Result<String, OpError>)
    ensures
        match (outcome, r) {
            (Ok(read), Ok(text)) => text@ == read@,
            (Err(failure), Err(e)) => e@ == failure_error(true, failure@),
            _ => false,
        },
{
    match outcome {
        Ok(text) => Ok(text),
        Err(failure) => Err(OpError::from_failure(true, failure)),
    }
}

/// Sets when a file was last modified.
pub fn op_set_modified_time(outcome: Result<(), HostFailure>) -> (r: Result<(), OpError>)
    ensures
        match (outcome, r) {
            (Ok(_), Ok(_)) => true,
            (Err(failure), Err(e)) => e@ == failure_error(true, failure@),
            _ => false,
        },
{
    match outcome {
        Ok(_) => Ok(()),
        Err(failure) => Err(OpError::from_failure(true, failure)),
    }
}

/// Writes a file, in place of what was there.
pub fn op_write_file(outcome: Result<(), HostFailure>) -> (r: Result<(), OpError>)
    ensures
        match (outcome, r) {
            (Ok(_), Ok(_)) => true,
            (Err(failure), Err(e)) => e@ == failure_error(false, failure@),
            _ => false,
        },
{
    match outcome {
        Ok(_) => Ok(()),
        Err(failure) => Err(OpError::from_failure(false, failure)),
    }
}

/// The error for a watch that cannot be made.
fn watch_refused(unschedulable: bool) -> (e: OpError)
    ensures
        e@ == (OpErrorView {
            kind: OpErrorKind::InvalidArgument,
            message: if unschedulable {
                unschedulable_message()
            } else {
                no_watch_id_message()
            },
        }),
{
    let message = if unschedulable {
        String::from_str("Invalid watch options: a polling watch needs an interval above zero")
    } else {
        String::from_str("Invalid watch options: no watch id is left")
    };
    OpError { kind: OpErrorKind::InvalidArgument, message }
}

/// What a watch makes of the table: with the watch added under the next id,
/// or, where the watch cannot be put on a schedule or no id is left, the
/// table as it was and the error that says so.
pub open spec fn watch_outcome(
    before: Seq<WatchDescriptorView>,
    path: Seq<char>,
    kind: WatchKind,
    after: Seq<WatchDescriptorView>,
    r: Result<u32, OpError>,
) -> bool {
    if !schedulable(kind) {
        after == before && r is Err && r->Err_0@ == (OpErrorView {
            kind: OpErrorKind::InvalidArgument,
            message: unschedulable_message(),
        })
    } else if before.len() >= u32::MAX {
        after == before && r is Err && r->Err_0@ == (OpErrorView {
            kind: OpErrorKind::InvalidArgument,
            message: no_watch_id_message(),
        })
    } else {
        r is Ok && r->Ok_0 == before.len() + 1 && after == before.push(
            WatchDescriptorView { id: r->Ok_0, path, kind },
        )
    }
}

/// Puts a watch of the given kind on `path`.
fn watch(state: &mut WatchTable, path: String, kind: WatchKind) -> (r: Result<u32, OpError>)
    requires
        old(state).wf(),
    ensures
        final(state).wf(),
        watch_outcome(old(state)@, path@, kind, final(state)@, r),
{
    if !is_schedulable(kind) {
        return Err(watch_refused(true));
    }
    match state.add(path, kind) {
        Some(id) => Ok(id),
        None => Err(watch_refused(false)),
    }
}

/// Watches a directory and returns the id of the watch.
pub fn op_watch_directory(state: &mut WatchTable, args: OpWatchDirectoryArgs) -> (r: Result<
    u32,
    OpError,
>)
    requires
        old(state).wf(),
    ensures
        final(state).wf(),
        watch_outcome(
            old(state)@,
            args.path@,
            WatchKind::Directory {
                recursive: args.recursive,
                directory_kind: directory_strategy(args.options),
            },
            final(state)@,
            r,
        ),
{
    let directory_kind = match &args.options {
        Some(options) => options.watch_directory,
        None => None,
    };
    watch(state, args.path, WatchKind::Directory { recursive: args.recursive, directory_kind })
}

/// Watches a file and returns the id of the watch.
pub fn op_watch_file(state: &mut WatchTable, args: OpWatchFileArgs) -> (r: Result<u32, OpError>)
    requires
        old(state).wf(),
    ensures
        final(state).wf(),
        watch_outcome(
            old(state)@,
            args.path@,
            WatchKind::File {
                polling_interval: args.polling_interval,
                file_kind: file_strategy(args.options),
            },
            final(state)@,
            r,
        ),
{
    let file_kind = match &args.options {
        Some(options) => options.watch_file,
        None => None,
    };
    watch(
        state,
        args.path,
        WatchKind::File { polling_interval: args.polling_interval, file_kind },
    )
}

} // verus!
