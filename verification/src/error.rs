//! How an operation fails: what the host saw go wrong, and the error the
//! guest is handed for it.

use vstd::prelude::*;

verus! {

/// The class of an error that an operation hands to the guest.
#[derive(Clone, Copy, Debug, PartialEq, Eq, Structural)]
pub enum OpErrorKind {
    /// What was asked for does not exist: an unknown asset, a missing file.
    NotFound,
    /// The operating system refused or failed.
    IoError,
    /// The arguments cannot be served.
    InvalidArgument,
}

/// An error that an operation hands to the guest, where it is thrown with
/// this message.
#[derive(Clone, Debug, PartialEq, Eq)]
pub struct OpError {
    pub kind: OpErrorKind,
    pub message: String,
}

/// An `OpError` as a plain value.
pub struct OpErrorView {
    pub kind: OpErrorKind,
    pub message: Seq<char>,
}

impl View for OpError {
    type V = OpErrorView;

    open spec fn view(&self) -> OpErrorView {
        OpErrorView { kind: self.kind, message: self.message@ }
    }
}

/// What the operating system said when a host call failed.
#[derive(Clone, Copy, Debug, PartialEq, Eq, Structural)]
pub enum HostFailureKind {
    /// Nothing exists at the path.
    Missing,
    /// Something exists at the path already.
    AlreadyExists,
    /// Anything else: permissions, the disk, the system.
    Other,
}

/// A failed host call, with the operating system's words.
#[derive(Clone, Debug, PartialEq, Eq)]
pub struct HostFailure {
    pub kind: HostFailureKind,
    pub message: String,
}

/// A `HostFailure` as a plain value.
pub struct HostFailureView {
    pub kind: HostFailureKind,
    pub message: Seq<char>,
}

impl View for HostFailure {
    type V = HostFailureView;

    open spec fn view(&self) -> HostFailureView {
        HostFailureView { kind: self.kind, message: self.message@ }
    }
}

impl OpErrorKind {
    /// The class name under which the guest sees the error.
    pub open spec fn spec_name(self) -> Seq<char> {
        match self {
            OpErrorKind::NotFound => "NotFound"@,
            OpErrorKind::IoError => "IoError"@,
            OpErrorKind::InvalidArgument => "InvalidArgument"@,
        }
    }

    /// The class name under which the guest sees the error.
    pub fn name(self) -> (r: &'static str)
        ensures
            r@ == self.spec_name(),
    {
        match self {
            OpErrorKind::NotFound => "NotFound",
            OpErrorKind::IoError => "IoError",
            OpErrorKind::InvalidArgument => "InvalidArgument",
        }
    }
}

/// The class of the error for a failed host call. An operation that looks a
/// file up (reads it, asks its size or its time) reports a missing file as
/// `NotFound`; every other failure, of any operation, is an `IoError`.
pub open spec fn failure_class(lookup: bool, kind: HostFailureKind) -> OpErrorKind {
    if lookup && kind == HostFailureKind::Missing {
        OpErrorKind::NotFound
    } else {
        OpErrorKind::IoError
    }
}

/// The error for a failed host call: the class by `failure_class`, the
/// message as the operating system gave it.
pub open spec fn failure_error(lookup: bool, failure: HostFailureView) -> OpErrorView {
    OpErrorView { kind: failure_class(lookup, failure.kind), message: failure.message }
}

/// A failed host call is handed to the guest as `NotFound` or as `IoError`,
/// never as anything else: as `NotFound` where an operation that looks a
/// file up found none, as `IoError` in every other case.
pub proof fn lemma_failure_classes(lookup: bool, failure: HostFailureView)
    ensures
        failure_error(lookup, failure).kind == OpErrorKind::NotFound || failure_error(
            lookup,
            failure,
        ).kind == OpErrorKind::IoError,
        failure_error(lookup, failure).kind == OpErrorKind::NotFound <==> lookup && failure.kind
            == HostFailureKind::Missing,
        failure_error(lookup, failure).message == failure.message,
{
}

impl OpError {
    /// The error for a failed host call. `lookup` says whether the operation
    /// looks a file up, so that a missing file is `NotFound`.
    pub fn from_failure(lookup: bool, failure: HostFailure) -> (e: OpError)
        ensures
            e@ == failure_error(lookup, failure@),
    {
        let kind = if lookup && failure.kind == HostFailureKind::Missing {
            OpErrorKind::NotFound
        } else {
            OpErrorKind::IoError
        };
        OpError { kind, message: failure.message }
    }
}

} // verus!
