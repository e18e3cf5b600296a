//! Why a cloud call fails. The guest only sees that a call failed; the kinds
//! are for the host, which logs them.

use crate::interface::DentKind;
use crate::label::Label;
use crate::objects::SyscallProcessorError;
use crate::processor::{Session, SyscallProcessor};
use vstd::prelude::*;

verus! {

/// The kinds of failure of a cloud call.
#[derive(Clone, Copy, PartialEq, Eq, Structural, Debug)]
pub enum ErrorKind {
    /// The handle is not open in the table that the call looks in.
    BadHandle,
    /// The handle is open, for an entry of another kind than the call takes.
    KindMismatch,
    /// The write check or the invoker check did not pass.
    LabelDenied,
    /// The labeled store or the blob store failed.
    StoreFailure,
    /// No connection to the scheduler, or it was closed.
    SchedulerUnreachable,
    /// The transport to a service failed.
    HttpTransport,
    /// A service's address names a parameter that the call does not give.
    BadUrlArgs,
    /// A required field is absent.
    BadInput,
}

/// Why a handle does not give an entry of a kind; `None` where it does.
pub open spec fn handle_failure(s: Session, fd: u64, kind: DentKind) -> Option<ErrorKind> {
    if !s.dents.contains_key(fd) {
        Some(ErrorKind::BadHandle)
    } else if DentKind::of(s.dents[fd]) != kind {
        Some(ErrorKind::KindMismatch)
    } else {
        None
    }
}

/// Why an object cannot be written; `None` where it can. `object` is the
/// label that the store holds on it, if it holds the object at all.
pub open spec fn write_failure(s: Session, object: Option<Label>) -> Option<ErrorKind> {
    match object {
        None => Some(ErrorKind::StoreFailure),
        Some(l) => if s.label@.flows_to(l@) {
            None
        } else {
            Some(ErrorKind::LabelDenied)
        },
    }
}

impl SyscallProcessorError {
    /// The kind of failure that an error outside the session counts as.
    pub open spec fn kind_of(self) -> ErrorKind {
        match self {
            SyscallProcessorError::UnreachableScheduler => ErrorKind::SchedulerUnreachable,
            SyscallProcessorError::Blob(_) => ErrorKind::StoreFailure,
            SyscallProcessorError::Database => ErrorKind::StoreFailure,
            SyscallProcessorError::Http(_) => ErrorKind::HttpTransport,
            SyscallProcessorError::HttpAuth => ErrorKind::HttpTransport,
            SyscallProcessorError::BadStrPath => ErrorKind::BadInput,
            SyscallProcessorError::BadUrlArgs => ErrorKind::BadUrlArgs,
        }
    }

    pub fn kind(&self) -> (r: ErrorKind)
        ensures
            r == self.kind_of(),
    {
        match self {
            SyscallProcessorError::UnreachableScheduler => ErrorKind::SchedulerUnreachable,
            SyscallProcessorError::Blob(_) => ErrorKind::StoreFailure,
            SyscallProcessorError::Database => ErrorKind::StoreFailure,
            SyscallProcessorError::Http(_) => ErrorKind::HttpTransport,
            SyscallProcessorError::HttpAuth => ErrorKind::HttpTransport,
            SyscallProcessorError::BadStrPath => ErrorKind::BadInput,
            SyscallProcessorError::BadUrlArgs => ErrorKind::BadUrlArgs,
        }
    }
}

impl SyscallProcessor {
    /// Why a handle does not give an entry of a kind: it is not open, or it
    /// is open for another kind. `None` exactly where `object_of` gives the
    /// object.
    pub fn handle_error(&self, fd: u64, kind: DentKind) -> (r: Option<ErrorKind>)
        ensures
            r == handle_failure(self@, fd, kind),
            r is None <==> self@.object_of(fd, kind) is Some,
    {
        match self.dent(fd) {
            None => Some(ErrorKind::BadHandle),
            Some(e) => if DentKind::from(&e) == kind {
                None
            } else {
                Some(ErrorKind::KindMismatch)
            },
        }
    }

    /// Why an object cannot be written: the store does not hold it, or the
    /// current label does not flow to its label. `None` exactly where the
    /// write check passes.
    pub fn write_error(&self, object: &Option<Label>) -> (r: Option<ErrorKind>)
        ensures
            r == write_failure(self@, *object),
            r is None <==> crate::update::write_allowed(self@, *object),
    {
        match object {
            None => Some(ErrorKind::StoreFailure),
            Some(l) => if self.can_write(l) {
                None
            } else {
                Some(ErrorKind::LabelDenied)
            },
        }
    }

    /// Why an invocation is not allowed: `None` exactly where the session's
    /// privilege implies the clearance.
    pub fn invoke_error(&self, clearance: &labeled::buckle::Component) -> (r: Option<ErrorKind>)
        ensures
            r == (if crate::invoke::invoker_cleared(self@, *clearance) {
                None
            } else {
                Some(ErrorKind::LabelDenied)
            }),
    {
        if self.may_invoke(clearance) {
            None
        } else {
            Some(ErrorKind::LabelDenied)
        }
    }
}

} // verus!
