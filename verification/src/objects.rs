//! What the labeled store and the blob store hold, as plain values, and the
//! operations that a cloud call may ask of them.

use crate::label::Label;
use labeled::buckle::Component;
use std::collections::HashMap;
use vstd::prelude::*;

verus! {

/// Why a step outside the session failed.
#[derive(Clone, PartialEq, Eq, Debug)]
pub enum SyscallProcessorError {
    UnreachableScheduler,
    /// The blob store failed, with its message.
    Blob(String),
    Database,
    /// The transport to a service failed, with its message.
    Http(String),
    HttpAuth,
    BadStrPath,
    /// A service's address names a parameter that the call does not give.
    BadUrlArgs,
}

/// A reference to an object in the labeled store.
#[derive(Clone, Copy, PartialEq, Eq, Structural, Debug)]
pub struct ObjRef {
    pub uid: u64,
}

/// The identifier of the root directory in the labeled store.
pub const ROOT_UID: u64 = 0;

impl ObjRef {
    /// The root directory of the labeled store.
    pub fn root() -> (r: ObjRef)
        ensures
            r == (ObjRef { uid: ROOT_UID }),
    {
        ObjRef { uid: ROOT_UID }
    }
}

/// A directory entry: the kind of an object and the reference to it.
#[derive(Clone, Copy, PartialEq, Eq, Structural, Debug)]
pub enum DirEntry {
    Directory(ObjRef),
    File(ObjRef),
    FacetedDirectory(ObjRef),
    Gate(ObjRef),
    Service(ObjRef),
    Blob(ObjRef),
}

impl DirEntry {
    /// The object that an entry refers to.
    pub open spec fn object(self) -> ObjRef {
        match self {
            DirEntry::Directory(o) => o,
            DirEntry::File(o) => o,
            DirEntry::FacetedDirectory(o) => o,
            DirEntry::Gate(o) => o,
            DirEntry::Service(o) => o,
            DirEntry::Blob(o) => o,
        }
    }

    pub fn objref(&self) -> (r: ObjRef)
        ensures
            r == self.object(),
    {
        match self {
            DirEntry::Directory(o) => *o,
            DirEntry::File(o) => *o,
            DirEntry::FacetedDirectory(o) => *o,
            DirEntry::Gate(o) => *o,
            DirEntry::Service(o) => *o,
            DirEntry::Blob(o) => *o,
        }
    }
}

/// A value together with the label that the store keeps on it.
#[derive(Clone, PartialEq, Eq, Debug)]
pub struct Labeled<T> {
    pub label: Label,
    pub value: T,
}

/// The code that a gate runs: two images by their blob names, and a memory
/// size.
#[derive(Clone, PartialEq, Eq, Debug)]
pub struct Function {
    pub memory: u64,
    pub app_image: String,
    pub runtime_image: String,
}

/// A gate that carries its function.
#[derive(Clone, PartialEq, Eq, Debug)]
pub struct DirectGate {
    pub privilege: Component,
    pub invoker_integrity_clearance: Component,
    pub declassify: Component,
    pub function: Function,
}

/// A gate that forwards to another gate.
#[derive(Clone, PartialEq, Eq, Debug)]
pub struct RedirectGate {
    pub privilege: Component,
    pub invoker_integrity_clearance: Component,
    pub declassify: Component,
    pub gate: ObjRef,
}

#[derive(Clone, PartialEq, Eq, Debug)]
pub enum Gate {
    Direct(DirectGate),
    Redirect(RedirectGate),
}

/// The verb of an outbound request.
#[derive(Clone, Copy, PartialEq, Eq, Structural, Debug)]
pub enum HttpVerb {
    HEAD,
    GET,
    POST,
    PUT,
    DELETE,
}

impl HttpVerb {
    /// The verb that a number stands for, if it stands for one.
    pub open spec fn of(code: i32) -> Option<HttpVerb> {
        if code == 0 {
            Some(HttpVerb::HEAD)
        } else if code == 1 {
            Some(HttpVerb::GET)
        } else if code == 2 {
            Some(HttpVerb::POST)
        } else if code == 3 {
            Some(HttpVerb::PUT)
        } else if code == 4 {
            Some(HttpVerb::DELETE)
        } else {
            None
        }
    }

    pub fn from_i32(code: i32) -> (r: Option<HttpVerb>)
        ensures
            r == HttpVerb::of(code),
    {
        match code {
            0 => Some(HttpVerb::HEAD),
            1 => Some(HttpVerb::GET),
            2 => Some(HttpVerb::POST),
            3 => Some(HttpVerb::PUT),
            4 => Some(HttpVerb::DELETE),
            _ => None,
        }
    }
}

/// An outbound service: where to call, as whom, and how it taints.
#[derive(Clone, PartialEq, Eq, Debug)]
pub struct Service {
    pub taint: Label,
    pub privilege: Component,
    pub invoker_integrity_clearance: Component,
    pub url: String,
    pub verb: HttpVerb,
    pub headers: HashMap<String, String>,
}

/// A finalized blob: its content-hash name and its length.
#[derive(Clone, PartialEq, Eq, Debug)]
pub struct OpenBlob {
    pub name: String,
    pub len: u64,
}

/// A blob under construction: the bytes that the blob store took so far.
pub struct NewBlob {
    pub len: u64,
    pub content: Ghost<Seq<u8>>,
}

/// What a blob handle stands for.
pub enum BlobSlot {
    Building(NewBlob),
    Open(OpenBlob),
}

/// An operation on the labeled store that a cloud call decided on. The
/// session has made its checks before it names one; the store performs it
/// and reports what came of it.
#[derive(Clone, PartialEq, Eq, Debug)]
pub enum StoreOp {
    /// Make an empty directory under a label.
    CreateDirectory(Label),
    /// Make an empty file under a label.
    CreateFile(Label),
    /// Make an empty faceted directory; it has no label.
    CreateFacetedDirectory,
    /// Make a Blob entry that binds a content-hash name under a label.
    CreateBlob(Label, String),
    CreateDirectGate(Label, DirectGate),
    CreateRedirectGate(Label, RedirectGate),
    CreateService(Label, Service),
    /// Overwrite what a file holds.
    WriteFile(ObjRef, Vec<u8>),
    /// Bind a Blob entry to another content-hash name.
    ReplaceBlob(ObjRef, String),
    ReplaceGate(ObjRef, Gate),
    ReplaceService(ObjRef, Service),
    /// Bind a name in a directory to an entry; a name that is bound already
    /// is bound anew.
    Link(ObjRef, String, DirEntry),
    /// Remove a name from a directory.
    Unlink(ObjRef, String),
}

/// The message that asks the scheduler to run a gate's function.
#[derive(Clone, PartialEq, Eq, Debug)]
pub struct LabeledInvoke {
    pub function: Function,
    pub label: Label,
    pub gate_privilege: Component,
    pub payload: Vec<u8>,
    pub headers: HashMap<String, String>,
    pub sync: bool,
    pub invoker: Component,
}

/// What the scheduler returns for a synchronous invocation.
#[derive(Clone, PartialEq, Eq, Debug)]
pub struct TaskReturn {
    pub code: i32,
    pub payload: Option<Vec<u8>>,
    pub label: Option<Label>,
}

/// An outbound request to a service.
#[derive(Clone, PartialEq, Eq, Debug)]
pub struct HttpRequest {
    pub verb: HttpVerb,
    pub url: String,
    pub headers: HashMap<String, String>,
    pub body: Option<Vec<u8>>,
}

/// What came back from a service. The body is absent where it could not be
/// read, or where it went to a blob.
#[derive(Clone, PartialEq, Eq, Debug)]
pub struct HttpResponse {
    pub headers: HashMap<String, Vec<u8>>,
    pub body: Option<Vec<u8>>,
}

impl StoreOp {
    /// The entry that a creating operation yields once the store has made
    /// the object; `None` for an operation that creates nothing.
    pub open spec fn entry_for(self, made: ObjRef) -> Option<DirEntry> {
        match self {
            StoreOp::CreateDirectory(_) => Some(DirEntry::Directory(made)),
            StoreOp::CreateFile(_) => Some(DirEntry::File(made)),
            StoreOp::CreateFacetedDirectory => Some(DirEntry::FacetedDirectory(made)),
            StoreOp::CreateBlob(_, _) => Some(DirEntry::Blob(made)),
            StoreOp::CreateDirectGate(_, _) => Some(DirEntry::Gate(made)),
            StoreOp::CreateRedirectGate(_, _) => Some(DirEntry::Gate(made)),
            StoreOp::CreateService(_, _) => Some(DirEntry::Service(made)),
            _ => None,
        }
    }

    pub fn entry(&self, made: ObjRef) -> (r: Option<DirEntry>)
        ensures
            r == self.entry_for(made),
    {
        match self {
            StoreOp::CreateDirectory(_) => Some(DirEntry::Directory(made)),
            StoreOp::CreateFile(_) => Some(DirEntry::File(made)),
            StoreOp::CreateFacetedDirectory => Some(DirEntry::FacetedDirectory(made)),
            StoreOp::CreateBlob(_, _) => Some(DirEntry::Blob(made)),
            StoreOp::CreateDirectGate(_, _) => Some(DirEntry::Gate(made)),
            StoreOp::CreateRedirectGate(_, _) => Some(DirEntry::Gate(made)),
            StoreOp::CreateService(_, _) => Some(DirEntry::Service(made)),
            _ => None,
        }
    }
}

} // verus!
