//! Records exchanged with the guest: the arguments and results of the cloud
//! calls.

use crate::label::Label;
use crate::objects::DirEntry;
use labeled::buckle::Component;
use std::collections::HashMap;
use vstd::prelude::*;

verus! {

/// Request to open an entry below an open directory.
#[derive(Clone, PartialEq, Eq, Debug)]
pub struct DentOpen {
    pub fd: u64,
    pub entry: Option<Entry>,
}

/// What to open: a name in a directory, or a facet of a faceted directory.
#[derive(Clone, PartialEq, Eq, Debug)]
pub enum Entry {
    Name(String),
    Facet(Label),
}

/// The six kinds of directory entry.
#[derive(Clone, Copy, PartialEq, Eq, Structural, Debug)]
pub enum DentKind {
    DentDirectory,
    DentFile,
    DentFacetedDirectory,
    DentGate,
    DentService,
    DentBlob,
}

impl DentKind {
    /// The kind of a directory entry.
    pub open spec fn of(item: DirEntry) -> DentKind {
        match item {
            DirEntry::Directory(_) => DentKind::DentDirectory,
            DirEntry::File(_) => DentKind::DentFile,
            DirEntry::Gate(_) => DentKind::DentGate,
            DirEntry::Blob(_) => DentKind::DentBlob,
            DirEntry::FacetedDirectory(_) => DentKind::DentFacetedDirectory,
            DirEntry::Service(_) => DentKind::DentService,
        }
    }

    /// The number under which a kind travels to the guest.
    pub open spec fn tag(self) -> i32 {
        match self {
            DentKind::DentDirectory => 0,
            DentKind::DentFile => 1,
            DentKind::DentFacetedDirectory => 2,
            DentKind::DentGate => 3,
            DentKind::DentService => 4,
            DentKind::DentBlob => 5,
        }
    }

    pub fn from(item: &DirEntry) -> (r: DentKind)
        ensures
            r == DentKind::of(*item),
    {
        match item {
            DirEntry::Directory(_) => DentKind::DentDirectory,
            DirEntry::File(_) => DentKind::DentFile,
            DirEntry::Gate(_) => DentKind::DentGate,
            DirEntry::Blob(_) => DentKind::DentBlob,
            DirEntry::FacetedDirectory(_) => DentKind::DentFacetedDirectory,
            DirEntry::Service(_) => DentKind::DentService,
        }
    }

    pub fn into(self) -> (r: i32)
        ensures
            r == self.tag(),
    {
        match self {
            DentKind::DentDirectory => 0,
            DentKind::DentFile => 1,
            DentKind::DentFacetedDirectory => 2,
            DentKind::DentGate => 3,
            DentKind::DentService => 4,
            DentKind::DentBlob => 5,
        }
    }
}

#[derive(Clone, PartialEq, Eq, Debug)]
pub struct DentOpenResult {
    pub success: bool,
    pub fd: u64,
    pub kind: i32,
}

#[derive(Clone, PartialEq, Eq, Debug)]
pub struct DentResult {
    pub success: bool,
    pub fd: Option<u64>,
    pub data: Option<Vec<u8>>,
}

/// A function as the guest names it: images by handle.
#[derive(Clone, PartialEq, Eq, Debug)]
pub struct Function {
    pub memory: u64,
    pub app_image: u64,
    pub runtime_image: u64,
    pub kernel: u64,
}

/// A direct gate as the guest names it. An absent field is left as it is on
/// update.
#[derive(Clone, PartialEq, Eq, Debug)]
pub struct DirectGate {
    pub privilege: Option<Component>,
    pub invoker_integrity_clearance: Option<Component>,
    pub function: Option<Function>,
    pub declassify: Option<Component>,
}

/// A redirect gate as the guest names it: the inner gate by handle.
#[derive(Clone, PartialEq, Eq, Debug)]
pub struct RedirectGate {
    pub privilege: Option<Component>,
    pub invoker_integrity_clearance: Option<Component>,
    pub gate: u64,
    pub declassify: Option<Component>,
}

#[derive(Clone, PartialEq, Eq, Debug)]
pub enum GateKind {
    Direct(DirectGate),
    Redirect(RedirectGate),
}

#[derive(Clone, PartialEq, Eq, Debug)]
pub struct Gate {
    pub kind: Option<GateKind>,
}

/// A service as the guest names it.
#[derive(Clone, PartialEq, Eq, Debug)]
pub struct Service {
    pub taint: Option<Label>,
    pub privilege: Option<Component>,
    pub invoker_integrity_clearance: Option<Component>,
    pub url: String,
    pub verb: i32,
    pub headers: HashMap<String, String>,
}

#[derive(Clone, PartialEq, Eq, Debug)]
pub enum CreateKind {
    Directory,
    File,
    FacetedDirectory,
    Blob(u64),
    Gate(Gate),
    Service(Service),
}

#[derive(Clone, PartialEq, Eq, Debug)]
pub struct DentCreate {
    pub label: Option<Label>,
    pub kind: Option<CreateKind>,
}

#[derive(Clone, PartialEq, Eq, Debug)]
pub enum UpdateKind {
    File(Vec<u8>),
    Blob(u64),
    Gate(Gate),
    Service(Service),
}

#[derive(Clone, PartialEq, Eq, Debug)]
pub struct DentUpdate {
    pub fd: u64,
    pub kind: Option<UpdateKind>,
}

#[derive(Clone, PartialEq, Eq, Debug)]
pub struct DentLink {
    pub dir_fd: u64,
    pub name: String,
    pub target_fd: u64,
}

#[derive(Clone, PartialEq, Eq, Debug)]
pub struct DentUnlink {
    pub dir_fd: u64,
    pub name: String,
}

#[derive(Clone, PartialEq, Eq, Debug)]
pub struct DentListResult {
    pub success: bool,
    pub entries: Vec<(String, i32)>,
}

#[derive(Clone, PartialEq, Eq, Debug)]
pub struct DentLsFaceted {
    pub fd: u64,
    pub clearance: Option<Label>,
}

#[derive(Clone, PartialEq, Eq, Debug)]
pub struct DentLsFacetedResult {
    pub success: bool,
    pub facets: Vec<Label>,
}

#[derive(Clone, PartialEq, Eq, Debug)]
pub struct DentLsGateResult {
    pub success: bool,
    pub gate: Option<Gate>,
}

#[derive(Clone, PartialEq, Eq, Debug)]
pub struct DentInvoke {
    pub fd: u64,
    pub sync: bool,
    pub payload: Vec<u8>,
    pub toblob: bool,
    pub parameters: HashMap<String, String>,
}

#[derive(Clone, PartialEq, Eq, Debug)]
pub struct DentInvokeResult {
    pub success: bool,
    pub fd: Option<u64>,
    pub data: Option<Vec<u8>>,
    pub headers: HashMap<String, Vec<u8>>,
}

#[derive(Clone, PartialEq, Eq, Debug)]
pub struct BlobWrite {
    pub fd: u64,
    pub data: Vec<u8>,
}

#[derive(Clone, PartialEq, Eq, Debug)]
pub struct BlobFinalize {
    pub fd: u64,
}

#[derive(Clone, PartialEq, Eq, Debug)]
pub struct BlobRead {
    pub fd: u64,
    pub offset: Option<u64>,
    pub length: Option<u64>,
}

#[derive(Clone, PartialEq, Eq, Debug)]
pub struct BlobClose {
    pub fd: u64,
}

#[derive(Clone, PartialEq, Eq, Debug)]
pub struct BlobResult {
    pub success: bool,
    pub fd: u64,
    pub len: u64,
    pub data: Option<Vec<u8>>,
}

impl DentResult {
    /// The reply that only says whether a call went through.
    pub fn status(success: bool) -> (r: DentResult)
        ensures
            r.success == success,
            r.fd is None,
            r.data is None,
    {
        DentResult { success, fd: None, data: None }
    }
}

/// The reply to `root`: the handle of the root directory, which is 0.
pub fn root() -> (r: DentResult)
    ensures
        r.success,
        r.fd == Some(0u64),
        r.data is None,
{
    DentResult { success: true, fd: Some(0), data: None }
}

} // verus!
