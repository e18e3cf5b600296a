//! `dent_update`: changing what an open object holds.

use crate::interface::{DentResult, DentUpdate, GateKind, UpdateKind};
use crate::label::Label;
use crate::objects::{BlobSlot, DirEntry, Function, Gate, HttpVerb, StoreOp};
use crate::processor::{Session, SyscallProcessor};
use labeled::buckle::Component;
use vstd::prelude::*;

verus! {

/// What the stores hold of the objects that an update touches.
#[derive(Clone, PartialEq, Eq, Debug)]
pub struct UpdateContext {
    /// The label of the object under the updated handle.
    pub label: Option<Label>,
    /// What the store holds under the updated handle, where that is a gate.
    pub gate: Option<Gate>,
    /// The blob name of the entry named as the new application image.
    pub app_image: Option<String>,
    /// The blob name of the entry named as the new runtime image.
    pub runtime_image: Option<String>,
}

/// The write check on an object whose label was fetched: the current label
/// flows to the object's label.
pub open spec fn write_allowed(s: Session, object: Option<Label>) -> bool {
    object matches Some(l) && s.label@.flows_to(l@)
}

/// A field after an update: the new value where one was given.
pub open spec fn given_or<T>(given: Option<T>, current: T) -> T {
    match given {
        Some(v) => v,
        None => current,
    }
}

/// The image name after an update. Handle 0 keeps the current name; any
/// other handle must be an open Blob entry whose name was fetched.
pub open spec fn updated_image(
    s: Session,
    fd: u64,
    fetched: Option<String>,
    current: String,
) -> Option<String> {
    if fd == 0 {
        Some(current)
    } else if s.dents.contains_key(fd) && s.dents[fd] is Blob {
        fetched
    } else {
        None
    }
}

/// The function of a gate after an update.
pub open spec fn updated_function(
    s: Session,
    given: Option<crate::interface::Function>,
    stored: UpdateContext,
    current: Function,
) -> Option<Function> {
    match given {
        None => Some(current),
        Some(f) => match (
            updated_image(s, f.app_image, stored.app_image, current.app_image),
            updated_image(s, f.runtime_image, stored.runtime_image, current.runtime_image),
        ) {
            (Some(app_image), Some(runtime_image)) => Some(
                Function {
                    memory: if f.memory > 0 {
                        f.memory
                    } else {
                        current.memory
                    },
                    app_image,
                    runtime_image,
                },
            ),
            _ => None,
        },
    }
}

/// What replaces a stored gate: that gate with the fields
/// that the guest supplied. The guest's gate must be of the stored variant.
pub open spec fn updated_gate(
    s: Session,
    given: crate::interface::Gate,
    stored: UpdateContext,
) -> Option<Gate> {
    match (given.kind, stored.gate) {
        (Some(GateKind::Direct(g)), Some(Gate::Direct(current))) => match updated_function(
            s,
            g.function,
            stored,
            current.function,
        ) {
            Some(function) => Some(
                Gate::Direct(
                    crate::objects::DirectGate {
                        privilege: given_or(g.privilege, current.privilege),
                        invoker_integrity_clearance: given_or(
                            g.invoker_integrity_clearance,
                            current.invoker_integrity_clearance,
                        ),
                        declassify: given_or(g.declassify, current.declassify),
                        function,
                    },
                ),
            ),
            None => None,
        },
        (Some(GateKind::Redirect(g)), Some(Gate::Redirect(current))) => {
            if g.gate != 0 && !(s.dents.contains_key(g.gate) && s.dents[g.gate] is Gate) {
                None
            } else {
                Some(
                    Gate::Redirect(
                        crate::objects::RedirectGate {
                            privilege: given_or(g.privilege, current.privilege),
                            invoker_integrity_clearance: given_or(
                                g.invoker_integrity_clearance,
                                current.invoker_integrity_clearance,
                            ),
                            declassify: given_or(g.declassify, current.declassify),
                            gate: if g.gate != 0 {
                                s.dents[g.gate]->Gate_0
                            } else {
                                current.gate
                            },
                        },
                    ),
                )
            }
        },
        _ => None,
    }
}

/// The service that the store is to hold for a service as the guest names
/// it. Taint, privilege and clearance must be given; an unknown verb counts
/// as HEAD.
pub open spec fn stored_service(given: crate::interface::Service) -> Option<
    crate::objects::Service,
> {
    match (given.taint, given.privilege, given.invoker_integrity_clearance) {
        (Some(taint), Some(privilege), Some(invoker_integrity_clearance)) => Some(
            crate::objects::Service {
                taint,
                privilege,
                invoker_integrity_clearance,
                url: given.url,
                verb: given_or(HttpVerb::of(given.verb), HttpVerb::HEAD),
                headers: given.headers,
            },
        ),
        _ => None,
    }
}

/// The write that an update asks of the store. The kind of the update must
/// be that of the object under the handle, and the write check must pass.
pub open spec fn update_plan(s: Session, req: DentUpdate, stored: UpdateContext) -> Option<
    StoreOp,
> {
    if !s.dents.contains_key(req.fd) || !write_allowed(s, stored.label) {
        None
    } else {
        match (req.kind, s.dents[req.fd]) {
            (Some(UpdateKind::File(data)), DirEntry::File(o)) => Some(StoreOp::WriteFile(o, data)),
            (Some(UpdateKind::Blob(b)), DirEntry::Blob(o)) => if s.is_open_blob(b) {
                Some(StoreOp::ReplaceBlob(o, s.blobs[b]->Open_0.name))
            } else {
                None
            },
            (Some(UpdateKind::Gate(g)), DirEntry::Gate(o)) => match updated_gate(s, g, stored) {
                Some(gate) => Some(StoreOp::ReplaceGate(o, gate)),
                None => None,
            },
            (Some(UpdateKind::Service(v)), DirEntry::Service(o)) => match stored_service(v) {
                Some(service) => Some(StoreOp::ReplaceService(o, service)),
                None => None,
            },
            _ => None,
        }
    }
}

/// A field after an update: the new value where one was given.
pub(crate) fn merge<T>(given: Option<T>, current: T) -> (r: T)
    ensures
        r == given_or(given, current),
{
    match given {
        Some(v) => v,
        None => current,
    }
}

/// Builds the service that the store is to hold.
pub fn service_for_store(given: crate::interface::Service) -> (r: Option<crate::objects::Service>)
    ensures
        r == stored_service(given),
{
    let crate::interface::Service { taint, privilege, invoker_integrity_clearance, url, verb, headers } =
        given;
    match (taint, privilege, invoker_integrity_clearance) {
        (Some(taint), Some(privilege), Some(invoker_integrity_clearance)) => Some(
            crate::objects::Service {
                taint,
                privilege,
                invoker_integrity_clearance,
                url,
                verb: merge(HttpVerb::from_i32(verb), HttpVerb::HEAD),
                headers,
            },
        ),
        _ => None,
    }
}

/// What an update writes to a file is what a read of the same handle asks
/// the store for: where the write check passes, the update hands the store
/// the guest's bytes for the object behind the handle, and a read of the
/// handle hands the guest what the store holds of that object.
pub proof fn lemma_update_writes_what_read_fetches(
    s: Session,
    fd: u64,
    data: Vec<u8>,
    stored: UpdateContext,
)
    requires
        s.dents.contains_key(fd),
        s.dents[fd] is File,
        write_allowed(s, stored.label),
    ensures
        update_plan(s, DentUpdate { fd, kind: Some(UpdateKind::File(data)) }, stored) == Some(
            StoreOp::WriteFile(s.dents[fd].object(), data),
        ),
        s.object_of(fd, crate::interface::DentKind::DentFile) == Some(s.dents[fd].object()),
{
}

impl SyscallProcessor {
    fn image_for_update(&self, fd: u64, fetched: Option<String>, current: String) -> (r: Option<
        String,
    >)
        ensures
            r == updated_image(self@, fd, fetched, current),
    {
        if fd == 0 {
            Some(current)
        } else {
            match self.dent(fd) {
                Some(DirEntry::Blob(_)) => fetched,
                _ => None,
            }
        }
    }

    fn function_for_update(
        &self,
        given: Option<crate::interface::Function>,
        app_image: Option<String>,
        runtime_image: Option<String>,
        current: Function,
    ) -> (r: Option<Function>)
        ensures
            r == updated_function(
                self@,
                given,
                UpdateContext { label: None, gate: None, app_image, runtime_image },
                current,
            ),
    {
        match given {
            None => Some(current),
            Some(f) => {
                let Function { memory, app_image: app, runtime_image: runtime } = current;
                let new_app = self.image_for_update(f.app_image, app_image, app);
                let new_runtime = self.image_for_update(f.runtime_image, runtime_image, runtime);
                match (new_app, new_runtime) {
                    (Some(app_image), Some(runtime_image)) => Some(
                        Function {
                            memory: if f.memory > 0 {
                                f.memory
                            } else {
                                memory
                            },
                            app_image,
                            runtime_image,
                        },
                    ),
                    _ => None,
                }
            },
        }
    }

    fn gate_for_update(&self, given: crate::interface::Gate, stored: UpdateContext) -> (r: Option<
        Gate,
    >)
        ensures
            r == updated_gate(self@, given, stored),
    {
        let UpdateContext { label: _, gate, app_image, runtime_image } = stored;
        match (given.kind, gate) {
            (Some(GateKind::Direct(g)), Some(Gate::Direct(current))) => {
                let crate::objects::DirectGate {
                    privilege,
                    invoker_integrity_clearance,
                    declassify,
                    function,
                } = current;
                match self.function_for_update(g.function, app_image, runtime_image, function) {
                    Some(function) => Some(
                        Gate::Direct(
                            crate::objects::DirectGate {
                                privilege: merge(g.privilege, privilege),
                                invoker_integrity_clearance: merge(
                                    g.invoker_integrity_clearance,
                                    invoker_integrity_clearance,
                                ),
                                declassify: merge(g.declassify, declassify),
                                function,
                            },
                        ),
                    ),
                    None => None,
                }
            },
            (Some(GateKind::Redirect(g)), Some(Gate::Redirect(current))) => {
                let inner = if g.gate != 0 {
                    match self.dent(g.gate) {
                        Some(DirEntry::Gate(inner)) => Some(inner),
                        _ => None,
                    }
                } else {
                    Some(current.gate)
                };
                match inner {
                    Some(gate) => Some(
                        Gate::Redirect(
                            crate::objects::RedirectGate {
                                privilege: merge(g.privilege, current.privilege),
                                invoker_integrity_clearance: merge(
                                    g.invoker_integrity_clearance,
                                    current.invoker_integrity_clearance,
                                ),
                                declassify: merge(g.declassify, current.declassify),
                                gate,
                            },
                        ),
                    ),
                    None => None,
                }
            },
            _ => None,
        }
    }

    /// Completes an update: `planned` is what was decided and `written`
    /// whether the store performed it. The call succeeds where a write was
    /// decided on and the store performed it. Nothing changes in the
    /// session.
    pub fn dent_update(planned: &Option<StoreOp>, written: bool) -> (r: DentResult)
        ensures
            r.success == (planned is Some && written),
            r.fd is None,
            r.data is None,
    {
        DentResult::status(planned.is_some() && written)
    }

    /// Decides an update: names the write that the store is to perform, or
    /// `None` where the update fails. It fails where the handle is not open,
    /// the object's label was not fetched or the current label does not flow
    /// to it, the kind of the update is not that of the object, or a handle
    /// that the update names does not resolve.
    pub fn dent_update_plan(&self, req: DentUpdate, stored: UpdateContext) -> (r: Option<StoreOp>)
        ensures
            r == update_plan(self@, req, stored),
            r is Some ==> stored.label is Some && self@.label@.flows_to(stored.label->0@),
    {
        let entry = match self.dent(req.fd) {
            Some(e) => e,
            None => {
                return None;
            },
        };
        let allowed = match &stored.label {
            Some(l) => self.can_write(l),
            None => false,
        };
        if !allowed {
            return None;
        }
        match (req.kind, entry) {
            (Some(UpdateKind::File(data)), DirEntry::File(o)) => Some(StoreOp::WriteFile(o, data)),
            (Some(UpdateKind::Blob(b)), DirEntry::Blob(o)) => match self.blob(b) {
                Some(BlobSlot::Open(blob)) => Some(StoreOp::ReplaceBlob(o, blob.name.clone())),
                _ => None,
            },
            (Some(UpdateKind::Gate(g)), DirEntry::Gate(o)) => match self.gate_for_update(g, stored) {
                Some(gate) => Some(StoreOp::ReplaceGate(o, gate)),
                None => None,
            },
            (Some(UpdateKind::Service(v)), DirEntry::Service(o)) => match service_for_store(v) {
                Some(service) => Some(StoreOp::ReplaceService(o, service)),
                None => None,
            },
            _ => None,
        }
    }
}

} // verus!
