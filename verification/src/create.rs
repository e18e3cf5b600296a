//! `dent_create`: making a new object and opening it.

use crate::interface::{CreateKind, DentCreate, DentResult, GateKind};
use crate::label::{formula, Formula, Label, LabelModel};
use crate::objects::{BlobSlot, DirEntry, Function, ObjRef, StoreOp};
use crate::processor::{Session, SyscallProcessor};
use crate::update::{given_or, merge, service_for_store, stored_service};
use labeled::buckle::Component;
use vstd::prelude::*;

verus! {

/// What the stores hold of the objects that a creation refers to.
#[derive(Clone, PartialEq, Eq, Debug)]
pub struct CreateContext {
    /// The blob name of the entry named as the application image.
    pub app_image: Option<String>,
    /// The blob name of the entry named as the runtime image.
    pub runtime_image: Option<String>,
}

/// The label that a creation uses: the given one, or else a public label.
pub open spec fn label_or_public(given: Option<Label>, used: Label) -> bool {
    match given {
        Some(l) => used == l,
        None => used@ == LabelModel::public(),
    }
}

/// The image name of a new gate: the handle must be an open Blob entry whose
/// name was fetched.
pub open spec fn image_name(s: Session, fd: u64, fetched: Option<String>) -> Option<String> {
    if s.dents.contains_key(fd) && s.dents[fd] is Blob {
        fetched
    } else {
        None
    }
}

/// The store operation that makes a gate as the guest names it, under
/// `label`; `top` stands where no declassify component is given.
pub open spec fn create_gate_op(
    s: Session,
    label: Label,
    top: Component,
    given: crate::interface::Gate,
    stored: CreateContext,
) -> Option<StoreOp> {
    match given.kind {
        Some(GateKind::Direct(g)) => match (
            g.function,
            g.privilege,
            g.invoker_integrity_clearance,
        ) {
            (Some(f), Some(privilege), Some(invoker_integrity_clearance)) => match (
                image_name(s, f.app_image, stored.app_image),
                image_name(s, f.runtime_image, stored.runtime_image),
            ) {
                (Some(app_image), Some(runtime_image)) => Some(
                    StoreOp::CreateDirectGate(
                        label,
                        crate::objects::DirectGate {
                            privilege,
                            invoker_integrity_clearance,
                            declassify: given_or(g.declassify, top),
                            function: Function { memory: f.memory, app_image, runtime_image },
                        },
                    ),
                ),
                _ => None,
            },
            _ => None,
        },
        Some(GateKind::Redirect(g)) => match (g.privilege, g.invoker_integrity_clearance) {
            (Some(privilege), Some(invoker_integrity_clearance)) => if s.dents.contains_key(g.gate)
                && s.dents[g.gate] is Gate {
                Some(
                    StoreOp::CreateRedirectGate(
                        label,
                        crate::objects::RedirectGate {
                            privilege,
                            invoker_integrity_clearance,
                            declassify: given_or(g.declassify, top),
                            gate: s.dents[g.gate]->Gate_0,
                        },
                    ),
                )
            } else {
                None
            },
            _ => None,
        },
        None => None,
    }
}

/// The store operation that a creation asks for, under `label`.
pub open spec fn create_op(
    s: Session,
    label: Label,
    top: Component,
    kind: Option<CreateKind>,
    stored: CreateContext,
) -> Option<StoreOp> {
    match kind {
        None => None,
        Some(CreateKind::Directory) => Some(StoreOp::CreateDirectory(label)),
        Some(CreateKind::File) => Some(StoreOp::CreateFile(label)),
        Some(CreateKind::FacetedDirectory) => Some(StoreOp::CreateFacetedDirectory),
        Some(CreateKind::Blob(b)) => if s.is_open_blob(b) {
            Some(StoreOp::CreateBlob(label, s.blobs[b]->Open_0.name))
        } else {
            None
        },
        Some(CreateKind::Gate(g)) => create_gate_op(s, label, top, g, stored),
        Some(CreateKind::Service(v)) => match stored_service(v) {
            Some(service) => Some(StoreOp::CreateService(label, service)),
            None => None,
        },
    }
}

impl SyscallProcessor {
    fn image_for_create(&self, fd: u64, fetched: Option<String>) -> (r: Option<String>)
        ensures
            r == image_name(self@, fd, fetched),
    {
        match self.dent(fd) {
            Some(DirEntry::Blob(_)) => fetched,
            _ => None,
        }
    }

    fn gate_for_create(
        &self,
        label: Label,
        top: Component,
        given: crate::interface::Gate,
        stored: CreateContext,
    ) -> (r: Option<StoreOp>)
        ensures
            r == create_gate_op(self@, label, top, given, stored),
    {
        match given.kind {
            Some(GateKind::Direct(g)) => match (
                g.function,
                g.privilege,
                g.invoker_integrity_clearance,
            ) {
                (Some(f), Some(privilege), Some(invoker_integrity_clearance)) => {
                    let app = self.image_for_create(f.app_image, stored.app_image);
                    let runtime = self.image_for_create(f.runtime_image, stored.runtime_image);
                    match (app, runtime) {
                        (Some(app_image), Some(runtime_image)) => Some(
                            StoreOp::CreateDirectGate(
                                label,
                                crate::objects::DirectGate {
                                    privilege,
                                    invoker_integrity_clearance,
                                    declassify: merge(g.declassify, top),
                                    function: Function {
                                        memory: f.memory,
                                        app_image,
                                        runtime_image,
                                    },
                                },
                            ),
                        ),
                        _ => None,
                    }
                },
                _ => None,
            },
            Some(GateKind::Redirect(g)) => match (g.privilege, g.invoker_integrity_clearance) {
                (Some(privilege), Some(invoker_integrity_clearance)) => match self.dent(g.gate) {
                    Some(DirEntry::Gate(gate)) => Some(
                        StoreOp::CreateRedirectGate(
                            label,
                            crate::objects::RedirectGate {
                                privilege,
                                invoker_integrity_clearance,
                                declassify: merge(g.declassify, top),
                                gate,
                            },
                        ),
                    ),
                    _ => None,
                },
                _ => None,
            },
            None => None,
        }
    }

    /// Decides a creation under a label that is already settled: names the
    /// operation that makes the object, or `None` where the creation fails.
    /// It fails where no kind is given, a handle that the kind names does not
    /// resolve, or a gate or service lacks a required field.
    pub fn dent_create_plan_under(
        &self,
        label: Label,
        top: Component,
        kind: Option<CreateKind>,
        stored: CreateContext,
    ) -> (r: Option<StoreOp>)
        ensures
            r == create_op(self@, label, top, kind, stored),
    {
        match kind {
            None => None,
            Some(CreateKind::Directory) => Some(StoreOp::CreateDirectory(label)),
            Some(CreateKind::File) => Some(StoreOp::CreateFile(label)),
            Some(CreateKind::FacetedDirectory) => Some(StoreOp::CreateFacetedDirectory),
            Some(CreateKind::Blob(b)) => match self.blob(b) {
                Some(BlobSlot::Open(blob)) => Some(StoreOp::CreateBlob(label, blob.name.clone())),
                _ => None,
            },
            Some(CreateKind::Gate(g)) => self.gate_for_create(label, top, g, stored),
            Some(CreateKind::Service(v)) => match service_for_store(v) {
                Some(service) => Some(StoreOp::CreateService(label, service)),
                None => None,
            },
        }
    }

    /// Decides a creation: as `dent_create_plan_under`, under the label of
    /// the request, or a public label where it gives none, and with `true`
    /// for a gate's declassify component where the request gives none.
    pub fn dent_create_plan(&self, req: DentCreate, stored: CreateContext) -> (r: Option<StoreOp>)
        ensures
            exists|label: Label, top: Component|
                label_or_public(req.label, label) && formula(top) == Formula::truth() && r
                    == #[trigger] create_op(self@, label, top, req.kind, stored),
    {
        let label = match req.label {
            Some(l) => l,
            None => Label::public(),
        };
        let top = Component::dc_true();
        self.dent_create_plan_under(label, top, req.kind, stored)
    }

    /// Completes a creation: `op` is the operation that was decided on and
    /// `made` the object that the store made for it, `None` where it made
    /// none. The new entry is opened under the next handle, which is
    /// returned; otherwise the call fails and nothing changes.
    pub fn dent_create(&mut self, op: &StoreOp, made: Option<ObjRef>) -> (r: DentResult)
        requires
            old(self).wf(),
        ensures
            final(self).wf(),
            final(self)@.issues_after(old(self)@),
            old(self)@.label@.flows_to(final(self)@.label@),
            r.data is None,
            match made {
                Some(m) if op.entry_for(m) is Some && old(self)@.max_dent_id < u64::MAX => {
                    &&& r.success
                    &&& r.fd == Some(old(self)@.max_dent_id)
                    &&& final(self)@ == old(self)@.with_dent(op.entry_for(m)->0)
                },
                _ => {
                    &&& !r.success
                    &&& r.fd is None
                    &&& final(self)@ == old(self)@
                },
            },
    {
        proof {
            crate::label::lemma_flows_reflexive(self@.label@);
        }
        let entry = match made {
            Some(m) => op.entry(m),
            None => None,
        };
        match entry {
            Some(e) => match self.open_dent(e) {
                Some(fd) => DentResult { success: true, fd: Some(fd), data: None },
                None => DentResult::status(false),
            },
            None => DentResult::status(false),
        }
    }
}

} // verus!
