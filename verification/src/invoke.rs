//! `dent_invoke`: the mediated call of a gate or of an outbound service.

use crate::interface::{DentInvoke, DentInvokeResult};
use crate::label::{formula, Formula, Label, LabelModel};
use crate::objects::{
    BlobSlot, DirEntry, DirectGate, HttpRequest, HttpResponse, LabeledInvoke, OpenBlob, Service,
    SyscallProcessorError, TaskReturn,
};
use crate::processor::{Session, SyscallProcessor};
use labeled::buckle::Component;
use std::collections::HashMap;
use vstd::prelude::*;

verus! {

broadcast use vstd::std_specs::hash::group_hash_axioms;

/// The text that `strfmt` makes of a template and its variables, if it
/// makes one.
pub uninterp spec fn interpolated(template: Seq<char>, vars: Map<String, String>) -> Option<
    Seq<char>,
>;

/// `strfmt::strfmt`: fills the `{name}` fields of a template from a map of
/// variables. It fails where the template is malformed or names a variable
/// that the map lacks.
#[verifier::external_body]
fn interpolate(template: &str, vars: &HashMap<String, String>) -> (r: Option<String>)
    ensures
        interpolated(template@, vars@) == match r {
            Some(text) => Some(text@),
            None => None,
        },
{
    strfmt::strfmt(template, vars).ok()
}

/// What the store resolved an invoked handle to.
#[derive(Clone, PartialEq, Eq, Debug)]
pub enum Invokable {
    /// A gate with its function, redirections followed.
    Gate(DirectGate),
    Service(Service),
}

/// What an invocation is to do outside.
#[derive(PartialEq, Eq, Debug)]
pub enum InvokePlan {
    /// Nothing: the invocation fails.
    Reject,
    /// Send a message to the scheduler.
    Schedule { message: LabeledInvoke, toblob: bool },
    /// Send a request to a service; there is none to send where its address
    /// could not be made. Either way the label is lowered by `privilege`
    /// before and tainted by `taint` after.
    Send {
        request: Result<HttpRequest, SyscallProcessorError>,
        privilege: Component,
        taint: Label,
        toblob: bool,
    },
}

/// What the outside did for an invocation.
#[derive(Clone, PartialEq, Eq, Debug)]
pub enum InvokeOutcome {
    /// Nothing was sent, or sending failed.
    Failed(SyscallProcessorError),
    /// The message went to the scheduler; no reply is awaited.
    Dispatched,
    /// The scheduler's reply, and the blob that its payload became where a
    /// blob was asked for and could be made.
    Returned(TaskReturn, Option<OpenBlob>),
    /// The service's response, and the blob that its body became where a
    /// blob was asked for and could be made.
    Responded(HttpResponse, Option<OpenBlob>),
}

impl LabelModel {
    /// The label with its secrecy lowered as far as `privilege` allows.
    pub open spec fn declassified_by(self, privilege: Formula) -> LabelModel {
        LabelModel { secrecy: self.secrecy.lowered_by(privilege), integrity: self.integrity }
    }
}

/// The invoker check: the session's privilege implies the clearance.
pub open spec fn invoker_cleared(s: Session, clearance: Component) -> bool {
    formula(s.privilege).implies(formula(clearance))
}

/// The plan for a gate.
pub open spec fn gate_plan(s: Session, req: DentInvoke, gate: DirectGate) -> InvokePlan {
    if invoker_cleared(s, gate.invoker_integrity_clearance) {
        InvokePlan::Schedule {
            message: LabeledInvoke {
                function: gate.function,
                label: s.label,
                gate_privilege: gate.privilege,
                payload: req.payload,
                headers: req.parameters,
                sync: req.sync,
                invoker: s.privilege,
            },
            toblob: req.toblob,
        }
    } else {
        InvokePlan::Reject
    }
}

/// The plan for a service whose address came out as `url`.
pub open spec fn service_plan(
    s: Session,
    req: DentInvoke,
    service: Service,
    url: Option<String>,
) -> InvokePlan {
    if invoker_cleared(s, service.invoker_integrity_clearance) {
        InvokePlan::Send {
            request: match url {
                Some(url) => Ok(
                    HttpRequest {
                        verb: service.verb,
                        url,
                        headers: service.headers,
                        body: Some(req.payload),
                    },
                ),
                None => Err(SyscallProcessorError::BadUrlArgs),
            },
            privilege: service.privilege,
            taint: service.taint,
            toblob: req.toblob,
        }
    } else {
        InvokePlan::Reject
    }
}

/// The address that a plan holds, if it holds one.
pub open spec fn url_of(plan: InvokePlan) -> Option<String> {
    match plan {
        InvokePlan::Send { request: Ok(request), .. } => Some(request.url),
        _ => None,
    }
}

/// The label after the invocation.
pub open spec fn label_after_invoke(
    label: LabelModel,
    plan: InvokePlan,
    outcome: InvokeOutcome,
) -> LabelModel {
    match plan {
        InvokePlan::Reject => label,
        InvokePlan::Schedule { message, .. } => match outcome {
            InvokeOutcome::Returned(reply, _) if message.sync => match reply.label {
                Some(l) => label.tainted(l@),
                None => label.tainted(LabelModel::public()),
            },
            _ => label,
        },
        InvokePlan::Send { privilege, taint, .. } => label.declassified_by(
            formula(privilege),
        ).tainted(taint@),
    }
}

/// The blob that the invocation opens, if it opens one.
pub open spec fn blob_of_invoke(plan: InvokePlan, outcome: InvokeOutcome) -> Option<OpenBlob> {
    match (plan, outcome) {
        (
            InvokePlan::Schedule { message, toblob },
            InvokeOutcome::Returned(_, blob),
        ) if message.sync && toblob => blob,
        (InvokePlan::Send { toblob, .. }, InvokeOutcome::Responded(_, blob)) if toblob => blob,
        _ => None,
    }
}

/// The bytes that the invocation hands to the guest, if it hands any.
pub open spec fn data_of_invoke(plan: InvokePlan, outcome: InvokeOutcome) -> Option<Seq<u8>> {
    match (plan, outcome) {
        (
            InvokePlan::Schedule { message, .. },
            InvokeOutcome::Dispatched,
        ) if !message.sync => Some(Seq::empty()),
        (
            InvokePlan::Schedule { message, toblob },
            InvokeOutcome::Returned(reply, _),
        ) if message.sync && !toblob => match reply.payload {
            Some(body) => Some(body@),
            None => None,
        },
        (InvokePlan::Send { toblob, .. }, InvokeOutcome::Responded(response, _)) if !toblob
            => match response.body {
            Some(body) => Some(body@),
            None => None,
        },
        _ => None,
    }
}

/// The view of optional bytes.
pub open spec fn bytes_of(data: Option<Vec<u8>>) -> Option<Seq<u8>> {
    match data {
        Some(d) => Some(d@),
        None => None,
    }
}

impl SyscallProcessor {
    /// Decides the invocation of a gate: rejects it where the session's
    /// privilege does not imply that gate's clearance, else makes the message
    /// for the scheduler, under the current label and privilege.
    pub fn dent_invoke_gate(&self, req: DentInvoke, gate: DirectGate) -> (r: InvokePlan)
        ensures
            r == gate_plan(self@, req, gate),
    {
        if !self.may_invoke(&gate.invoker_integrity_clearance) {
            return InvokePlan::Reject;
        }
        InvokePlan::Schedule {
            message: LabeledInvoke {
                function: gate.function,
                label: self.get_current_label(),
                gate_privilege: gate.privilege,
                payload: req.payload,
                headers: req.parameters,
                sync: req.sync,
                invoker: self.get_privilege(),
            },
            toblob: req.toblob,
        }
    }

    /// Decides the invocation of a service whose address came out as `url`:
    /// rejects it where the session's privilege does not imply the service's
    /// clearance, else makes the request, with the payload as its body.
    pub fn dent_invoke_service(&self, req: DentInvoke, service: Service, url: Option<String>) -> (r:
        InvokePlan)
        ensures
            r == service_plan(self@, req, service, url),
    {
        if !self.may_invoke(&service.invoker_integrity_clearance) {
            return InvokePlan::Reject;
        }
        let Service { taint, privilege, invoker_integrity_clearance: _, url: _, verb, headers } =
            service;
        let request = match url {
            Some(url) => Ok(HttpRequest { verb, url, headers, body: Some(req.payload) }),
            None => Err(SyscallProcessorError::BadUrlArgs),
        };
        InvokePlan::Send { request, privilege, taint, toblob: req.toblob }
    }

    /// Decides an invocation. `target` is what the store resolved the handle
    /// to. The handle must be an open Gate with a gate behind it, or an open
    /// Service with a service behind it; anything else is rejected. A
    /// service's address is its template filled from the parameters.
    pub fn dent_invoke_plan(&self, req: DentInvoke, target: Option<Invokable>) -> (r: InvokePlan)
        ensures
            match (
                if self@.dents.contains_key(req.fd) {
                    Some(self@.dents[req.fd])
                } else {
                    None
                },
                target,
            ) {
                (Some(DirEntry::Gate(_)), Some(Invokable::Gate(gate))) => r == gate_plan(
                    self@,
                    req,
                    gate,
                ),
                (Some(DirEntry::Service(_)), Some(Invokable::Service(service))) => {
                    &&& r == service_plan(self@, req, service, url_of(r))
                    &&& invoker_cleared(self@, service.invoker_integrity_clearance) ==> interpolated(
                        service.url@,
                        req.parameters@,
                    ) == match url_of(r) {
                        Some(url) => Some(url@),
                        None => None,
                    }
                },
                _ => r is Reject,
            },
    {
        match (self.dent(req.fd), target) {
            (Some(DirEntry::Gate(_)), Some(Invokable::Gate(gate))) => self.dent_invoke_gate(
                req,
                gate,
            ),
            (Some(DirEntry::Service(_)), Some(Invokable::Service(service))) => {
                let url = interpolate(service.url.as_str(), &req.parameters);
                self.dent_invoke_service(req, service, url)
            },
            _ => InvokePlan::Reject,
        }
    }

    /// Completes an invocation: `plan` is what was decided and `outcome`
    /// what the outside did for it.
    ///
    /// For a service the label is lowered by the service's privilege and
    /// then tainted with the service's taint, whatever the outcome. For a
    /// gate that was awaited the label is tainted with the label of the
    /// reply, or with the public label where the reply has none, before any
    /// payload is handed on. The call succeeds where it hands the guest
    /// bytes or a blob handle.
    pub fn dent_invoke(&mut self, plan: &InvokePlan, outcome: InvokeOutcome) -> (r:
        DentInvokeResult)
        requires
            old(self).wf(),
        ensures
            final(self).wf(),
            final(self)@.issues_after(old(self)@),
            final(self)@.label@ == label_after_invoke(old(self)@.label@, *plan, outcome),
            plan matches InvokePlan::Send { taint, .. } ==> taint@.flows_to(final(self)@.label@),
            !(plan is Send) ==> old(self)@.label@.flows_to(final(self)@.label@),
            r.success == (r.fd is Some || r.data is Some),
            bytes_of(r.data) == data_of_invoke(*plan, outcome),
            match blob_of_invoke(*plan, outcome) {
                Some(blob) if old(self)@.max_blob_id < u64::MAX => {
                    &&& r.fd == Some(old(self)@.max_blob_id)
                    &&& final(self)@ == old(self)@.with_blob(BlobSlot::Open(blob)).with_label(
                        final(self)@.label,
                    )
                },
                _ => {
                    &&& r.fd is None
                    &&& final(self)@ == old(self)@.with_label(final(self)@.label)
                },
            },
            match (*plan, outcome) {
                (InvokePlan::Send { .. }, InvokeOutcome::Responded(response, _)) => r.headers
                    == response.headers,
                _ => r.headers@ == Map::<String, Vec<u8>>::empty(),
            },
    {
        proof {
            crate::label::lemma_flows_reflexive(self@.label@);
        }
        match plan {
            InvokePlan::Reject => DentInvokeResult {
                success: false,
                fd: None,
                data: None,
                headers: HashMap::new(),
            },
            InvokePlan::Schedule { message, toblob } => {
                if !message.sync {
                    match outcome {
                        InvokeOutcome::Dispatched => DentInvokeResult {
                            success: true,
                            fd: None,
                            data: Some(Vec::new()),
                            headers: HashMap::new(),
                        },
                        _ => DentInvokeResult {
                            success: false,
                            fd: None,
                            data: None,
                            headers: HashMap::new(),
                        },
                    }
                } else {
                    match outcome {
                        InvokeOutcome::Returned(reply, blob) => {
                            let TaskReturn { code: _, payload, label } = reply;
                            let reply_label = match label {
                                Some(l) => l,
                                None => Label::public(),
                            };
                            self.taint_with_label(reply_label);
                            if *toblob {
                                let fd = self.keep_blob(blob);
                                DentInvokeResult {
                                    success: fd.is_some(),
                                    fd,
                                    data: None,
                                    headers: HashMap::new(),
                                }
                            } else {
                                DentInvokeResult {
                                    success: payload.is_some(),
                                    fd: None,
                                    data: payload,
                                    headers: HashMap::new(),
                                }
                            }
                        },
                        _ => DentInvokeResult {
                            success: false,
                            fd: None,
                            data: None,
                            headers: HashMap::new(),
                        },
                    }
                }
            },
            InvokePlan::Send { request: _, privilege, taint, toblob } => {
                self.declassify_with(privilege);
                self.taint_with_label(taint.clone());
                match outcome {
                    InvokeOutcome::Responded(response, blob) => {
                        let HttpResponse { headers, body } = response;
                        if *toblob {
                            let fd = self.keep_blob(blob);
                            DentInvokeResult { success: fd.is_some(), fd, data: None, headers }
                        } else {
                            DentInvokeResult {
                                success: body.is_some(),
                                fd: None,
                                data: body,
                                headers,
                            }
                        }
                    },
                    _ => DentInvokeResult {
                        success: false,
                        fd: None,
                        data: None,
                        headers: HashMap::new(),
                    },
                }
            },
        }
    }

    /// Opens a finalized blob under the next blob handle, if there is one.
    pub(crate) fn keep_blob(&mut self, blob: Option<OpenBlob>) -> (r: Option<u64>)
        requires
            old(self).wf(),
        ensures
            final(self).wf(),
            final(self)@.issues_after(old(self)@),
            match blob {
                Some(b) if old(self)@.max_blob_id < u64::MAX => {
                    &&& r == Some(old(self)@.max_blob_id)
                    &&& final(self)@ == old(self)@.with_blob(BlobSlot::Open(b))
                },
                _ => {
                    &&& r is None
                    &&& final(self)@ == old(self)@
                },
            },
    {
        match blob {
            Some(b) => self.open_blob(BlobSlot::Open(b)),
            None => None,
        }
    }
}

} // verus!
