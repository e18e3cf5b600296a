//! `dent_ls_gate`: what a gate holds, as the guest may see it.

use crate::interface::{DentLsGateResult, GateKind};
use crate::label::LabelModel;
use crate::objects::{BlobSlot, DirEntry, Gate, Labeled, OpenBlob};
use crate::processor::{Session, SyscallProcessor};
use vstd::prelude::*;

verus! {

impl Session {
    /// The session after the next blob handle was used up for nothing.
    pub open spec fn skipping_blob(self) -> Session {
        Session { max_blob_id: (self.max_blob_id + 1) as u64, ..self }
    }

    /// The session after an attempt to open an image: the next blob handle
    /// is used up, and stands for the image where it could be opened.
    pub open spec fn with_image(self, image: Option<OpenBlob>) -> Session {
        if self.max_blob_id == u64::MAX {
            self
        } else {
            match image {
                Some(b) => self.with_blob(BlobSlot::Open(b)),
                None => self.skipping_blob(),
            }
        }
    }

    /// Whether an attempt to open an image gives a handle.
    pub open spec fn image_opens(self, image: Option<OpenBlob>) -> bool {
        self.max_blob_id < u64::MAX && image is Some
    }

    /// Whether a handle is an open Gate entry.
    pub open spec fn is_gate(self, fd: u64) -> bool {
        self.dents.contains_key(fd) && self.dents[fd] is Gate
    }
}

/// The handle tables after listing a gate, in a session `s` whose label is
/// already raised. Listing a direct gate opens its two images, the
/// application image first; the runtime image is not tried where the
/// application image did not open.
pub open spec fn session_after_ls_gate(
    s: Session,
    gate_fd: u64,
    gate: Option<Gate>,
    app_image: Option<OpenBlob>,
    runtime_image: Option<OpenBlob>,
) -> Session {
    if s.is_gate(gate_fd) && gate matches Some(Gate::Direct(_)) {
        if s.image_opens(app_image) {
            s.with_image(app_image).with_image(runtime_image)
        } else {
            s.with_image(app_image)
        }
    } else {
        s
    }
}

/// The label after listing a gate: reading what the store holds of it
/// taints with its label.
pub open spec fn label_after_ls_gate(s: Session, gate_fd: u64, gate: Option<Labeled<Gate>>)
    -> LabelModel {
    match gate {
        Some(g) if s.is_gate(gate_fd) => s.label@.tainted(g.label@),
        _ => s.label@,
    }
}

/// What the store holds, without its label.
pub open spec fn unlabeled<T>(stored: Option<Labeled<T>>) -> Option<T> {
    match stored {
        Some(l) => Some(l.value),
        None => None,
    }
}

/// The guest's view of a listed gate. A direct gate shows its images by
/// their fresh blob handles; a redirect gate shows handle 0 for its inner
/// gate.
pub open spec fn gate_listing(
    s: Session,
    gate_fd: u64,
    gate: Option<Gate>,
    app_image: Option<OpenBlob>,
    runtime_image: Option<OpenBlob>,
) -> Option<crate::interface::Gate> {
    if !s.is_gate(gate_fd) {
        None
    } else {
        match gate {
            Some(Gate::Direct(g)) => if s.image_opens(app_image) && s.with_image(
                app_image,
            ).image_opens(runtime_image) {
                Some(
                    crate::interface::Gate {
                        kind: Some(
                            GateKind::Direct(
                                crate::interface::DirectGate {
                                    privilege: Some(g.privilege),
                                    invoker_integrity_clearance: Some(
                                        g.invoker_integrity_clearance,
                                    ),
                                    function: Some(
                                        crate::interface::Function {
                                            memory: g.function.memory,
                                            app_image: s.max_blob_id,
                                            runtime_image: (s.max_blob_id + 1) as u64,
                                            kernel: 0,
                                        },
                                    ),
                                    declassify: Some(g.declassify),
                                },
                            ),
                        ),
                    },
                )
            } else {
                None
            },
            Some(Gate::Redirect(g)) => Some(
                crate::interface::Gate {
                    kind: Some(
                        GateKind::Redirect(
                            crate::interface::RedirectGate {
                                privilege: Some(g.privilege),
                                invoker_integrity_clearance: Some(g.invoker_integrity_clearance),
                                gate: 0,
                                declassify: Some(g.declassify),
                            },
                        ),
                    ),
                },
            ),
            None => None,
        }
    }
}

impl SyscallProcessor {
    /// Tries to open an image under the next blob handle. The handle is used
    /// up even where the image could not be opened.
    pub(crate) fn open_image(&mut self, image: Option<OpenBlob>) -> (r: Option<u64>)
        requires
            old(self).wf(),
        ensures
            final(self).wf(),
            final(self)@.issues_after(old(self)@),
            final(self)@ == old(self)@.with_image(image),
            r == (if old(self)@.image_opens(image) {
                Some(old(self)@.max_blob_id)
            } else {
                None
            }),
    {
        match image {
            Some(b) => self.open_blob(BlobSlot::Open(b)),
            None => {
                self.skip_blob_handle();
                None
            },
        }
    }

    /// Lists a gate. `gate` is what the store holds under the handle, with
    /// its label, and the two images are the blobs of a direct gate's
    /// function as the blob store opened them. Reading a gate taints the
    /// label with the label of that gate. The call fails where the handle is
    /// not an open Gate, the store holds nothing, or an image did not open.
    pub fn dent_ls_gate(
        &mut self,
        gate_fd: u64,
        gate: Option<Labeled<Gate>>,
        app_image: Option<OpenBlob>,
        runtime_image: Option<OpenBlob>,
    ) -> (r: DentLsGateResult)
        requires
            old(self).wf(),
        ensures
            final(self).wf(),
            final(self)@.issues_after(old(self)@),
            old(self)@.label@.flows_to(final(self)@.label@),
            final(self)@.label@ == label_after_ls_gate(old(self)@, gate_fd, gate),
            r.gate == gate_listing(old(self)@, gate_fd, unlabeled(gate), app_image, runtime_image),
            r.success == r.gate is Some,
            final(self)@ == session_after_ls_gate(
                old(self)@.with_label(final(self)@.label),
                gate_fd,
                unlabeled(gate),
                app_image,
                runtime_image,
            ),
    {
        proof {
            crate::label::lemma_flows_reflexive(self@.label@);
        }
        let gate = match (self.dent(gate_fd), gate) {
            (Some(DirEntry::Gate(_)), Some(stored)) => {
                let Labeled { label, value } = stored;
                self.taint_with_label(label);
                Some(value)
            },
            (_, Some(stored)) => Some(stored.value),
            (_, None) => None,
        };
        let listed = match (self.dent(gate_fd), gate) {
            (Some(DirEntry::Gate(_)), Some(Gate::Direct(g))) => {
                match self.open_image(app_image) {
                    None => None,
                    Some(app_fd) => match self.open_image(runtime_image) {
                        None => None,
                        Some(runtime_fd) => Some(
                            crate::interface::Gate {
                                kind: Some(
                                    GateKind::Direct(
                                        crate::interface::DirectGate {
                                            privilege: Some(g.privilege),
                                            invoker_integrity_clearance: Some(
                                                g.invoker_integrity_clearance,
                                            ),
                                            function: Some(
                                                crate::interface::Function {
                                                    memory: g.function.memory,
                                                    app_image: app_fd,
                                                    runtime_image: runtime_fd,
                                                    kernel: 0,
                                                },
                                            ),
                                            declassify: Some(g.declassify),
                                        },
                                    ),
                                ),
                            },
                        ),
                    },
                }
            },
            (Some(DirEntry::Gate(_)), Some(Gate::Redirect(g))) => Some(
                crate::interface::Gate {
                    kind: Some(
                        GateKind::Redirect(
                            crate::interface::RedirectGate {
                                privilege: Some(g.privilege),
                                invoker_integrity_clearance: Some(g.invoker_integrity_clearance),
                                gate: 0,
                                declassify: Some(g.declassify),
                            },
                        ),
                    ),
                },
            ),
            _ => None,
        };
        DentLsGateResult { success: listed.is_some(), gate: listed }
    }
}

} // verus!
