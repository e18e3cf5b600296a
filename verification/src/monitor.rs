//! The label monitor: the current label and privilege of a session, and the
//! primitives that raise, check and lower the label.

use crate::label::{
    component_and, formula, label_downgrade, lemma_and_implies_parts, lemma_flows_reflexive,
    lemma_public_join_public, Formula, Label, LabelModel,
};
use labeled::buckle::Component;
use vstd::prelude::*;

verus! {

/// What a session may see and say: its current label and its privilege.
pub struct Monitor {
    label: Label,
    privilege: Component,
}

/// Whether a privilege allows lowering a secrecy to `target`.
pub open spec fn may_declassify(target: Formula, privilege: Formula, secrecy: Formula) -> bool {
    target.and(privilege).implies(secrecy)
}

impl Monitor {
    /// The current label.
    pub closed spec fn current(&self) -> Label {
        self.label
    }

    /// The privilege of the session.
    pub closed spec fn authority(&self) -> Component {
        self.privilege
    }

    /// A monitor whose label is the public label raised by `label`; started
    /// with a public label, it is public.
    pub fn new(label: Label, privilege: Component) -> (r: Monitor)
        ensures
            r.current()@ == LabelModel::public().tainted(label@),
            r.current()@.is_reduction_of(LabelModel::public().join(label@)),
            label@ == LabelModel::public() ==> r.current()@ == LabelModel::public(),
            label@.flows_to(r.current()@),
            r.authority() == privilege,
    {
        let start = Label::public().lub(label);
        proof {
            if label@ == LabelModel::public() {
                lemma_public_join_public(start@);
            }
        }
        Monitor { label: start, privilege }
    }

    /// The current label; the label does not change.
    pub fn get_current_label(&self) -> (r: Label)
        ensures
            r == self.current(),
    {
        self.label.clone()
    }

    /// The privilege of the session.
    pub fn get_privilege(&self) -> (r: Component)
        ensures
            r == self.authority(),
    {
        self.privilege.clone()
    }

    /// Raises the current label to its join with `label`, and returns the
    /// new label. The label never moves down: the label before flows to the
    /// label after, and so does `label`.
    pub fn taint_with_label(&mut self, label: Label) -> (r: Label)
        ensures
            r == final(self).current(),
            final(self).current()@ == old(self).current()@.tainted(label@),
            final(self).current()@.is_reduction_of(old(self).current()@.join(label@)),
            old(self).current()@.flows_to(final(self).current()@),
            label@.flows_to(final(self).current()@),
            final(self).authority() == old(self).authority(),
    {
        let raised = self.label.clone().lub(label);
        self.label = raised;
        self.label.clone()
    }

    /// Lowers the secrecy to `target` where the privilege allows it: where
    /// `target` and the privilege together imply the current secrecy. The
    /// integrity stays. Where it does not allow it, nothing changes. Either
    /// way the label that now holds is returned.
    pub fn declassify(&mut self, target: Component) -> (r: Label)
        ensures
            r == final(self).current(),
            final(self).authority() == old(self).authority(),
            final(self).current().integrity == old(self).current().integrity,
            may_declassify(
                formula(target),
                formula(old(self).authority()),
                old(self).current()@.secrecy,
            ) ==> final(self).current().secrecy == target,
            !may_declassify(
                formula(target),
                formula(old(self).authority()),
                old(self).current()@.secrecy,
            ) ==> final(self).current() == old(self).current(),
            final(self).current()@.secrecy == formula(target) <==> may_declassify(
                formula(target),
                formula(old(self).authority()),
                old(self).current()@.secrecy,
            ),
    {
        proof {
            lemma_and_implies_parts(formula(target), formula(self.privilege));
        }
        let both = component_and(target.clone(), self.privilege.clone());
        if both.implies(&self.label.secrecy) {
            self.label.secrecy = target;
        }
        self.label.clone()
    }

    /// Lowers the secrecy as far as `privilege` allows: drops each clause of
    /// it that some clause of `privilege` implies. The integrity stays.
    pub fn declassify_with(&mut self, privilege: &Component)
        ensures
            final(self).current()@.secrecy == old(self).current()@.secrecy.lowered_by(
                formula(*privilege),
            ),
            final(self).current().integrity == old(self).current().integrity,
            final(self).authority() == old(self).authority(),
    {
        let lowered = label_downgrade(self.label.clone(), privilege);
        self.label.secrecy = lowered.secrecy;
    }

    /// The write check: whether the current label flows to an object's.
    pub fn can_write(&self, object: &Label) -> (r: bool)
        ensures
            r == self.current()@.flows_to(object@),
    {
        self.label.can_flow_to(object)
    }

    /// The invoker check: whether the privilege implies a clearance.
    pub fn may_invoke(&self, clearance: &Component) -> (r: bool)
        ensures
            r == formula(self.authority()).implies(formula(*clearance)),
    {
        self.privilege.implies(clearance)
    }
}

/// Without a declassification the label only rises: the label after a run
/// of taints is one that the label before flows to.
pub proof fn lemma_taints_only_raise(start: LabelModel, labels: Seq<LabelModel>)
    requires
        labels.len() > 0,
        labels[0] == start,
        forall|i: int| 0 <= i < labels.len() - 1 ==> (#[trigger] labels[i]).flows_to(labels[i + 1]),
    ensures
        start.flows_to(labels.last()),
    decreases labels.len(),
{
    if labels.len() == 1 {
        lemma_flows_reflexive(start);
    } else {
        let shorter = labels.drop_last();
        assert forall|i: int| 0 <= i < shorter.len() - 1 implies (#[trigger] shorter[i]).flows_to(
            shorter[i + 1],
        ) by {
            assert(shorter[i] == labels[i]);
            assert(shorter[i + 1] == labels[i + 1]);
        }
        lemma_taints_only_raise(start, shorter);
        let n = labels.len() - 2;
        assert(labels[n].flows_to(labels[n + 1]));
        crate::label::lemma_flows_transitive(start, shorter.last(), labels.last());
    }
}

} // verus!
