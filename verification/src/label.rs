//! The label algebra. Components come from the `labeled` crate; contracts
//! speak of them through a mathematical model: a formula in conjunctive
//! normal form over delegation paths.

use labeled::buckle::{Buckle, Component};
use labeled::{HasPrivilege, Label as Lattice};
use vstd::prelude::*;

verus! {

/// `labeled::buckle::Component`: one half of a label. It is opaque here;
/// contracts read it through `formula`.
#[verifier::external_type_specification]
#[verifier::external_body]
pub struct ExComponent(Component);

/// A principal: a delegation path, shorter paths speaking for longer ones.
pub type Principal = Seq<Seq<char>>;

/// A clause: a disjunction of principals.
pub type Clause = Set<Principal>;

/// Whether a component of `labeled` is the formula `false`.
pub uninterp spec fn component_is_false(c: Component) -> bool;

/// The clauses that a component of `labeled` holds when it is not `false`.
pub uninterp spec fn component_clauses(c: Component) -> Set<Set<Seq<Seq<char>>>>;

/// The formula that `Component::reduce` leaves of a formula.
pub uninterp spec fn reduced(f: Formula) -> Formula;

/// The label that `Buckle::parse` reads from a text, if it reads one.
pub uninterp spec fn label_syntax(text: Seq<char>) -> Option<LabelModel>;

/// A formula in conjunctive normal form: `false`, or a conjunction of clauses
/// (the empty conjunction is `true`).
pub struct Formula {
    pub falsehood: bool,
    pub clauses: Set<Clause>,
}

/// The model of a label: its secrecy and its integrity.
pub struct LabelModel {
    pub secrecy: Formula,
    pub integrity: Formula,
}

impl Formula {
    pub open spec fn truth() -> Formula {
        Formula { falsehood: false, clauses: Set::empty() }
    }

    pub open spec fn falsity() -> Formula {
        Formula { falsehood: true, clauses: Set::empty() }
    }

    pub open spec fn is_true(self) -> bool {
        !self.falsehood && self.clauses =~= Set::empty()
    }

    /// Conjunction: the clauses of both.
    pub open spec fn and(self, other: Formula) -> Formula {
        if self.falsehood || other.falsehood {
            Formula::falsity()
        } else {
            Formula { falsehood: false, clauses: self.clauses.union(other.clauses) }
        }
    }

    /// The disjunction that `labeled` computes: each clause of `self` widened
    /// by every principal of `other`.
    pub open spec fn or(self, other: Formula) -> Formula {
        if other.falsehood {
            self
        } else if self.falsehood {
            other
        } else if self.is_true() || other.is_true() {
            Formula::truth()
        } else {
            Formula {
                falsehood: false,
                clauses: Set::new(
                    |c: Clause|
                        exists|s: Clause| #[trigger]
                            self.clauses.contains(s) && c == s.union(principals_of(other.clauses)),
                ),
            }
        }
    }

    /// `self` implies `other`.
    pub open spec fn implies(self, other: Formula) -> bool {
        if self.falsehood {
            true
        } else if other.falsehood {
            false
        } else if other.is_true() {
            true
        } else if self.is_true() {
            false
        } else {
            forall|o: Clause| #[trigger]
                other.clauses.contains(o) ==> covered(self.clauses, o)
        }
    }

    /// The secrecy left when `privilege` lowers `self` as far as it can.
    pub open spec fn lowered_by(self, privilege: Formula) -> Formula {
        if privilege.falsehood {
            Formula::truth()
        } else if self.falsehood {
            Formula::falsity()
        } else {
            Formula {
                falsehood: false,
                clauses: self.clauses.filter(|c: Clause| !covered(privilege.clauses, c)),
            }
        }
    }

    /// `self` keeps some clauses of `full`, and each clause of `full` is
    /// implied by one that is kept.
    pub open spec fn is_reduction_of(self, full: Formula) -> bool {
        &&& self.falsehood == full.falsehood
        &&& self.clauses.subset_of(full.clauses)
        &&& forall|c: Clause| #[trigger] full.clauses.contains(c) ==> covered(self.clauses, c)
    }
}

/// All principals that occur in some clause.
pub open spec fn principals_of(clauses: Set<Clause>) -> Clause {
    Set::new(|p: Principal| exists|c: Clause| #[trigger] clauses.contains(c) && c.contains(p))
}

/// Clause `a` implies clause `b`: each principal of `a` speaks for one of `b`.
pub open spec fn clause_implies(a: Clause, b: Clause) -> bool {
    if a =~= Set::empty() {
        true
    } else if b =~= Set::empty() {
        false
    } else {
        forall|p: Principal| #[trigger]
            a.contains(p) ==> speaks_within(p, b)
    }
}

/// Some principal of `b` is `p` or a delegate of `p`.
pub open spec fn speaks_within(p: Principal, b: Clause) -> bool {
    exists|q: Principal| #[trigger] b.contains(q) && p.is_prefix_of(q)
}

/// Some clause among `clauses` implies `c`.
pub open spec fn covered(clauses: Set<Clause>, c: Clause) -> bool {
    exists|s: Clause| #[trigger] clauses.contains(s) && clause_implies(s, c)
}

/// The formula that a component stands for.
pub open spec fn formula(c: Component) -> Formula {
    if component_is_false(c) {
        Formula::falsity()
    } else {
        Formula { falsehood: false, clauses: component_clauses(c) }
    }
}

/// A label: how secret data is, and how far it is vouched for.
#[derive(PartialEq, Eq, Debug)]
pub struct Label {
    pub secrecy: Component,
    pub integrity: Component,
}

impl View for Label {
    type V = LabelModel;

    open spec fn view(&self) -> LabelModel {
        LabelModel { secrecy: formula(self.secrecy), integrity: formula(self.integrity) }
    }
}

impl LabelModel {
    /// The label of public data: nothing to keep secret, nobody vouching.
    pub open spec fn public() -> LabelModel {
        LabelModel { secrecy: Formula::truth(), integrity: Formula::truth() }
    }

    /// Data labeled `self` may flow to a place labeled `to`.
    pub open spec fn flows_to(self, to: LabelModel) -> bool {
        to.secrecy.implies(self.secrecy) && self.integrity.implies(to.integrity)
    }

    /// The join as `labeled` computes it, before reduction.
    pub open spec fn join(self, other: LabelModel) -> LabelModel {
        LabelModel {
            secrecy: self.secrecy.and(other.secrecy),
            integrity: self.integrity.or(other.integrity),
        }
    }

    /// `self` is a reduced form of `full`.
    pub open spec fn is_reduction_of(self, full: LabelModel) -> bool {
        self.secrecy.is_reduction_of(full.secrecy) && self.integrity.is_reduction_of(
            full.integrity,
        )
    }

    /// The label that tainting `self` with `other` gives.
    pub open spec fn tainted(self, other: LabelModel) -> LabelModel {
        LabelModel {
            secrecy: reduced(self.join(other).secrecy),
            integrity: reduced(self.join(other).integrity),
        }
    }
}

/// `Component::implies`: whether one formula implies another, clause by
/// clause and principal by principal, as the model's `implies` says.
pub assume_specification[ Component::implies ](a: &Component, b: &Component) -> (r: bool)
    ensures
        r == formula(*a).implies(formula(*b)),
;

/// `Component::dc_true`: the empty conjunction.
pub assume_specification[ Component::dc_true ]() -> (r: Component)
    ensures
        !component_is_false(r),
        component_clauses(r) == Set::<Clause>::empty(),
;

/// `Clone::clone` of a component: the copy is the same component.
pub assume_specification[ <Component as Clone>::clone ](c: &Component) -> (r: Component)
    ensures
        r == *c,
;

/// The `&` of two components (`BitAnd::bitand`): `false` if either is, else
/// the union of their clauses.
#[verifier::external_body]
pub(crate) fn component_and(a: Component, b: Component) -> (r: Component)
    ensures
        formula(r) == formula(a).and(formula(b)),
{
    a & b
}

/// `Label::lub` of two Buckle labels: the `&` of the secrecies and the `|`
/// of the integrities, each then reduced by `Component::reduce`. That
/// compares every two clauses once and drops the later one where the
/// earlier implies it, else the earlier one where the later implies it; so
/// what it keeps is a subset of the clauses, and what it drops is implied
/// by a clause that it keeps.
#[verifier::external_body]
pub(crate) fn label_lub(a: Label, b: Label) -> (r: Label)
    ensures
        r@.secrecy == reduced(a@.join(b@).secrecy),
        r@.integrity == reduced(a@.join(b@).integrity),
        r@.is_reduction_of(a@.join(b@)),
{
    let l = Buckle { secrecy: a.secrecy, integrity: a.integrity };
    let m = l.lub(Buckle { secrecy: b.secrecy, integrity: b.integrity });
    Label { secrecy: m.secrecy, integrity: m.integrity }
}

/// `HasPrivilege::downgrade` of a Buckle label: the secrecy loses each
/// clause that a clause of the privilege implies (everything under the
/// privilege `false`), and the integrity gains the privilege.
#[verifier::external_body]
pub(crate) fn label_downgrade(a: Label, privilege: &Component) -> (r: Label)
    ensures
        r@.secrecy == a@.secrecy.lowered_by(formula(*privilege)),
        r@.integrity == formula(*privilege).and(a@.integrity),
{
    let l = Buckle { secrecy: a.secrecy, integrity: a.integrity };
    let m = l.downgrade(privilege);
    Label { secrecy: m.secrecy, integrity: m.integrity }
}

/// `Buckle::parse`: the label that a text spells, if it spells one.
#[verifier::external_body]
pub(crate) fn label_parse(text: &str) -> (r: Option<Label>)
    ensures
        label_syntax(text@) == match r {
            Some(l) => Some(l@),
            None => None,
        },
{
    match Buckle::parse(text) {
        Ok(b) => Some(Label { secrecy: b.secrecy, integrity: b.integrity }),
        Err(_) => None,
    }
}

impl Clone for Label {
    fn clone(&self) -> (r: Label)
        ensures
            r == *self,
    {
        Label { secrecy: self.secrecy.clone(), integrity: self.integrity.clone() }
    }
}

impl Label {
    /// The label of public data.
    pub fn public() -> (r: Label)
        ensures
            r@ == LabelModel::public(),
    {
        Label { secrecy: Component::dc_true(), integrity: Component::dc_true() }
    }

    /// Whether data under this label may flow to a place labeled `to`.
    pub fn can_flow_to(&self, to: &Label) -> (r: bool)
        ensures
            r == self@.flows_to(to@),
    {
        to.secrecy.implies(&self.secrecy) && self.integrity.implies(&to.integrity)
    }

    /// The join of two labels as `labeled` computes it, which both flow to.
    pub fn lub(self, other: Label) -> (r: Label)
        ensures
            r@ == self@.tainted(other@),
            r@.is_reduction_of(self@.join(other@)),
            self@.flows_to(r@),
            other@.flows_to(r@),
    {
        let r = label_lub(self, other);
        proof {
            lemma_join_is_upper_bound(self@, other@, r@);
        }
        r
    }
}

/// Reads a label from its text form; `None` where the text spells none.
pub fn buckle_parse(text: &str) -> (r: Option<Label>)
    ensures
        label_syntax(text@) == match r {
            Some(l) => Some(l@),
            None => None,
        },
{
    label_parse(text)
}

/// Every clause implies itself.
pub proof fn lemma_clause_implies_reflexive(a: Clause)
    ensures
        clause_implies(a, a),
{
    if !(a =~= Set::empty()) {
        assert forall|p: Principal| #[trigger] a.contains(p) implies speaks_within(p, a) by {
            assert(a.contains(p) && p.is_prefix_of(p));
        }
    }
}

/// Implication between clauses is transitive.
pub proof fn lemma_clause_implies_transitive(a: Clause, b: Clause, c: Clause)
    requires
        clause_implies(a, b),
        clause_implies(b, c),
    ensures
        clause_implies(a, c),
{
    if a =~= Set::empty() {
    } else if b =~= Set::empty() {
    } else if c =~= Set::empty() {
    } else {
        assert forall|p: Principal| #[trigger] a.contains(p) implies speaks_within(p, c) by {
            assert(speaks_within(p, b));
            let q = choose|q: Principal| #[trigger] b.contains(q) && p.is_prefix_of(q);
            assert(speaks_within(q, c));
            let r = choose|r: Principal| #[trigger] c.contains(r) && q.is_prefix_of(r);
            assert(p.is_prefix_of(r)) by {
                assert(p =~= q.subrange(0, p.len() as int));
                assert(q =~= r.subrange(0, q.len() as int));
                assert(p =~= r.subrange(0, p.len() as int));
            }
            assert(c.contains(r) && p.is_prefix_of(r));
        }
    }
}

/// Every formula implies itself.
pub proof fn lemma_implies_reflexive(f: Formula)
    ensures
        f.implies(f),
{
    assert forall|o: Clause| #[trigger] f.clauses.contains(o) implies covered(f.clauses, o) by {
        lemma_clause_implies_reflexive(o);
        assert(f.clauses.contains(o) && clause_implies(o, o));
    }
}

/// Implication between formulas is transitive.
pub proof fn lemma_implies_transitive(f: Formula, g: Formula, h: Formula)
    requires
        f.implies(g),
        g.implies(h),
    ensures
        f.implies(h),
{
    if f.falsehood || h.falsehood || g.falsehood || h.is_true() || f.is_true() || g.is_true() {
    } else {
        assert forall|o: Clause| #[trigger] h.clauses.contains(o) implies covered(f.clauses, o) by {
            assert(covered(g.clauses, o));
            let m = choose|m: Clause| #[trigger] g.clauses.contains(m) && clause_implies(m, o);
            assert(covered(f.clauses, m));
            let s = choose|s: Clause| #[trigger] f.clauses.contains(s) && clause_implies(s, m);
            lemma_clause_implies_transitive(s, m, o);
            assert(f.clauses.contains(s) && clause_implies(s, o));
        }
    }
}

/// A conjunction implies each of its two parts.
pub proof fn lemma_and_implies_parts(f: Formula, g: Formula)
    ensures
        f.and(g).implies(f),
        f.and(g).implies(g),
{
    let c = f.and(g);
    if !c.falsehood {
        assert forall|o: Clause| #[trigger] f.clauses.contains(o) implies covered(c.clauses, o) by {
            lemma_clause_implies_reflexive(o);
            assert(c.clauses.contains(o) && clause_implies(o, o));
        }
        assert forall|o: Clause| #[trigger] g.clauses.contains(o) implies covered(c.clauses, o) by {
            lemma_clause_implies_reflexive(o);
            assert(c.clauses.contains(o) && clause_implies(o, o));
        }
        if c.is_true() {
            assert(f.clauses =~= Set::empty());
            assert(g.clauses =~= Set::empty());
        }
    }
}

/// Each part of a disjunction implies the disjunction.
pub proof fn lemma_parts_imply_or(f: Formula, g: Formula)
    ensures
        f.implies(f.or(g)),
        g.implies(f.or(g)),
{
    let d = f.or(g);
    lemma_implies_reflexive(f);
    lemma_implies_reflexive(g);
    if g.falsehood || f.falsehood || f.is_true() || g.is_true() {
    } else {
        let all = principals_of(g.clauses);
        assert forall|o: Clause| #[trigger] d.clauses.contains(o) implies covered(f.clauses, o)
            && covered(g.clauses, o) by {
            let s = choose|s: Clause| #[trigger] f.clauses.contains(s) && o == s.union(all);
            // a clause of `f` implies its widening
            if !(s =~= Set::empty()) {
                assert forall|p: Principal| #[trigger] s.contains(p) implies speaks_within(
                    p,
                    o,
                ) by {
                    assert(o.contains(p) && p.is_prefix_of(p));
                }
                assert(!(o =~= Set::empty())) by {
                    let p = choose|p: Principal| s.contains(p);
                    assert(s.contains(p));
                    assert(o.contains(p));
                }
            }
            assert(f.clauses.contains(s) && clause_implies(s, o));
            // every clause of `g` lies within the widening
            let t = choose|t: Clause| g.clauses.contains(t);
            assert(g.clauses.contains(t));
            if !(t =~= Set::empty()) {
                assert forall|p: Principal| #[trigger] t.contains(p) implies speaks_within(
                    p,
                    o,
                ) by {
                    assert(g.clauses.contains(t) && t.contains(p));
                    assert(all.contains(p));
                    assert(o.contains(p) && p.is_prefix_of(p));
                }
                assert(!(o =~= Set::empty())) by {
                    let p = choose|p: Principal| t.contains(p);
                    assert(t.contains(p));
                    assert(g.clauses.contains(t) && t.contains(p));
                    assert(all.contains(p));
                    assert(o.contains(p));
                }
            }
            assert(g.clauses.contains(t) && clause_implies(t, o));
        }
    }
}

/// A formula and its reduced form imply each other.
pub proof fn lemma_reduction_is_equivalent(r: Formula, full: Formula)
    requires
        r.is_reduction_of(full),
    ensures
        r.implies(full),
        full.implies(r),
{
    if !full.falsehood {
        if full.is_true() {
            assert(r.clauses =~= Set::empty());
        } else if r.is_true() {
            let c = choose|c: Clause| full.clauses.contains(c);
            assert(full.clauses.contains(c));
            assert(covered(r.clauses, c));
        } else {
            assert forall|o: Clause| #[trigger] r.clauses.contains(o) implies covered(
                full.clauses,
                o,
            ) by {
                lemma_clause_implies_reflexive(o);
                assert(full.clauses.contains(o) && clause_implies(o, o));
            }
        }
    }
}

/// Both labels flow to a reduced form of their join.
pub proof fn lemma_join_is_upper_bound(a: LabelModel, b: LabelModel, r: LabelModel)
    requires
        r.is_reduction_of(a.join(b)),
    ensures
        a.flows_to(r),
        b.flows_to(r),
{
    let j = a.join(b);
    lemma_reduction_is_equivalent(r.secrecy, j.secrecy);
    lemma_reduction_is_equivalent(r.integrity, j.integrity);
    lemma_and_implies_parts(a.secrecy, b.secrecy);
    lemma_parts_imply_or(a.integrity, b.integrity);
    lemma_implies_transitive(r.secrecy, j.secrecy, a.secrecy);
    lemma_implies_transitive(r.secrecy, j.secrecy, b.secrecy);
    lemma_implies_transitive(a.integrity, j.integrity, r.integrity);
    lemma_implies_transitive(b.integrity, j.integrity, r.integrity);
}

/// Public joined with public is public: reduction leaves nothing to drop.
pub proof fn lemma_public_join_public(r: LabelModel)
    requires
        r.is_reduction_of(LabelModel::public().join(LabelModel::public())),
    ensures
        r == LabelModel::public(),
{
    let j = LabelModel::public().join(LabelModel::public());
    assert(j.secrecy.clauses =~= Set::empty());
    assert(r.secrecy.clauses =~= Set::empty());
    assert(r.integrity.clauses =~= Set::empty());
}

/// Every label flows to itself.
pub proof fn lemma_flows_reflexive(a: LabelModel)
    ensures
        a.flows_to(a),
{
    lemma_implies_reflexive(a.secrecy);
    lemma_implies_reflexive(a.integrity);
}

/// Flows compose: if `a` flows to `b` and `b` to `c`, then `a` flows to `c`.
pub proof fn lemma_flows_transitive(a: LabelModel, b: LabelModel, c: LabelModel)
    requires
        a.flows_to(b),
        b.flows_to(c),
    ensures
        a.flows_to(c),
{
    lemma_implies_transitive(c.secrecy, b.secrecy, a.secrecy);
    lemma_implies_transitive(a.integrity, b.integrity, c.integrity);
}

} // verus!
