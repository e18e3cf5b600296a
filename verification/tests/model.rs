//! The label algebra of `labeled` against the formulas that the library's
//! contracts speak of, on many generated components.

use labeled::buckle::{Clause, Component};
use std::collections::BTreeSet;
use wasm_runtime::label::Label;
use wasm_runtime::monitor::Monitor;

type Principal = Vec<String>;
type ClauseModel = BTreeSet<Principal>;

#[derive(Clone, PartialEq, Eq, Debug)]
struct Formula {
    falsehood: bool,
    clauses: BTreeSet<ClauseModel>,
}

fn formula(c: &Component) -> Formula {
    match c {
        Component::DCFalse => Formula { falsehood: true, clauses: BTreeSet::new() },
        Component::DCFormula(clauses) => Formula {
            falsehood: false,
            clauses: clauses.iter().map(|c| c.0.clone()).collect(),
        },
    }
}

fn truth() -> Formula {
    Formula { falsehood: false, clauses: BTreeSet::new() }
}

fn falsity() -> Formula {
    Formula { falsehood: true, clauses: BTreeSet::new() }
}

fn is_true(f: &Formula) -> bool {
    !f.falsehood && f.clauses.is_empty()
}

fn speaks_within(p: &Principal, b: &ClauseModel) -> bool {
    b.iter().any(|q| q.starts_with(p))
}

fn clause_implies(a: &ClauseModel, b: &ClauseModel) -> bool {
    if a.is_empty() {
        true
    } else if b.is_empty() {
        false
    } else {
        a.iter().all(|p| speaks_within(p, b))
    }
}

fn covered(clauses: &BTreeSet<ClauseModel>, c: &ClauseModel) -> bool {
    clauses.iter().any(|s| clause_implies(s, c))
}

fn implies(s: &Formula, o: &Formula) -> bool {
    if s.falsehood {
        true
    } else if o.falsehood {
        false
    } else if is_true(o) {
        true
    } else if is_true(s) {
        false
    } else {
        o.clauses.iter().all(|c| covered(&s.clauses, c))
    }
}

fn and(a: &Formula, b: &Formula) -> Formula {
    if a.falsehood || b.falsehood {
        falsity()
    } else {
        Formula { falsehood: false, clauses: a.clauses.union(&b.clauses).cloned().collect() }
    }
}

fn or(a: &Formula, b: &Formula) -> Formula {
    if b.falsehood {
        a.clone()
    } else if a.falsehood {
        b.clone()
    } else if is_true(a) || is_true(b) {
        truth()
    } else {
        let all: ClauseModel = b.clauses.iter().flatten().cloned().collect();
        Formula {
            falsehood: false,
            clauses: a.clauses.iter().map(|s| s.union(&all).cloned().collect()).collect(),
        }
    }
}

fn lowered_by(s: &Formula, privilege: &Formula) -> Formula {
    if privilege.falsehood {
        truth()
    } else if s.falsehood {
        falsity()
    } else {
        Formula {
            falsehood: false,
            clauses: s.clauses.iter().filter(|c| !covered(&privilege.clauses, c)).cloned().collect(),
        }
    }
}

fn is_reduction_of(r: &Formula, full: &Formula) -> bool {
    r.falsehood == full.falsehood
        && r.clauses.is_subset(&full.clauses)
        && full.clauses.iter().all(|c| covered(&r.clauses, c))
}

struct Gen(u64);

impl Gen {
    fn next(&mut self, bound: u64) -> u64 {
        self.0 = self.0.wrapping_mul(6364136223846793005).wrapping_add(1442695040888963407);
        (self.0 >> 33) % bound
    }

    fn principal(&mut self) -> Principal {
        let names = ["a", "b", "c"];
        let len = 1 + self.next(2);
        (0..len).map(|_| names[self.next(3) as usize].to_string()).collect()
    }

    fn clause(&mut self) -> Clause {
        let len = self.next(4);
        Clause((0..len).map(|_| self.principal()).collect())
    }

    fn component(&mut self) -> Component {
        if self.next(8) == 0 {
            Component::DCFalse
        } else {
            let len = self.next(4);
            Component::DCFormula((0..len).map(|_| self.clause()).collect())
        }
    }

    fn label(&mut self) -> Label {
        Label { secrecy: self.component(), integrity: self.component() }
    }
}

const ROUNDS: usize = 20000;

#[test]
fn implies_is_the_model_implication() {
    let mut g = Gen(1);
    let mut seen = [0usize; 2];
    for _ in 0..ROUNDS {
        let (a, b) = (g.component(), g.component());
        let expected = implies(&formula(&a), &formula(&b));
        assert_eq!(a.implies(&b), expected, "{:?} implies {:?}", a, b);
        seen[expected as usize] += 1;
    }
    assert!(seen[0] > 100 && seen[1] > 100);
}

#[test]
fn flows_are_two_implications() {
    let mut g = Gen(2);
    for _ in 0..ROUNDS {
        let (a, b) = (g.label(), g.label());
        let expected = implies(&formula(&b.secrecy), &formula(&a.secrecy))
            && implies(&formula(&a.integrity), &formula(&b.integrity));
        assert_eq!(a.can_flow_to(&b), expected);
    }
}

#[test]
fn the_join_is_a_reduction_of_and_and_or() {
    let mut g = Gen(3);
    let mut reduced = 0;
    for _ in 0..ROUNDS {
        let (a, b) = (g.label(), g.label());
        let secrecy = and(&formula(&a.secrecy), &formula(&b.secrecy));
        let integrity = or(&formula(&a.integrity), &formula(&b.integrity));
        let join = a.clone().lub(b.clone());
        assert!(is_reduction_of(&formula(&join.secrecy), &secrecy), "{:?} {:?}", a, b);
        assert!(is_reduction_of(&formula(&join.integrity), &integrity), "{:?} {:?}", a, b);
        assert!(a.can_flow_to(&join));
        assert!(b.can_flow_to(&join));
        if formula(&join.secrecy) != secrecy {
            reduced += 1;
        }
    }
    assert!(reduced > 100);
}

#[test]
fn the_join_depends_on_the_formulas_alone() {
    let mut g = Gen(4);
    for _ in 0..ROUNDS / 10 {
        let (a, b) = (g.label(), g.label());
        assert_eq!(a.clone().lub(b.clone()), a.clone().lub(b.clone()));
    }
}

#[test]
fn declassify_follows_the_model() {
    let mut g = Gen(5);
    let mut seen = [0usize; 2];
    for _ in 0..ROUNDS {
        let (start, privilege, target) = (g.label(), g.component(), g.component());
        let mut m = Monitor::new(start, privilege.clone());
        let before = m.get_current_label();
        let allowed = implies(
            &and(&formula(&target), &formula(&privilege)),
            &formula(&before.secrecy),
        );
        let after = m.declassify(target.clone());
        assert_eq!(after.integrity, before.integrity);
        if allowed {
            assert_eq!(after.secrecy, target);
        } else {
            assert_eq!(after, before);
        }
        assert_eq!(after.secrecy == target, allowed);
        seen[allowed as usize] += 1;
    }
    assert!(seen[0] > 100 && seen[1] > 100);
}

#[test]
fn declassify_with_follows_the_model() {
    let mut g = Gen(6);
    let mut lowered = 0;
    for _ in 0..ROUNDS {
        let (start, privilege) = (g.label(), g.component());
        let mut m = Monitor::new(start, Component::dc_true());
        let before = m.get_current_label();
        m.declassify_with(&privilege);
        let after = m.get_current_label();
        assert_eq!(formula(&after.secrecy), lowered_by(&formula(&before.secrecy), &formula(&privilege)));
        assert_eq!(after.integrity, before.integrity);
        if after != before {
            lowered += 1;
        }
    }
    assert!(lowered > 100);
}

#[test]
fn taints_only_raise() {
    let mut g = Gen(7);
    for _ in 0..ROUNDS / 100 {
        let mut m = Monitor::new(g.label(), g.component());
        let start = m.get_current_label();
        for _ in 0..8 {
            let before = m.get_current_label();
            let with = g.label();
            let after = m.taint_with_label(with.clone());
            assert!(before.can_flow_to(&after));
            assert!(with.can_flow_to(&after));
            assert!(start.can_flow_to(&after));
        }
    }
}

#[test]
fn the_write_and_invoke_checks_follow_the_model() {
    let mut g = Gen(8);
    for _ in 0..ROUNDS {
        let (privilege, clearance, object) = (g.component(), g.component(), g.label());
        let m = Monitor::new(g.label(), privilege.clone());
        let l = m.get_current_label();
        assert_eq!(m.may_invoke(&clearance), implies(&formula(&privilege), &formula(&clearance)));
        assert_eq!(m.can_write(&object), l.can_flow_to(&object));
    }
}
