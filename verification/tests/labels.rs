//! The label algebra and the monitor on chosen labels.

use labeled::buckle::{Buckle, Component};
use wasm_runtime::label::{buckle_parse, Label};
use wasm_runtime::monitor::Monitor;

fn label(text: &str) -> Label {
    buckle_parse(text).unwrap()
}

fn printed(l: &Label) -> String {
    Buckle { secrecy: l.secrecy.clone(), integrity: l.integrity.clone() }.to_string()
}

#[test]
fn parse_reads_the_label_syntax() {
    assert_eq!(buckle_parse("T,T"), Some(Label::public()));
    assert_eq!(
        buckle_parse("F,T"),
        Some(Label { secrecy: Component::dc_false(), integrity: Component::dc_true() })
    );
    assert_eq!(
        buckle_parse("Dwaha,Dwaha"),
        Some(Label {
            secrecy: Component::formula([["Dwaha"]]),
            integrity: Component::formula([["Dwaha"]]),
        })
    );
    assert_eq!(
        buckle_parse("Amit&Yue,Amit|Yue"),
        Some(Label {
            secrecy: Component::formula([["Amit"], ["Yue"]]),
            integrity: Component::formula([["Amit", "Yue"]]),
        })
    );
}

#[test]
fn parse_rejects_what_is_no_label() {
    assert_eq!(buckle_parse(""), None);
    assert_eq!(buckle_parse("Dwaha"), None);
    assert_eq!(buckle_parse(",T"), None);
    assert_eq!(buckle_parse("no label"), None);
}

#[test]
fn parse_inverts_print_on_plain_names() {
    for text in ["T,T", "F,T", "T,F", "Dwaha,Dwaha", "Amit&Yue,T", "Amit|Yue,Bob", "princeton.edu/test,Amit"] {
        let l = label(text);
        assert_eq!(printed(&l), text);
        assert_eq!(buckle_parse(&printed(&l)), Some(l));
    }
}

#[test]
fn print_does_not_escape_names() {
    let odd = Label { secrecy: Component::formula([["a,b"]]), integrity: Component::dc_true() };
    assert_eq!(printed(&odd), "a,b,T");
    assert_ne!(buckle_parse(&printed(&odd)), Some(odd));
}

#[test]
fn public_is_true_and_true() {
    let p = Label::public();
    assert_eq!(p.secrecy, Component::dc_true());
    assert_eq!(p.integrity, Component::dc_true());
}

#[test]
fn flows_follow_secrecy_up_and_integrity_down() {
    let public = Label::public();
    assert!(public.can_flow_to(&public));
    assert!(public.can_flow_to(&label("Amit,T")));
    assert!(!label("Amit,T").can_flow_to(&public));
    assert!(label("T,Amit").can_flow_to(&public));
    assert!(!public.can_flow_to(&label("T,Amit")));
    assert!(label("Amit,T").can_flow_to(&label("Amit&Yue,T")));
    assert!(!label("Amit&Yue,T").can_flow_to(&label("Amit,T")));
    assert!(label("Amit|Yue,T").can_flow_to(&label("Amit,T")));
    // a principal speaks for its delegates
    assert!(label("Amit/test,T").can_flow_to(&label("Amit,T")));
    assert!(!label("Amit,T").can_flow_to(&label("Amit/test,T")));
    // everything flows to the top, and the bottom flows to everything
    assert!(label("Amit,Yue").can_flow_to(&label("F,T")));
    assert!(label("T,F").can_flow_to(&label("Amit,Yue")));
}

#[test]
fn lub_joins_secrecy_and_weakens_integrity() {
    assert_eq!(label("Amit,T").lub(label("Yue,T")), label("Amit&Yue,T"));
    assert_eq!(label("T,Amit").lub(label("T,Yue")), label("T,Amit|Yue"));
    assert_eq!(Label::public().lub(label("F,T")), label("F,T"));
    assert_eq!(label("T,F").lub(Label::public()), Label::public());
    // reduction drops the clause that another one implies
    assert_eq!(label("Amit|Yue,T").lub(label("Yue,T")), label("Yue,T"));
}

#[test]
fn lub_is_an_upper_bound() {
    let labels = ["T,T", "Amit,T", "T,Amit", "Amit&Yue,Bob", "Amit|Yue,Bob&Amit", "F,T", "T,F", "Amit/test,Yue"];
    for a in labels {
        for b in labels {
            let join = label(a).lub(label(b));
            assert!(label(a).can_flow_to(&join));
            assert!(label(b).can_flow_to(&join));
        }
    }
}

#[test]
fn flows_compose() {
    let labels = ["T,T", "Amit,T", "T,Amit", "Amit&Yue,T", "Amit|Yue,Bob", "F,T", "T,F"];
    for a in labels {
        assert!(label(a).can_flow_to(&label(a)));
        for b in labels {
            for c in labels {
                if label(a).can_flow_to(&label(b)) && label(b).can_flow_to(&label(c)) {
                    assert!(label(a).can_flow_to(&label(c)));
                }
            }
        }
    }
}

#[test]
fn clone_keeps_the_label() {
    let l = label("Amit&Yue,Bob");
    assert_eq!(l.clone(), l);
}

#[test]
fn a_new_monitor_starts_at_the_given_label() {
    let m = Monitor::new(Label::public(), Component::formula([["Amit"]]));
    assert_eq!(m.get_current_label(), Label::public());
    assert_eq!(m.get_privilege(), Component::formula([["Amit"]]));
    let m = Monitor::new(label("Amit,T"), Component::dc_true());
    assert_eq!(m.get_current_label(), label("Amit,T"));
}

#[test]
fn taint_raises_to_the_join() {
    let mut m = Monitor::new(Label::public(), Component::dc_true());
    assert_eq!(m.taint_with_label(label("Amit,T")), label("Amit,T"));
    assert_eq!(m.taint_with_label(label("Yue,Bob")), label("Amit&Yue,T"));
    assert_eq!(m.taint_with_label(Label::public()), label("Amit&Yue,T"));
    assert_eq!(m.get_current_label(), label("Amit&Yue,T"));
    assert_eq!(m.get_privilege(), Component::dc_true());
}

#[test]
fn declassify_succeeds_exactly_when_target_and_privilege_imply_the_secrecy() {
    let cases = [
        // privilege, secrecy, target, allowed
        ("F", "Amit", "T", true),
        ("T", "Amit", "T", false),
        ("Amit", "Amit", "T", true),
        ("Amit", "Amit&Yue", "T", false),
        ("Amit", "Amit&Yue", "Yue", true),
        ("Yue", "Amit&Yue", "Yue", false),
        ("T", "Amit&Yue", "Amit&Yue", true),
        ("T", "Amit", "Amit&Yue", true),
        ("T", "T", "T", true),
        ("T", "F", "T", false),
        ("T", "F", "F", true),
    ];
    for (privilege, secrecy, target, allowed) in cases {
        let privilege = label(&format!("{},T", privilege)).secrecy;
        let target = label(&format!("{},T", target)).secrecy;
        let mut m = Monitor::new(label(&format!("{},Bob", secrecy)), privilege.clone());
        // starting from public, the session vouches for nothing
        let start = m.get_current_label();
        assert_eq!(start, label(&format!("{},T", secrecy)));
        let after = m.declassify(target.clone());
        assert_eq!(after, m.get_current_label());
        assert_eq!(after.integrity, start.integrity);
        assert_eq!(m.get_privilege(), privilege);
        if allowed {
            assert_eq!(after.secrecy, target);
        } else {
            assert_eq!(after, start);
            assert_ne!(after.secrecy, target);
        }
    }
}

#[test]
fn declassify_with_drops_what_the_privilege_covers() {
    let mut m = Monitor::new(label("Amit&Yue,T"), Component::dc_true());
    m.declassify_with(&Component::formula([["Amit"]]));
    assert_eq!(m.get_current_label(), label("Yue,T"));
    m.declassify_with(&Component::dc_true());
    assert_eq!(m.get_current_label(), label("Yue,T"));
    m.declassify_with(&Component::dc_false());
    assert_eq!(m.get_current_label(), label("T,T"));
    let mut top = Monitor::new(label("F,T"), Component::dc_true());
    top.declassify_with(&Component::formula([["Amit"]]));
    assert_eq!(top.get_current_label(), label("F,T"));
}

#[test]
fn write_and_invoke_checks() {
    let m = Monitor::new(label("Amit,T"), Component::formula([["Amit"]]));
    assert!(m.can_write(&label("Amit,T")));
    assert!(m.can_write(&label("Amit&Yue,T")));
    assert!(!m.can_write(&Label::public()));
    assert!(!m.can_write(&label("Amit,Bob")));
    assert!(m.may_invoke(&Component::formula([["Amit"]])));
    assert!(m.may_invoke(&Component::formula([["Amit", "Yue"]])));
    assert!(m.may_invoke(&Component::dc_true()));
    assert!(!m.may_invoke(&Component::formula([["Yue"]])));
    assert!(!m.may_invoke(&Component::dc_false()));
}
