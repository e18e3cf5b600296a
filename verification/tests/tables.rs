//! Handle tables and the small conversions.

use wasm_runtime::handles::HandleTable;
use wasm_runtime::interface::{DentKind, DentResult};
use wasm_runtime::objects::{DirEntry, HttpVerb, ObjRef, StoreOp, ROOT_UID};
use wasm_runtime::label::Label;

#[test]
fn handles_are_issued_in_rising_order() {
    let mut t: HandleTable<&str> = HandleTable::new(1);
    assert_eq!(t.next_handle(), 1);
    assert_eq!(t.insert("a"), Some(1));
    assert_eq!(t.insert("b"), Some(2));
    assert_eq!(t.next_handle(), 3);
    assert_eq!(t.get(1), Some(&"a"));
    assert_eq!(t.get(2), Some(&"b"));
    assert_eq!(t.get(3), None);
    assert!(t.contains(2));
    assert!(!t.contains(0));
}

#[test]
fn a_closed_handle_is_not_issued_again() {
    let mut t: HandleTable<u8> = HandleTable::new(0);
    assert_eq!(t.insert(10), Some(0));
    assert_eq!(t.remove(0), Some(10));
    assert_eq!(t.remove(0), None);
    assert_eq!(t.insert(11), Some(1));
    assert_eq!(t.get(0), None);
}

#[test]
fn put_replaces_under_the_same_handle() {
    let mut t: HandleTable<u8> = HandleTable::new(5);
    assert_eq!(t.insert(1), Some(5));
    t.put(5, 2);
    assert_eq!(t.get(5), Some(&2));
    assert_eq!(t.next_handle(), 6);
}

#[test]
fn skip_uses_up_a_handle() {
    let mut t: HandleTable<u8> = HandleTable::new(1);
    assert_eq!(t.skip(), Some(1));
    assert_eq!(t.get(1), None);
    assert_eq!(t.insert(9), Some(2));
}

#[test]
fn an_exhausted_table_issues_nothing() {
    let mut t: HandleTable<u8> = HandleTable::new(u64::MAX - 1);
    assert_eq!(t.insert(1), Some(u64::MAX - 1));
    assert_eq!(t.insert(2), None);
    assert_eq!(t.skip(), None);
    assert_eq!(t.next_handle(), u64::MAX);
    assert_eq!(t.get(u64::MAX), None);
}

#[test]
fn kinds_and_their_tags() {
    let o = ObjRef { uid: 3 };
    let cases = [
        (DirEntry::Directory(o), DentKind::DentDirectory, 0),
        (DirEntry::File(o), DentKind::DentFile, 1),
        (DirEntry::FacetedDirectory(o), DentKind::DentFacetedDirectory, 2),
        (DirEntry::Gate(o), DentKind::DentGate, 3),
        (DirEntry::Service(o), DentKind::DentService, 4),
        (DirEntry::Blob(o), DentKind::DentBlob, 5),
    ];
    for (entry, kind, tag) in cases {
        assert_eq!(DentKind::from(&entry), kind);
        assert_eq!(kind.into(), tag);
        assert_eq!(entry.objref(), o);
    }
}

#[test]
fn verbs_by_number() {
    assert_eq!(HttpVerb::from_i32(0), Some(HttpVerb::HEAD));
    assert_eq!(HttpVerb::from_i32(1), Some(HttpVerb::GET));
    assert_eq!(HttpVerb::from_i32(2), Some(HttpVerb::POST));
    assert_eq!(HttpVerb::from_i32(3), Some(HttpVerb::PUT));
    assert_eq!(HttpVerb::from_i32(4), Some(HttpVerb::DELETE));
    assert_eq!(HttpVerb::from_i32(5), None);
    assert_eq!(HttpVerb::from_i32(-1), None);
}

#[test]
fn the_root_reference() {
    assert_eq!(ObjRef::root(), ObjRef { uid: ROOT_UID });
    assert_eq!(ROOT_UID, 0);
}

#[test]
fn only_creating_operations_yield_an_entry() {
    let o = ObjRef { uid: 9 };
    assert_eq!(StoreOp::CreateDirectory(Label::public()).entry(o), Some(DirEntry::Directory(o)));
    assert_eq!(StoreOp::CreateFile(Label::public()).entry(o), Some(DirEntry::File(o)));
    assert_eq!(StoreOp::CreateFacetedDirectory.entry(o), Some(DirEntry::FacetedDirectory(o)));
    assert_eq!(StoreOp::CreateBlob(Label::public(), "n".to_string()).entry(o), Some(DirEntry::Blob(o)));
    assert_eq!(StoreOp::WriteFile(o, vec![1]).entry(o), None);
    assert_eq!(StoreOp::Unlink(o, "n".to_string()).entry(o), None);
}

#[test]
fn a_status_reply_carries_nothing_else() {
    assert_eq!(DentResult::status(true), DentResult { success: true, fd: None, data: None });
    assert_eq!(DentResult::status(false), DentResult { success: false, fd: None, data: None });
}
