//! The blob builder.

use labeled::buckle::Component;
use wasm_runtime::blob::{BlobReadOp, DEFAULT_READ_LENGTH};
use wasm_runtime::interface::{BlobClose, BlobFinalize, BlobRead, BlobResult, BlobWrite};
use wasm_runtime::label::{buckle_parse, Label};
use wasm_runtime::objects::{BlobSlot, DirEntry, Labeled, ObjRef, OpenBlob, StoreOp};
use wasm_runtime::processor::SyscallProcessor;

fn session() -> SyscallProcessor {
    SyscallProcessor::new(Label::public(), Component::dc_false())
}

fn finalized(p: &mut SyscallProcessor, data: &[u8], name: &str) -> u64 {
    let fd = p.blob_create(Ok(())).fd;
    assert!(p.blob_write(&BlobWrite { fd, data: data.to_vec() }, Ok(data.len())).success);
    assert!(p.blob_finalize(BlobFinalize { fd }, Ok(name.to_string())).success);
    fd
}

fn building_len(p: &SyscallProcessor, fd: u64) -> Option<u64> {
    match p.blob(fd) {
        Some(BlobSlot::Building(b)) => Some(b.len),
        _ => None,
    }
}

#[test]
fn create_issues_rising_handles_from_one() {
    let mut p = session();
    assert_eq!(p.blob_create(Ok(())), BlobResult { success: true, fd: 1, len: 0, data: None });
    assert_eq!(p.blob_create(Ok(())), BlobResult { success: true, fd: 2, len: 0, data: None });
    assert_eq!(building_len(&p, 1), Some(0));
    assert_eq!(building_len(&p, 3), None);
}

#[test]
fn a_failed_create_reports_the_message() {
    let mut p = session();
    let r = p.blob_create(Err(b"disk full".to_vec()));
    assert_eq!(r, BlobResult { success: false, fd: 0, len: 0, data: Some(b"disk full".to_vec()) });
    assert!(p.blob(1).is_none());
    assert_eq!(p.blob_create(Ok(())).fd, 1);
}

#[test]
fn write_adds_what_the_store_took() {
    let mut p = session();
    let fd = p.blob_create(Ok(())).fd;
    let w = BlobWrite { fd, data: b"hello, world".to_vec() };
    assert_eq!(p.blob_write(&w, Ok(12)), BlobResult { success: true, fd, len: 12, data: None });
    assert_eq!(building_len(&p, fd), Some(12));
    // a short write counts for what it took
    assert_eq!(p.blob_write(&w, Ok(5)), BlobResult { success: true, fd, len: 5, data: None });
    assert_eq!(building_len(&p, fd), Some(17));
    assert_eq!(p.blob_write(&w, Ok(0)).len, 0);
    assert_eq!(building_len(&p, fd), Some(17));
}

#[test]
fn write_fails_on_a_bad_handle_or_a_bad_answer() {
    let mut p = session();
    let fd = p.blob_create(Ok(())).fd;
    let unknown = BlobWrite { fd: 7, data: vec![1, 2] };
    assert_eq!(p.blob_write(&unknown, Ok(2)), BlobResult { success: false, fd: 0, len: 0, data: None });
    let w = BlobWrite { fd, data: vec![1, 2] };
    assert_eq!(p.blob_write(&w, Ok(3)), BlobResult { success: false, fd, len: 0, data: None });
    assert_eq!(
        p.blob_write(&w, Err(b"no space".to_vec())),
        BlobResult { success: false, fd, len: 0, data: Some(b"no space".to_vec()) }
    );
    assert_eq!(building_len(&p, fd), Some(0));
    let done = finalized(&mut p, b"abc", "n1");
    let w = BlobWrite { fd: done, data: vec![1] };
    assert!(!p.blob_write(&w, Ok(1)).success);
}

#[test]
fn the_cut_between_writes_does_not_show() {
    let mut a = session();
    let fa = a.blob_create(Ok(())).fd;
    a.blob_write(&BlobWrite { fd: fa, data: b"hello, ".to_vec() }, Ok(7));
    a.blob_write(&BlobWrite { fd: fa, data: b"world".to_vec() }, Ok(5));
    let mut b = session();
    let fb = b.blob_create(Ok(())).fd;
    b.blob_write(&BlobWrite { fd: fb, data: b"hello, world".to_vec() }, Ok(12));
    assert_eq!(building_len(&a, fa), building_len(&b, fb));
    let ra = a.blob_finalize(BlobFinalize { fd: fa }, Ok("same".to_string()));
    let rb = b.blob_finalize(BlobFinalize { fd: fb }, Ok("same".to_string()));
    assert_eq!(ra, rb);
    assert_eq!(ra.len, 12);
}

#[test]
fn finalize_keeps_the_handle() {
    let mut p = session();
    let fd = p.blob_create(Ok(())).fd;
    p.blob_write(&BlobWrite { fd, data: vec![9; 40] }, Ok(40));
    let r = p.blob_finalize(BlobFinalize { fd }, Ok("abc123".to_string()));
    assert_eq!(r, BlobResult { success: true, fd, len: 40, data: None });
    match p.blob(fd) {
        Some(BlobSlot::Open(b)) => assert_eq!(*b, OpenBlob { name: "abc123".to_string(), len: 40 }),
        _ => panic!("the handle should stand for the finalized blob"),
    }
    let again = p.blob_finalize(BlobFinalize { fd }, Ok("abc123".to_string()));
    assert_eq!(again, BlobResult { success: false, fd, len: 0, data: None });
    assert_eq!(p.blob_create(Ok(())).fd, fd + 1);
}

#[test]
fn a_failed_finalize_closes_the_handle() {
    let mut p = session();
    let fd = p.blob_create(Ok(())).fd;
    p.blob_write(&BlobWrite { fd, data: vec![1, 2, 3] }, Ok(3));
    let r = p.blob_finalize(BlobFinalize { fd }, Err(b"rename failed".to_vec()));
    assert_eq!(r, BlobResult { success: false, fd, len: 3, data: Some(b"rename failed".to_vec()) });
    assert!(p.blob(fd).is_none());
    let unknown = p.blob_finalize(BlobFinalize { fd: 50 }, Ok("x".to_string()));
    assert_eq!(unknown, BlobResult { success: false, fd: 50, len: 0, data: None });
}

#[test]
fn read_defaults_to_offset_zero_and_4096_bytes() {
    let mut p = session();
    let fd = finalized(&mut p, b"hello, world", "n");
    assert_eq!(DEFAULT_READ_LENGTH, 4096);
    assert_eq!(
        p.blob_read_plan(&BlobRead { fd, offset: None, length: None }),
        Some(BlobReadOp { name: "n".to_string(), offset: 0, length: 4096 })
    );
    assert_eq!(
        p.blob_read_plan(&BlobRead { fd, offset: Some(7), length: Some(5) }),
        Some(BlobReadOp { name: "n".to_string(), offset: 7, length: 5 })
    );
    assert_eq!(p.blob_read_plan(&BlobRead { fd: 9, offset: None, length: None }), None);
    let building = p.blob_create(Ok(())).fd;
    assert_eq!(p.blob_read_plan(&BlobRead { fd: building, offset: None, length: None }), None);
}

#[test]
fn read_returns_the_bytes_and_their_number() {
    let mut p = session();
    let fd = finalized(&mut p, b"hello, world", "n");
    let req = BlobRead { fd, offset: Some(7), length: Some(5) };
    let r = p.blob_read(&req, Ok(b"world".to_vec()));
    assert_eq!(r, BlobResult { success: true, fd, len: 5, data: Some(b"world".to_vec()) });
    // a short read at the end
    let r = p.blob_read(&req, Ok(b"ld".to_vec()));
    assert_eq!(r, BlobResult { success: true, fd, len: 2, data: Some(b"ld".to_vec()) });
    let r = p.blob_read(&req, Ok(Vec::new()));
    assert_eq!(r, BlobResult { success: true, fd, len: 0, data: Some(Vec::new()) });
    // never more than was asked for
    let r = p.blob_read(&req, Ok(b"world!!".to_vec()));
    assert_eq!(r, BlobResult { success: true, fd, len: 5, data: Some(b"world".to_vec()) });
    let whole = BlobRead { fd, offset: None, length: None };
    let r = p.blob_read(&whole, Ok(vec![3; 5000]));
    assert_eq!(r.len, 4096);
    assert_eq!(r.data, Some(vec![3; 4096]));
}

#[test]
fn read_fails_on_a_bad_handle_or_a_store_failure() {
    let mut p = session();
    let fd = finalized(&mut p, b"abc", "n");
    let req = BlobRead { fd, offset: None, length: None };
    let r = p.blob_read(&req, Err(b"io".to_vec()));
    assert_eq!(r, BlobResult { success: false, fd, len: 0, data: Some(b"io".to_vec()) });
    let missing = BlobRead { fd: 12, offset: None, length: None };
    let r = p.blob_read(&missing, Ok(b"abc".to_vec()));
    assert_eq!(r, BlobResult { success: false, fd: 12, len: 0, data: None });
}

#[test]
fn close_removes_a_finalized_blob_only() {
    let mut p = session();
    let building = p.blob_create(Ok(())).fd;
    let done = finalized(&mut p, b"abc", "n");
    let r = p.blob_close(BlobClose { fd: building });
    assert_eq!(r, BlobResult { success: false, fd: building, len: 0, data: None });
    assert_eq!(building_len(&p, building), Some(0));
    let r = p.blob_close(BlobClose { fd: done });
    assert_eq!(r, BlobResult { success: true, fd: done, len: 0, data: None });
    let again = p.blob_close(BlobClose { fd: done });
    assert_eq!(again, BlobResult { success: false, fd: done, len: 0, data: None });
    assert!(p.blob(done).is_none());
}

#[test]
fn get_blob_opens_the_blob_behind_an_entry() {
    let mut p = session();
    let source = finalized(&mut p, b"hello, world", "n");
    let op = StoreOp::CreateBlob(Label::public(), "n".to_string());
    let made = p.dent_create(&op, Some(ObjRef { uid: 4 }));
    let dent_fd = made.fd.unwrap();
    assert_eq!(p.dent(dent_fd), Some(DirEntry::Blob(ObjRef { uid: 4 })));
    let secret = buckle_parse("Amit,T").unwrap();
    let found = Labeled { label: secret.clone(), value: OpenBlob { name: "n".to_string(), len: 12 } };
    let r = p.dent_get_blob(dent_fd, Some(found.clone()));
    assert_eq!(r, BlobResult { success: true, fd: source + 1, len: 12, data: None });
    assert_eq!(p.get_current_label(), secret);
    match p.blob(r.fd) {
        Some(BlobSlot::Open(b)) => assert_eq!(*b, found.value),
        _ => panic!("the blob should be open"),
    }
    // not a Blob entry, or nothing found
    assert_eq!(p.dent_get_blob(0, Some(found.clone())), BlobResult { success: false, fd: 0, len: 0, data: None });
    assert_eq!(p.dent_get_blob(dent_fd, None), BlobResult { success: false, fd: 0, len: 0, data: None });
    assert_eq!(p.dent_get_blob(77, Some(found)), BlobResult { success: false, fd: 0, len: 0, data: None });
    assert!(p.blob(source + 2).is_none());
}
