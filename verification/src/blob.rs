//! The blob builder: create, write, finalize, read and close.

use crate::interface::{BlobClose, BlobFinalize, BlobRead, BlobResult, BlobWrite};
use crate::objects::{BlobSlot, NewBlob, OpenBlob};
use crate::processor::{Session, SyscallProcessor};
use vstd::prelude::*;

verus! {

/// The number of bytes that a read asks for where the request names none.
pub const DEFAULT_READ_LENGTH: u64 = 4096;

/// A read that the blob store is to perform.
#[derive(Clone, PartialEq, Eq, Debug)]
pub struct BlobReadOp {
    /// The content-hash name of the blob.
    pub name: String,
    pub offset: u64,
    pub length: u64,
}

impl NewBlob {
    /// The blob after the blob store took the first `taken` bytes of `data`.
    pub open spec fn after_write(self, data: Seq<u8>, taken: nat) -> NewBlob {
        NewBlob {
            len: (self.len + taken) as u64,
            content: Ghost(self.content@ + data.take(taken as int)),
        }
    }

    /// Whether the blob store may have taken `taken` bytes of `data`: no
    /// more than it was handed, and the length still fits.
    pub open spec fn can_take(self, data: Seq<u8>, taken: nat) -> bool {
        taken <= data.len() && self.len + taken <= u64::MAX
    }
}

/// The first bytes of what was read, up to the length asked for.
pub open spec fn read_within(bytes: Seq<u8>, length: u64) -> Seq<u8> {
    if bytes.len() <= length {
        bytes
    } else {
        bytes.take(length as int)
    }
}

/// The offset that a read uses: 0 where the request names none.
pub open spec fn offset_of(req: BlobRead) -> u64 {
    match req.offset {
        Some(o) => o,
        None => 0,
    }
}

/// The length that a read uses: 4096 where the request names none.
pub open spec fn length_of(req: BlobRead) -> u64 {
    match req.length {
        Some(l) => l,
        None => DEFAULT_READ_LENGTH,
    }
}

impl SyscallProcessor {
    /// Opens a handle for a new blob. `made` says whether the blob store
    /// made room for one, with its message where it did not. The new blob
    /// gets the next blob handle and holds no bytes.
    pub fn blob_create(&mut self, made: Result<(), Vec<u8>>) -> (r: BlobResult)
        requires
            old(self).wf(),
        ensures
            final(self).wf(),
            final(self)@.issues_after(old(self)@),
            old(self)@.label@.flows_to(final(self)@.label@),
            r.len == 0,
            match made {
                Ok(_) if old(self)@.max_blob_id < u64::MAX => {
                    &&& r.success
                    &&& r.fd == old(self)@.max_blob_id
                    &&& r.data is None
                    &&& final(self)@ == old(self)@.with_blob(
                        BlobSlot::Building(NewBlob { len: 0, content: Ghost(Seq::empty()) }),
                    )
                },
                Ok(_) => {
                    &&& !r.success
                    &&& r.fd == 0
                    &&& r.data is None
                    &&& final(self)@ == old(self)@
                },
                Err(e) => {
                    &&& !r.success
                    &&& r.fd == 0
                    &&& r.data == Some(e)
                    &&& final(self)@ == old(self)@
                },
            },
    {
        proof {
            crate::label::lemma_flows_reflexive(self@.label@);
        }
        match made {
            Ok(_) => {
                let slot = BlobSlot::Building(NewBlob { len: 0, content: Ghost(Seq::empty()) });
                match self.open_blob(slot) {
                    Some(fd) => BlobResult { success: true, fd, len: 0, data: None },
                    None => BlobResult { success: false, fd: 0, len: 0, data: None },
                }
            },
            Err(e) => BlobResult { success: false, fd: 0, len: 0, data: Some(e) },
        }
    }

    /// Records a write to a blob under construction. `written` is what the
    /// blob store answered: the number of bytes of the data that it took, or
    /// its message. The bytes taken are appended to the blob and their
    /// number is returned. The call fails where the handle is no blob under
    /// construction, the store failed, or its answer cannot be: more bytes
    /// than it was handed, or a length beyond the largest number.
    pub fn blob_write(&mut self, req: &BlobWrite, written: Result<usize, Vec<u8>>) -> (r:
        BlobResult)
        requires
            old(self).wf(),
        ensures
            final(self).wf(),
            final(self)@.issues_after(old(self)@),
            old(self)@.label@.flows_to(final(self)@.label@),
            if !old(self)@.is_new_blob(req.fd) {
                &&& !r.success
                &&& r.fd == 0
                &&& r.len == 0
                &&& r.data is None
                &&& final(self)@ == old(self)@
            } else {
                match written {
                    Ok(n) if old(self)@.blobs[req.fd]->Building_0.can_take(req.data@, n as nat) => {
                        &&& r.success
                        &&& r.fd == req.fd
                        &&& r.len == n
                        &&& r.data is None
                        &&& final(self)@ == (Session {
                            blobs: old(self)@.blobs.insert(
                                req.fd,
                                BlobSlot::Building(
                                    old(self)@.blobs[req.fd]->Building_0.after_write(
                                        req.data@,
                                        n as nat,
                                    ),
                                ),
                            ),
                            ..old(self)@
                        })
                    },
                    Ok(_) => {
                        &&& !r.success
                        &&& r.fd == req.fd
                        &&& r.len == 0
                        &&& r.data is None
                        &&& final(self)@ == old(self)@
                    },
                    Err(e) => {
                        &&& !r.success
                        &&& r.fd == req.fd
                        &&& r.len == 0
                        &&& r.data == Some(e)
                        &&& final(self)@ == old(self)@
                    },
                }
            },
    {
        proof {
            crate::label::lemma_flows_reflexive(self@.label@);
        }
        let fd = req.fd;
        let (len, content) = match self.blob(fd) {
            Some(BlobSlot::Building(b)) => (b.len, b.content),
            _ => {
                return BlobResult { success: false, fd: 0, len: 0, data: None };
            },
        };
        match written {
            Ok(n) => {
                if n <= req.data.len() && n as u64 <= u64::MAX - len {
                    let grown = NewBlob {
                        len: len + n as u64,
                        content: Ghost(content@ + req.data@.take(n as int)),
                    };
                    self.replace_blob(fd, BlobSlot::Building(grown));
                    BlobResult { success: true, fd, len: n as u64, data: None }
                } else {
                    BlobResult { success: false, fd, len: 0, data: None }
                }
            },
            Err(e) => BlobResult { success: false, fd, len: 0, data: Some(e) },
        }
    }

    /// Finalizes a blob under construction. `saved` is what the blob store
    /// answered: the content-hash name under which it keeps the blob, or its
    /// message. The finalized blob stands under the same handle, and the
    /// reply carries the blob's length. Where the store failed the handle is
    /// closed. The call fails, and changes nothing, where the handle is no
    /// blob under construction.
    pub fn blob_finalize(&mut self, req: BlobFinalize, saved: Result<String, Vec<u8>>) -> (r:
        BlobResult)
        requires
            old(self).wf(),
        ensures
            final(self).wf(),
            final(self)@.issues_after(old(self)@),
            old(self)@.label@.flows_to(final(self)@.label@),
            r.fd == req.fd,
            if !old(self)@.is_new_blob(req.fd) {
                &&& !r.success
                &&& r.len == 0
                &&& r.data is None
                &&& final(self)@ == old(self)@
            } else {
                &&& r.len == old(self)@.blobs[req.fd]->Building_0.len
                &&& match saved {
                    Ok(name) => {
                        &&& r.success
                        &&& r.data is None
                        &&& final(self)@ == (Session {
                            blobs: old(self)@.blobs.insert(
                                req.fd,
                                BlobSlot::Open(OpenBlob { name, len: r.len }),
                            ),
                            ..old(self)@
                        })
                    },
                    Err(e) => {
                        &&& !r.success
                        &&& r.data == Some(e)
                        &&& final(self)@ == (Session {
                            blobs: old(self)@.blobs.remove(req.fd),
                            ..old(self)@
                        })
                    },
                }
            },
    {
        proof {
            crate::label::lemma_flows_reflexive(self@.label@);
        }
        let fd = req.fd;
        let len = match self.blob(fd) {
            Some(BlobSlot::Building(b)) => b.len,
            _ => {
                return BlobResult { success: false, fd, len: 0, data: None };
            },
        };
        match saved {
            Ok(name) => {
                self.replace_blob(fd, BlobSlot::Open(OpenBlob { name, len }));
                BlobResult { success: true, fd, len, data: None }
            },
            Err(e) => {
                self.take_blob(fd);
                BlobResult { success: false, fd, len, data: Some(e) }
            },
        }
    }

    /// Decides a read: names the blob to read, from which offset and how
    /// many bytes at most; the offset is 0 and the length 4096 where the
    /// request names none. `None` where the handle is no finalized blob.
    pub fn blob_read_plan(&self, req: &BlobRead) -> (r: Option<BlobReadOp>)
        ensures
            r == (if self@.is_open_blob(req.fd) {
                Some(
                    BlobReadOp {
                        name: self@.blobs[req.fd]->Open_0.name,
                        offset: offset_of(*req),
                        length: length_of(*req),
                    },
                )
            } else {
                None
            }),
    {
        match self.blob(req.fd) {
            Some(BlobSlot::Open(b)) => Some(
                BlobReadOp {
                    name: b.name.clone(),
                    offset: match req.offset {
                        Some(o) => o,
                        None => 0,
                    },
                    length: match req.length {
                        Some(l) => l,
                        None => DEFAULT_READ_LENGTH,
                    },
                },
            ),
            _ => None,
        }
    }

    /// Completes a read. `read` is what the blob store answered: the bytes
    /// it read, or its message. The reply carries the bytes, cut to the
    /// length asked for, and their number; fewer bytes than asked for are
    /// in order. The call fails where the handle is no finalized blob or the
    /// store failed. Nothing changes.
    pub fn blob_read(&self, req: &BlobRead, read: Result<Vec<u8>, Vec<u8>>) -> (r: BlobResult)
        ensures
            r.fd == req.fd,
            if !self@.is_open_blob(req.fd) {
                &&& !r.success
                &&& r.len == 0
                &&& r.data is None
            } else {
                match read {
                    Ok(bytes) => {
                        &&& r.success
                        &&& r.data is Some
                        &&& r.data->0@ == read_within(bytes@, length_of(*req))
                        &&& r.len == r.data->0@.len()
                    },
                    Err(e) => {
                        &&& !r.success
                        &&& r.len == 0
                        &&& r.data == Some(e)
                    },
                }
            },
    {
        let fd = req.fd;
        match self.blob(fd) {
            Some(BlobSlot::Open(_)) => {},
            _ => {
                return BlobResult { success: false, fd, len: 0, data: None };
            },
        }
        let length = match req.length {
            Some(l) => l,
            None => DEFAULT_READ_LENGTH,
        };
        match read {
            Ok(bytes) => {
                let mut buf = bytes;
                if buf.len() as u64 > length {
                    buf.truncate(length as usize);
                }
                BlobResult { success: true, fd, len: buf.len() as u64, data: Some(buf) }
            },
            Err(e) => BlobResult { success: false, fd, len: 0, data: Some(e) },
        }
    }

    /// Closes the handle of a finalized blob. Succeeds where the handle was
    /// one; otherwise fails and changes nothing.
    pub fn blob_close(&mut self, req: BlobClose) -> (r: BlobResult)
        requires
            old(self).wf(),
        ensures
            final(self).wf(),
            final(self)@.issues_after(old(self)@),
            old(self)@.label@.flows_to(final(self)@.label@),
            r.success == old(self)@.is_open_blob(req.fd),
            r.fd == req.fd,
            r.len == 0,
            r.data is None,
            final(self)@ == (if r.success {
                Session { blobs: old(self)@.blobs.remove(req.fd), ..old(self)@ }
            } else {
                old(self)@
            }),
    {
        proof {
            crate::label::lemma_flows_reflexive(self@.label@);
        }
        let fd = req.fd;
        let open = match self.blob(fd) {
            Some(BlobSlot::Open(_)) => true,
            _ => false,
        };
        if open {
            self.take_blob(fd);
        }
        BlobResult { success: open, fd, len: 0, data: None }
    }
}

/// Writing two pieces one after the other builds the same blob as writing
/// them joined, where the blob store takes every byte: what a blob holds
/// does not depend on where the writes were cut.
pub proof fn lemma_write_boundary_is_unobservable(blob: NewBlob, x: Seq<u8>, y: Seq<u8>)
    requires
        blob.len + x.len() + y.len() <= u64::MAX,
    ensures
        blob.after_write(x, x.len()).after_write(y, y.len()).len == blob.after_write(
            x + y,
            x.len() + y.len(),
        ).len,
        blob.after_write(x, x.len()).after_write(y, y.len()).content@ == blob.after_write(
            x + y,
            x.len() + y.len(),
        ).content@,
{
    assert(x.take(x.len() as int) =~= x);
    assert(y.take(y.len() as int) =~= y);
    assert((x + y).take((x.len() + y.len()) as int) =~= x + y);
    assert(blob.content@ + x + y =~= blob.content@ + (x + y));
}

} // verus!
