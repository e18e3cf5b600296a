//! The state of one session: the label monitor and the two handle tables,
//! with the steps that every cloud call is made of.

use crate::handles::HandleTable;
use crate::interface::DentResult;
use crate::label::{formula, Label, LabelModel};
use crate::monitor::{may_declassify, Monitor};
use crate::objects::{BlobSlot, DirEntry, ObjRef, ROOT_UID};
use labeled::buckle::Component;
use vstd::prelude::*;

verus! {

/// The state of a session as contracts see it.
pub struct Session {
    /// The current label.
    pub label: Label,
    /// The privilege that the session was started with.
    pub privilege: Component,
    /// The open directory entries by handle.
    pub dents: Map<u64, DirEntry>,
    /// The handle that the next opened entry gets.
    pub max_dent_id: u64,
    /// The open blobs by handle, finalized or under construction.
    pub blobs: Map<u64, BlobSlot>,
    /// The handle that the next blob gets.
    pub max_blob_id: u64,
}

impl Session {
    /// The session with another label.
    pub open spec fn with_label(self, label: Label) -> Session {
        Session { label, ..self }
    }

    /// The session after `entry` was opened under the next handle.
    pub open spec fn with_dent(self, entry: DirEntry) -> Session {
        Session {
            dents: self.dents.insert(self.max_dent_id, entry),
            max_dent_id: (self.max_dent_id + 1) as u64,
            ..self
        }
    }

    /// The session after `slot` was opened under the next blob handle.
    pub open spec fn with_blob(self, slot: BlobSlot) -> Session {
        Session {
            blobs: self.blobs.insert(self.max_blob_id, slot),
            max_blob_id: (self.max_blob_id + 1) as u64,
            ..self
        }
    }

    /// The session after the handle of a directory entry was closed.
    pub open spec fn closing(self, fd: u64) -> Session {
        Session { dents: self.dents.remove(fd), ..self }
    }

    /// Whether a handle stands for a finalized blob.
    pub open spec fn is_open_blob(self, fd: u64) -> bool {
        self.blobs.contains_key(fd) && self.blobs[fd] is Open
    }

    /// Whether a handle stands for a blob under construction.
    pub open spec fn is_new_blob(self, fd: u64) -> bool {
        self.blobs.contains_key(fd) && self.blobs[fd] is Building
    }

    /// No handle counter of `self` lies below its value in `before`.
    pub open spec fn issues_after(self, before: Session) -> bool {
        before.max_dent_id <= self.max_dent_id && before.max_blob_id <= self.max_blob_id
    }

    /// Every open handle was issued: it lies below the next one of its table.
    pub open spec fn handles_issued(self) -> bool {
        &&& forall|fd: u64| #[trigger] self.dents.contains_key(fd) ==> fd < self.max_dent_id
        &&& forall|fd: u64| #[trigger] self.blobs.contains_key(fd) ==> fd < self.max_blob_id
    }
}

/// The state of one session. It is owned by the session and handed to every
/// cloud call.
pub struct SyscallProcessor {
    monitor: Monitor,
    dents: HandleTable<DirEntry>,
    blobs: HandleTable<BlobSlot>,
}

impl View for SyscallProcessor {
    type V = Session;

    closed spec fn view(&self) -> Session {
        Session {
            label: self.monitor.current(),
            privilege: self.monitor.authority(),
            dents: self.dents@,
            max_dent_id: self.dents.next(),
            blobs: self.blobs@,
            max_blob_id: self.blobs.next(),
        }
    }
}

impl SyscallProcessor {
    /// The handle tables are well formed.
    pub closed spec fn wf(&self) -> bool {
        self.dents.wf() && self.blobs.wf()
    }

    /// In a well-formed session every open handle was issued.
    pub proof fn lemma_handles_issued(&self)
        requires
            self.wf(),
        ensures
            self@.handles_issued(),
    {
        self.dents.lemma_issued_below_next();
        self.blobs.lemma_issued_below_next();
    }

    /// A fresh session: the label is the public label raised by `label`,
    /// handle 0 is the root directory, and handles are issued from 1 on.
    pub fn new(label: Label, privilege: Component) -> (r: SyscallProcessor)
        ensures
            r.wf(),
            r@.label@ == LabelModel::public().tainted(label@),
            label@ == LabelModel::public() ==> r@.label@ == LabelModel::public(),
            label@.flows_to(r@.label@),
            r@.privilege == privilege,
            r@.dents == Map::<u64, DirEntry>::empty().insert(
                0,
                DirEntry::Directory(ObjRef { uid: ROOT_UID }),
            ),
            r@.max_dent_id == 1,
            r@.blobs == Map::<u64, BlobSlot>::empty(),
            r@.max_blob_id == 1,
    {
        let mut dents: HandleTable<DirEntry> = HandleTable::new(0);
        dents.insert(DirEntry::Directory(ObjRef::root()));
        SyscallProcessor { monitor: Monitor::new(label, privilege), dents, blobs: HandleTable::new(1) }
    }

    /// The current label; nothing changes.
    pub fn get_current_label(&self) -> (r: Label)
        ensures
            r == self@.label,
    {
        self.monitor.get_current_label()
    }

    /// The privilege of the session.
    pub fn get_privilege(&self) -> (r: Component)
        ensures
            r == self@.privilege,
    {
        self.monitor.get_privilege()
    }

    /// Taints the session: raises the current label to its join with
    /// `label` and returns it. The label before flows to the label after,
    /// and so does `label`.
    pub fn taint_with_label(&mut self, label: Label) -> (r: Label)
        ensures
            final(self).wf() == old(self).wf(),
            final(self)@.issues_after(old(self)@),
            final(self)@ == old(self)@.with_label(r),
            r@ == old(self)@.label@.tainted(label@),
            r@.is_reduction_of(old(self)@.label@.join(label@)),
            old(self)@.label@.flows_to(r@),
            label@.flows_to(r@),
    {
        self.monitor.taint_with_label(label)
    }

    /// Lowers the secrecy of the current label to `target` where the
    /// privilege allows it, and leaves the label as it is where not. Returns
    /// the label that now holds.
    pub fn declassify(&mut self, target: Component) -> (r: Label)
        ensures
            final(self).wf() == old(self).wf(),
            final(self)@.issues_after(old(self)@),
            final(self)@ == old(self)@.with_label(r),
            r.integrity == old(self)@.label.integrity,
            may_declassify(formula(target), formula(old(self)@.privilege), old(self)@.label@.secrecy)
                ==> r.secrecy == target,
            !may_declassify(
                formula(target),
                formula(old(self)@.privilege),
                old(self)@.label@.secrecy,
            ) ==> r == old(self)@.label,
            r@.secrecy == formula(target) <==> may_declassify(
                formula(target),
                formula(old(self)@.privilege),
                old(self)@.label@.secrecy,
            ),
    {
        self.monitor.declassify(target)
    }

    /// Lowers the secrecy of the current label as far as `privilege` allows.
    pub(crate) fn declassify_with(&mut self, privilege: &Component)
        ensures
            final(self).wf() == old(self).wf(),
            final(self)@.issues_after(old(self)@),
            final(self)@.label@.secrecy == old(self)@.label@.secrecy.lowered_by(
                formula(*privilege),
            ),
            final(self)@.label.integrity == old(self)@.label.integrity,
            final(self)@ == old(self)@.with_label(final(self)@.label),
    {
        self.monitor.declassify_with(privilege)
    }

    /// The write check: whether the current label flows to an object's.
    pub fn can_write(&self, object: &Label) -> (r: bool)
        ensures
            r == self@.label@.flows_to(object@),
    {
        self.monitor.can_write(object)
    }

    /// The invoker check: whether the privilege implies a clearance.
    pub fn may_invoke(&self, clearance: &Component) -> (r: bool)
        ensures
            r == formula(self@.privilege).implies(formula(*clearance)),
    {
        self.monitor.may_invoke(clearance)
    }

    /// The entry under a handle, if the handle is open.
    pub fn dent(&self, fd: u64) -> (r: Option<DirEntry>)
        ensures
            r == (if self@.dents.contains_key(fd) {
                Some(self@.dents[fd])
            } else {
                None
            }),
    {
        match self.dents.get(fd) {
            Some(e) => Some(*e),
            None => None,
        }
    }

    /// What a blob handle stands for, if the handle is open.
    pub fn blob(&self, fd: u64) -> (r: Option<&BlobSlot>)
        ensures
            r == (if self@.blobs.contains_key(fd) {
                Some(&self@.blobs[fd])
            } else {
                None
            }),
    {
        self.blobs.get(fd)
    }

    /// Opens `entry` under the next handle. With the handles exhausted
    /// nothing changes.
    pub(crate) fn open_dent(&mut self, entry: DirEntry) -> (r: Option<u64>)
        requires
            old(self).wf(),
        ensures
            final(self).wf(),
            final(self)@.issues_after(old(self)@),
            old(self)@.max_dent_id < u64::MAX ==> r == Some(old(self)@.max_dent_id) && final(self)@
                == old(self)@.with_dent(entry),
            old(self)@.max_dent_id == u64::MAX ==> r is None && final(self)@ == old(self)@,
    {
        self.dents.insert(entry)
    }

    /// Opens `slot` under the next blob handle. With the handles exhausted
    /// nothing changes.
    pub(crate) fn open_blob(&mut self, slot: BlobSlot) -> (r: Option<u64>)
        requires
            old(self).wf(),
        ensures
            final(self).wf(),
            final(self)@.issues_after(old(self)@),
            old(self)@.max_blob_id < u64::MAX ==> r == Some(old(self)@.max_blob_id) && final(self)@
                == old(self)@.with_blob(slot),
            old(self)@.max_blob_id == u64::MAX ==> r is None && final(self)@ == old(self)@,
    {
        self.blobs.insert(slot)
    }

    /// Uses up the next blob handle without opening anything under it.
    pub(crate) fn skip_blob_handle(&mut self) -> (r: Option<u64>)
        requires
            old(self).wf(),
        ensures
            final(self).wf(),
            final(self)@.issues_after(old(self)@),
            old(self)@.max_blob_id < u64::MAX ==> r == Some(old(self)@.max_blob_id) && final(self)@
                == (Session {
                max_blob_id: (old(self)@.max_blob_id + 1) as u64,
                ..old(self)@
            }),
            old(self)@.max_blob_id == u64::MAX ==> r is None && final(self)@ == old(self)@,
    {
        self.blobs.skip()
    }

    /// Puts `slot` under a blob handle that is open.
    pub(crate) fn replace_blob(&mut self, fd: u64, slot: BlobSlot)
        requires
            old(self).wf(),
            old(self)@.blobs.contains_key(fd),
        ensures
            final(self).wf(),
            final(self)@.issues_after(old(self)@),
            final(self)@ == (Session { blobs: old(self)@.blobs.insert(fd, slot), ..old(self)@ }),
    {
        proof {
            self.blobs.lemma_issued_below_next();
        }
        self.blobs.put(fd, slot);
    }

    /// Closes a blob handle and returns what it stood for.
    pub(crate) fn take_blob(&mut self, fd: u64) -> (r: Option<BlobSlot>)
        requires
            old(self).wf(),
        ensures
            final(self).wf(),
            final(self)@.issues_after(old(self)@),
            final(self)@ == (Session { blobs: old(self)@.blobs.remove(fd), ..old(self)@ }),
            r == (if old(self)@.blobs.contains_key(fd) {
                Some(old(self)@.blobs[fd])
            } else {
                None
            }),
    {
        self.blobs.remove(fd)
    }

    /// Closes a directory-entry handle. Succeeds where the handle was open;
    /// an unknown handle fails and changes nothing.
    pub fn dent_close(&mut self, fd: u64) -> (r: DentResult)
        requires
            old(self).wf(),
        ensures
            final(self).wf(),
            final(self)@.issues_after(old(self)@),
            old(self)@.label@.flows_to(final(self)@.label@),
            r.success == old(self)@.dents.contains_key(fd),
            r.fd is None,
            r.data is None,
            final(self)@ == old(self)@.closing(fd),
    {
        proof {
            crate::label::lemma_flows_reflexive(self@.label@);
        }
        let was = self.dents.remove(fd);
        DentResult { success: was.is_some(), fd: None, data: None }
    }
}

/// Handles of directory entries rise strictly: the handle that an entry got
/// was not open before, and every handle issued later is larger.
pub proof fn lemma_dent_handles_rise(first: Session, entry: DirEntry, later: Session)
    requires
        first.handles_issued(),
        first.max_dent_id < u64::MAX,
        later.issues_after(first.with_dent(entry)),
    ensures
        !first.dents.contains_key(first.max_dent_id),
        first.with_dent(entry).handles_issued(),
        first.max_dent_id < later.max_dent_id,
{
}

/// Handles of blobs rise strictly: the handle that a blob got was not open
/// before, and every handle issued later is larger.
pub proof fn lemma_blob_handles_rise(first: Session, slot: BlobSlot, later: Session)
    requires
        first.handles_issued(),
        first.max_blob_id < u64::MAX,
        later.issues_after(first.with_blob(slot)),
    ensures
        !first.blobs.contains_key(first.max_blob_id),
        first.with_blob(slot).handles_issued(),
        first.max_blob_id < later.max_blob_id,
{
}

/// Closing a handle twice: after the first close the handle is not open, so
/// the second close fails, and it leaves the session as the first left it.
pub proof fn lemma_second_close_fails(before: Session, fd: u64)
    ensures
        !before.closing(fd).dents.contains_key(fd),
        before.closing(fd).closing(fd) == before.closing(fd),
{
    assert(before.dents.remove(fd).remove(fd) =~= before.dents.remove(fd));
}

} // verus!
