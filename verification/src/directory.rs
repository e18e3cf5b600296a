//! Opening, reading, listing, linking and unlinking directory entries.

use crate::interface::{
    BlobResult, DentKind, DentLink, DentListResult, DentLsFaceted, DentLsFacetedResult, DentOpen,
    DentOpenResult, DentResult, DentUnlink, Entry,
};
use crate::label::{buckle_parse, label_syntax, Label, LabelModel};
use crate::objects::{BlobSlot, DirEntry, Labeled, ObjRef, OpenBlob, StoreOp};
use crate::processor::{Session, SyscallProcessor};
use vstd::prelude::*;

verus! {

/// What opening an entry asks of the store.
#[derive(Clone, PartialEq, Eq, Debug)]
pub enum OpenPlan {
    /// Nothing: the call fails.
    Reject,
    /// List a directory, to look a name up in it.
    Lookup(ObjRef, String),
    /// Open a facet of a faceted directory, making it where it is missing.
    Facet(ObjRef, Label),
}

/// What the store answered to an `OpenPlan`.
#[derive(Clone, PartialEq, Eq, Debug)]
pub enum OpenAnswer {
    Nothing,
    /// The entries of the directory, under the directory's label.
    Listing(Labeled<Vec<(String, DirEntry)>>),
    /// The directory behind the facet.
    Facet(ObjRef),
}

impl Session {
    /// The entry under a handle, if the handle is open.
    pub open spec fn dent(self, fd: u64) -> Option<DirEntry> {
        if self.dents.contains_key(fd) {
            Some(self.dents[fd])
        } else {
            None
        }
    }

    /// The object under a handle, if the handle is open and of that kind.
    pub open spec fn object_of(self, fd: u64, kind: DentKind) -> Option<ObjRef> {
        if self.dents.contains_key(fd) && DentKind::of(self.dents[fd]) == kind {
            Some(self.dents[fd].object())
        } else {
            None
        }
    }
}

/// The entry that the first pair with a given name holds.
pub open spec fn find_name(entries: Seq<(String, DirEntry)>, name: Seq<char>) -> Option<DirEntry>
    decreases entries.len(),
{
    if entries.len() == 0 {
        None
    } else if entries[0].0@ == name {
        Some(entries[0].1)
    } else {
        find_name(entries.skip(1), name)
    }
}

/// A listing as the guest sees it: each name with the tag of its kind.
pub open spec fn listed(entries: Seq<(String, DirEntry)>) -> Seq<(String, i32)> {
    entries.map_values(|e: (String, DirEntry)| (e.0, DentKind::of(e.1).tag()))
}

/// The plan for a facet named by text: the facet that the text spells.
pub open spec fn facet_plan(fdir: ObjRef, parsed: Option<Label>) -> OpenPlan {
    match parsed {
        Some(l) => OpenPlan::Facet(fdir, l),
        None => OpenPlan::Reject,
    }
}

/// The entry that an answered plan opens, if it opens one.
pub open spec fn opened_entry(plan: OpenPlan, found: OpenAnswer) -> Option<DirEntry> {
    match (plan, found) {
        (OpenPlan::Lookup(_, name), OpenAnswer::Listing(l)) => find_name(l.value@, name@),
        (OpenPlan::Facet(_, _), OpenAnswer::Facet(o)) => Some(DirEntry::Directory(o)),
        _ => None,
    }
}

/// The label after an answered plan: a listing taints with the label of the
/// directory.
pub open spec fn label_after_open(label: LabelModel, plan: OpenPlan, found: OpenAnswer)
    -> LabelModel {
    match (plan, found) {
        (OpenPlan::Lookup(_, _), OpenAnswer::Listing(l)) => label.tainted(l.label@),
        _ => label,
    }
}

/// The clearance of a faceted listing: public where none is given.
pub open spec fn clearance_of(given: Option<Label>) -> LabelModel {
    match given {
        Some(l) => l@,
        None => LabelModel::public(),
    }
}

/// The facets that flow to a clearance, in the order given.
pub open spec fn visible_facets(facets: Seq<Label>, clearance: LabelModel) -> Seq<Label> {
    facets.filter(|l: Label| l@.flows_to(clearance))
}

/// Whether a link or an unlink reaches the store's directory: the handle is
/// an open Directory and its label was fetched.
pub open spec fn directory_read(s: Session, dir_fd: u64, dir_label: Option<Label>) -> bool {
    s.object_of(dir_fd, DentKind::DentDirectory) is Some && dir_label is Some
}

/// Whether a link is asked of the store: the directory is read, the target
/// handle is open, and the write check on the directory passes.
pub open spec fn link_allowed(s: Session, dir_fd: u64, target_fd: u64, dir_label: Option<Label>)
    -> bool {
    &&& directory_read(s, dir_fd, dir_label)
    &&& s.dents.contains_key(target_fd)
    &&& s.label@.flows_to(dir_label->0@)
}

/// Whether an unlink is asked of the store: the directory is read, and the
/// write check on it passes.
pub open spec fn unlink_allowed(s: Session, dir_fd: u64, dir_label: Option<Label>) -> bool {
    directory_read(s, dir_fd, dir_label) && s.label@.flows_to(dir_label->0@)
}

/// Looks a name up in a listing: the entry of the first pair with that name.
pub fn lookup(entries: &Vec<(String, DirEntry)>, name: &String) -> (r: Option<DirEntry>)
    ensures
        r == find_name(entries@, name@),
{
    let mut i: usize = 0;
    proof {
        assert(entries@.skip(0) =~= entries@);
    }
    while i < entries.len()
        invariant
            i <= entries.len(),
            find_name(entries@, name@) == find_name(entries@.skip(i as int), name@),
        decreases entries.len() - i,
    {
        if entries[i].0 == *name {
            return Some(entries[i].1);
        }
        proof {
            assert(entries@.skip(i as int).skip(1) =~= entries@.skip(i + 1));
        }
        i = i + 1;
    }
    None
}

/// The facets of a listing that flow to a clearance.
pub fn facets_within(facets: &Vec<Label>, clearance: &Label) -> (r: Vec<Label>)
    ensures
        r@ == visible_facets(facets@, clearance@),
{
    let mut out: Vec<Label> = Vec::new();
    let mut i: usize = 0;
    proof {
        reveal(Seq::filter);
        assert(facets@.take(0) =~= Seq::<Label>::empty());
    }
    while i < facets.len()
        invariant
            i <= facets.len(),
            out@ == visible_facets(facets@.take(i as int), clearance@),
        decreases facets.len() - i,
    {
        proof {
            reveal(Seq::filter);
            assert(facets@.take(i + 1).drop_last() =~= facets@.take(i as int));
        }
        if facets[i].can_flow_to(clearance) {
            out.push(facets[i].clone());
        }
        i = i + 1;
    }
    proof {
        assert(facets@.take(facets.len() as int) =~= facets@);
    }
    out
}

/// A listing as the guest sees it.
pub fn listing_for_guest(entries: &Vec<(String, DirEntry)>) -> (r: Vec<(String, i32)>)
    ensures
        r@ == listed(entries@),
{
    let mut out: Vec<(String, i32)> = Vec::new();
    let mut i: usize = 0;
    while i < entries.len()
        invariant
            i <= entries.len(),
            out@ == listed(entries@.take(i as int)),
        decreases entries.len() - i,
    {
        out.push((entries[i].0.clone(), DentKind::from(&entries[i].1).into()));
        proof {
            assert(out@ =~= listed(entries@.take(i + 1)));
        }
        i = i + 1;
    }
    proof {
        assert(entries@.take(entries.len() as int) =~= entries@);
    }
    out
}

impl SyscallProcessor {
    /// The object under a handle, if the handle is open and of that kind.
    pub fn object_of(&self, fd: u64, kind: DentKind) -> (r: Option<ObjRef>)
        ensures
            r == self@.object_of(fd, kind),
    {
        match self.dent(fd) {
            Some(e) => if DentKind::from(&e) == kind {
                Some(e.objref())
            } else {
                None
            },
            None => None,
        }
    }

    /// The plan for opening a facet that is named by text, given the label
    /// that the text was read as.
    pub fn dent_open_named_facet(fdir: ObjRef, parsed: Option<Label>) -> (r: OpenPlan)
        ensures
            r == facet_plan(fdir, parsed),
    {
        match parsed {
            Some(l) => OpenPlan::Facet(fdir, l),
            None => OpenPlan::Reject,
        }
    }

    /// Decides what opening an entry asks of the store. A name under a
    /// directory is looked up in its listing; a facet under a faceted
    /// directory is opened; a name under a faceted directory is read as a
    /// label and opened as that facet. Any other pairing is rejected.
    pub fn dent_open_plan(&self, req: DentOpen) -> (r: OpenPlan)
        ensures
            match (self@.dent(req.fd), req.entry) {
                (Some(DirEntry::Directory(d)), Some(Entry::Name(name))) => r == OpenPlan::Lookup(
                    d,
                    name,
                ),
                (Some(DirEntry::FacetedDirectory(f)), Some(Entry::Facet(l))) => r
                    == OpenPlan::Facet(f, l),
                (Some(DirEntry::FacetedDirectory(f)), Some(Entry::Name(name))) => match r {
                    OpenPlan::Facet(fdir, l) => fdir == f && label_syntax(name@) == Some(l@),
                    OpenPlan::Reject => label_syntax(name@) is None,
                    _ => false,
                },
                _ => r is Reject,
            },
    {
        match (self.dent(req.fd), req.entry) {
            (Some(DirEntry::Directory(d)), Some(Entry::Name(name))) => OpenPlan::Lookup(d, name),
            (Some(DirEntry::FacetedDirectory(f)), Some(Entry::Facet(l))) => OpenPlan::Facet(f, l),
            (Some(DirEntry::FacetedDirectory(f)), Some(Entry::Name(name))) => {
                let parsed = buckle_parse(name.as_str());
                Self::dent_open_named_facet(f, parsed)
            },
            _ => OpenPlan::Reject,
        }
    }

    /// Completes opening an entry: `plan` is what was decided and `found`
    /// what the store answered. A listing taints the label with the label
    /// of the directory, whether or not the name is in it. The entry that
    /// was found is opened under the next handle; the reply carries the
    /// handle and the tag of the entry's kind. A failed call replies with
    /// handle 0 and the tag of a directory.
    pub fn dent_open(&mut self, plan: &OpenPlan, found: OpenAnswer) -> (r: DentOpenResult)
        requires
            old(self).wf(),
        ensures
            final(self).wf(),
            final(self)@.issues_after(old(self)@),
            final(self)@.label@ == label_after_open(old(self)@.label@, *plan, found),
            old(self)@.label@.flows_to(final(self)@.label@),
            match opened_entry(*plan, found) {
                Some(e) if old(self)@.max_dent_id < u64::MAX => {
                    &&& r.success
                    &&& r.fd == old(self)@.max_dent_id
                    &&& r.kind == DentKind::of(e).tag()
                    &&& final(self)@ == old(self)@.with_label(final(self)@.label).with_dent(e)
                },
                _ => {
                    &&& !r.success
                    &&& r.fd == 0
                    &&& r.kind == DentKind::DentDirectory.tag()
                    &&& final(self)@ == old(self)@.with_label(final(self)@.label)
                },
            },
    {
        proof {
            crate::label::lemma_flows_reflexive(self@.label@);
        }
        let entry = match (plan, found) {
            (OpenPlan::Lookup(_, name), OpenAnswer::Listing(l)) => {
                let Labeled { label, value } = l;
                self.taint_with_label(label);
                lookup(&value, name)
            },
            (OpenPlan::Facet(_, _), OpenAnswer::Facet(o)) => Some(DirEntry::Directory(o)),
            _ => None,
        };
        let opened = match entry {
            Some(e) => match self.open_dent(e) {
                Some(fd) => Some((fd, DentKind::from(&e))),
                None => None,
            },
            None => None,
        };
        match opened {
            Some((fd, kind)) => DentOpenResult { success: true, fd, kind: kind.into() },
            None => DentOpenResult { success: false, fd: 0, kind: DentKind::DentDirectory.into() },
        }
    }

    /// Reads a file. `stored` is what the store holds under the handle:
    /// the bytes and their label. Reading taints the label with the file's.
    /// The call fails, and changes nothing, where the handle is not an open
    /// File or the store holds nothing.
    pub fn dent_read(&mut self, fd: u64, stored: Option<Labeled<Vec<u8>>>) -> (r: DentResult)
        ensures
            final(self).wf() == old(self).wf(),
            final(self)@.issues_after(old(self)@),
            r.fd == Some(fd),
            r.success == (old(self)@.object_of(fd, DentKind::DentFile) is Some && stored is Some),
            r.success ==> {
                &&& r.data == Some(stored->0.value)
                &&& final(self)@.label@ == old(self)@.label@.tainted(stored->0.label@)
                &&& final(self)@ == old(self)@.with_label(final(self)@.label)
            },
            !r.success ==> r.data is None && final(self)@ == old(self)@,
            old(self)@.label@.flows_to(final(self)@.label@),
    {
        proof {
            crate::label::lemma_flows_reflexive(self@.label@);
        }
        match (self.object_of(fd, DentKind::DentFile), stored) {
            (Some(_), Some(file)) => {
                let Labeled { label, value } = file;
                self.taint_with_label(label);
                DentResult { success: true, fd: Some(fd), data: Some(value) }
            },
            _ => DentResult { success: false, fd: Some(fd), data: None },
        }
    }

    /// Lists a directory. `stored` is what the store holds under the
    /// handle: the entries and the directory's label. Listing taints the
    /// label with the directory's. The reply holds each name with the tag of
    /// its kind, in the store's order. The call fails, and changes nothing,
    /// where the handle is not an open Directory or the store holds nothing.
    pub fn dent_list(&mut self, dir_fd: u64, stored: Option<Labeled<Vec<(String, DirEntry)>>>) -> (r:
        DentListResult)
        ensures
            final(self).wf() == old(self).wf(),
            final(self)@.issues_after(old(self)@),
            r.success == (old(self)@.object_of(dir_fd, DentKind::DentDirectory) is Some
                && stored is Some),
            r.success ==> {
                &&& r.entries@ == listed(stored->0.value@)
                &&& final(self)@.label@ == old(self)@.label@.tainted(stored->0.label@)
                &&& final(self)@ == old(self)@.with_label(final(self)@.label)
            },
            !r.success ==> r.entries@.len() == 0 && final(self)@ == old(self)@,
            old(self)@.label@.flows_to(final(self)@.label@),
    {
        proof {
            crate::label::lemma_flows_reflexive(self@.label@);
        }
        match (self.object_of(dir_fd, DentKind::DentDirectory), stored) {
            (Some(_), Some(dir)) => {
                let Labeled { label, value } = dir;
                self.taint_with_label(label);
                DentListResult { success: true, entries: listing_for_guest(&value) }
            },
            _ => DentListResult { success: false, entries: Vec::new() },
        }
    }

    /// Lists the facets of a faceted directory that flow to a clearance; the
    /// clearance is public where the request gives none. `facets` is what
    /// the store holds under the handle. Listing taints the label with the
    /// clearance. The call fails, and changes nothing, where the handle is
    /// not an open FacetedDirectory or the store holds nothing.
    pub fn dent_ls_faceted(&mut self, req: DentLsFaceted, facets: Option<Vec<Label>>) -> (r:
        DentLsFacetedResult)
        ensures
            final(self).wf() == old(self).wf(),
            final(self)@.issues_after(old(self)@),
            r.success == (old(self)@.object_of(req.fd, DentKind::DentFacetedDirectory) is Some
                && facets is Some),
            r.success ==> {
                &&& r.facets@ == visible_facets(facets->0@, clearance_of(req.clearance))
                &&& final(self)@.label@ == old(self)@.label@.tainted(clearance_of(req.clearance))
                &&& final(self)@ == old(self)@.with_label(final(self)@.label)
            },
            !r.success ==> r.facets@.len() == 0 && final(self)@ == old(self)@,
            old(self)@.label@.flows_to(final(self)@.label@),
    {
        proof {
            crate::label::lemma_flows_reflexive(self@.label@);
        }
        match (self.object_of(req.fd, DentKind::DentFacetedDirectory), facets) {
            (Some(_), Some(all)) => {
                let clearance = match req.clearance {
                    Some(l) => l,
                    None => Label::public(),
                };
                let visible = facets_within(&all, &clearance);
                self.taint_with_label(clearance);
                DentLsFacetedResult { success: true, facets: visible }
            },
            _ => DentLsFacetedResult { success: false, facets: Vec::new() },
        }
    }

    /// Decides a link. `dir_label` is the label that the store holds on the
    /// directory. Both handles must be open, the first a Directory, and the
    /// current label must flow to the directory's; then the link is asked of
    /// the store. Otherwise `None`.
    pub fn dent_link_plan(&self, req: DentLink, dir_label: &Option<Label>) -> (r: Option<StoreOp>)
        ensures
            r == (if link_allowed(self@, req.dir_fd, req.target_fd, *dir_label) {
                Some(
                    StoreOp::Link(
                        self@.dents[req.dir_fd].object(),
                        req.name,
                        self@.dents[req.target_fd],
                    ),
                )
            } else {
                None
            }),
            r is Some ==> self@.label@.flows_to(dir_label->0@),
    {
        match (self.object_of(req.dir_fd, DentKind::DentDirectory), self.dent(req.target_fd), dir_label) {
            (Some(dir), Some(target), Some(label)) => {
                if self.can_write(label) {
                    Some(StoreOp::Link(dir, req.name, target))
                } else {
                    None
                }
            },
            _ => None,
        }
    }

    /// Completes a link: `linked` says whether the store performed it. The
    /// call succeeds where a link was decided on and the store performed
    /// it; then the label before the call flows to the directory's. Where
    /// both handles are open, the first a Directory, and its label was
    /// fetched, the directory counts as read, and its label taints the
    /// current one.
    pub fn dent_link(
        &mut self,
        dir_fd: u64,
        target_fd: u64,
        dir_label: Option<Label>,
        linked: bool,
    ) -> (r: DentResult)
        ensures
            final(self).wf() == old(self).wf(),
            final(self)@.issues_after(old(self)@),
            r.success == (link_allowed(old(self)@, dir_fd, target_fd, dir_label) && linked),
            r.success ==> old(self)@.label@.flows_to(dir_label->0@),
            r.fd is None,
            r.data is None,
            final(self)@ == old(self)@.with_label(final(self)@.label),
            final(self)@.label@ == (if directory_read(old(self)@, dir_fd, dir_label) && old(
                self,
            )@.dents.contains_key(target_fd) {
                old(self)@.label@.tainted(dir_label->0@)
            } else {
                old(self)@.label@
            }),
            old(self)@.label@.flows_to(final(self)@.label@),
    {
        proof {
            crate::label::lemma_flows_reflexive(self@.label@);
        }
        match (self.object_of(dir_fd, DentKind::DentDirectory), self.dent(target_fd), dir_label) {
            (Some(_), Some(_), Some(label)) => {
                let allowed = self.can_write(&label);
                self.taint_with_label(label);
                DentResult::status(allowed && linked)
            },
            _ => DentResult::status(false),
        }
    }

    /// Decides an unlink. `dir_label` is the label that the store holds on
    /// the directory. The handle must be an open Directory, and the current
    /// label must flow to the directory's; then the unlink is asked of the
    /// store. Otherwise `None`.
    pub fn dent_unlink_plan(&self, req: DentUnlink, dir_label: &Option<Label>) -> (r: Option<
        StoreOp,
    >)
        ensures
            r == (if unlink_allowed(self@, req.dir_fd, *dir_label) {
                Some(StoreOp::Unlink(self@.dents[req.dir_fd].object(), req.name))
            } else {
                None
            }),
            r is Some ==> self@.label@.flows_to(dir_label->0@),
    {
        match (self.object_of(req.dir_fd, DentKind::DentDirectory), dir_label) {
            (Some(dir), Some(label)) => {
                if self.can_write(label) {
                    Some(StoreOp::Unlink(dir, req.name))
                } else {
                    None
                }
            },
            _ => None,
        }
    }

    /// Completes an unlink: `removed` is what the store answered, whether
    /// it removed the name, or `None` where it was not asked or failed. The
    /// call succeeds where an unlink was decided on and the store removed
    /// the name; the reply carries the directory's handle. Where the handle
    /// is an open Directory whose label was fetched, the directory counts as
    /// read, and its label taints the current one.
    pub fn dent_unlink(&mut self, dir_fd: u64, dir_label: Option<Label>, removed: Option<bool>) -> (r:
        DentResult)
        ensures
            final(self).wf() == old(self).wf(),
            final(self)@.issues_after(old(self)@),
            r.success == (unlink_allowed(old(self)@, dir_fd, dir_label) && removed == Some(true)),
            r.success ==> old(self)@.label@.flows_to(dir_label->0@),
            r.fd == Some(dir_fd),
            r.data is None,
            final(self)@ == old(self)@.with_label(final(self)@.label),
            final(self)@.label@ == (if directory_read(old(self)@, dir_fd, dir_label) {
                old(self)@.label@.tainted(dir_label->0@)
            } else {
                old(self)@.label@
            }),
            old(self)@.label@.flows_to(final(self)@.label@),
    {
        proof {
            crate::label::lemma_flows_reflexive(self@.label@);
        }
        let done = match removed {
            Some(b) => b,
            None => false,
        };
        match (self.object_of(dir_fd, DentKind::DentDirectory), dir_label) {
            (Some(_), Some(label)) => {
                let allowed = self.can_write(&label);
                self.taint_with_label(label);
                DentResult { success: allowed && done, fd: Some(dir_fd), data: None }
            },
            _ => DentResult { success: false, fd: Some(dir_fd), data: None },
        }
    }

    /// Opens the blob behind a Blob entry. `found` is the blob as the blob
    /// store opened it, under the label that the labeled store holds on the
    /// entry. Reading the entry taints the label with the entry's. The blob
    /// is opened under the next blob handle; the reply carries the handle
    /// and the blob's length. The call fails where the handle is not an open
    /// Blob entry or the blob could not be opened.
    pub fn dent_get_blob(&mut self, fd: u64, found: Option<Labeled<OpenBlob>>) -> (r: BlobResult)
        requires
            old(self).wf(),
        ensures
            final(self).wf(),
            final(self)@.issues_after(old(self)@),
            r.data is None,
            old(self)@.label@.flows_to(final(self)@.label@),
            if old(self)@.object_of(fd, DentKind::DentBlob) is Some && found is Some {
                &&& final(self)@.label@ == old(self)@.label@.tainted(found->0.label@)
                &&& if old(self)@.max_blob_id < u64::MAX {
                    &&& r.success
                    &&& r.fd == old(self)@.max_blob_id
                    &&& r.len == found->0.value.len
                    &&& final(self)@ == old(self)@.with_label(final(self)@.label).with_blob(
                        BlobSlot::Open(found->0.value),
                    )
                } else {
                    &&& !r.success
                    &&& r.fd == 0
                    &&& r.len == 0
                    &&& final(self)@ == old(self)@.with_label(final(self)@.label)
                }
            } else {
                &&& !r.success
                &&& r.fd == 0
                &&& r.len == 0
                &&& final(self)@ == old(self)@
            },
    {
        proof {
            crate::label::lemma_flows_reflexive(self@.label@);
        }
        match (self.object_of(fd, DentKind::DentBlob), found) {
            (Some(_), Some(blob)) => {
                let Labeled { label, value } = blob;
                self.taint_with_label(label);
                let len = value.len;
                match self.open_blob(BlobSlot::Open(value)) {
                    Some(blobfd) => BlobResult { success: true, fd: blobfd, len, data: None },
                    None => BlobResult { success: false, fd: 0, len: 0, data: None },
                }
            },
            _ => BlobResult { success: false, fd: 0, len: 0, data: None },
        }
    }
}

} // verus!
