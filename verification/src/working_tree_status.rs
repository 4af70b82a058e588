//! The state of the working tree: which paths differ from HEAD or from the
//! index, and how.

use vstd::prelude::*;
use crate::text::str_eq;

verus! {

/// The backend's status bits: a change between HEAD and the index (the
/// `INDEX_` bits), between the index and the working tree (the `WT_` bits),
/// or a conflict.
pub const INDEX_NEW: u32 = 1;

pub const INDEX_MODIFIED: u32 = 2;

pub const INDEX_DELETED: u32 = 4;

pub const INDEX_RENAMED: u32 = 8;

pub const INDEX_TYPECHANGE: u32 = 16;

pub const WT_NEW: u32 = 128;

pub const WT_MODIFIED: u32 = 256;

pub const WT_DELETED: u32 = 512;

pub const WT_TYPECHANGE: u32 = 1024;

pub const WT_RENAMED: u32 = 2048;

pub const CONFLICTED: u32 = 32768;

/// How one path differs. Several flags may hold of one path.
#[derive(Debug, Clone, Copy, PartialEq, Eq, Structural)]
pub struct StatusFlags {
    pub new: bool,
    pub modified: bool,
    pub deleted: bool,
    pub renamed: bool,
    pub typechange: bool,
    pub conflicted: bool,
}

/// One way in which a path can differ.
#[derive(Debug, Clone, Copy, PartialEq, Eq, Structural)]
pub enum StatusFlag {
    New,
    Modified,
    Deleted,
    Renamed,
    Typechange,
    Conflicted,
}

#[derive(Debug, Clone, PartialEq, Eq)]
pub struct StatusEntry {
    pub path: String,
    pub flags: StatusFlags,
}

#[derive(Debug, Clone, PartialEq, Eq)]
pub struct WorkingTreeStatus {
    pub entries: Vec<StatusEntry>,
}

/// The flags that the backend's status bits stand for: a flag holds where
/// the change shows in the index or in the working tree.
pub open spec fn spec_flags(bits: u32) -> StatusFlags {
    StatusFlags {
        new: bits & (INDEX_NEW | WT_NEW) != 0,
        modified: bits & (INDEX_MODIFIED | WT_MODIFIED) != 0,
        deleted: bits & (INDEX_DELETED | WT_DELETED) != 0,
        renamed: bits & (INDEX_RENAMED | WT_RENAMED) != 0,
        typechange: bits & (INDEX_TYPECHANGE | WT_TYPECHANGE) != 0,
        conflicted: bits & CONFLICTED != 0,
    }
}

impl StatusFlags {
    /// Whether the given flag holds.
    pub open spec fn spec_has(self, flag: StatusFlag) -> bool {
        match flag {
            StatusFlag::New => self.new,
            StatusFlag::Modified => self.modified,
            StatusFlag::Deleted => self.deleted,
            StatusFlag::Renamed => self.renamed,
            StatusFlag::Typechange => self.typechange,
            StatusFlag::Conflicted => self.conflicted,
        }
    }

    pub fn has(&self, flag: StatusFlag) -> (res: bool)
        ensures
            res == self.spec_has(flag),
    {
        match flag {
            StatusFlag::New => self.new,
            StatusFlag::Modified => self.modified,
            StatusFlag::Deleted => self.deleted,
            StatusFlag::Renamed => self.renamed,
            StatusFlag::Typechange => self.typechange,
            StatusFlag::Conflicted => self.conflicted,
        }
    }

    /// Whether any flag holds.
    pub open spec fn spec_any(self) -> bool {
        self.new || self.modified || self.deleted || self.renamed || self.typechange
            || self.conflicted
    }

    pub fn any(&self) -> (res: bool)
        ensures
            res == self.spec_any(),
    {
        self.new || self.modified || self.deleted || self.renamed || self.typechange
            || self.conflicted
    }

    pub fn from_bits(bits: u32) -> (res: StatusFlags)
        ensures
            res == spec_flags(bits),
    {
        StatusFlags {
            new: bits & (INDEX_NEW | WT_NEW) != 0,
            modified: bits & (INDEX_MODIFIED | WT_MODIFIED) != 0,
            deleted: bits & (INDEX_DELETED | WT_DELETED) != 0,
            renamed: bits & (INDEX_RENAMED | WT_RENAMED) != 0,
            typechange: bits & (INDEX_TYPECHANGE | WT_TYPECHANGE) != 0,
            conflicted: bits & CONFLICTED != 0,
        }
    }
}

/// What the backend reports of one path: the path, where it is readable
/// text, and its status bits.
pub open spec fn reported(raw: (Option<String>, u32)) -> Option<(Seq<char>, StatusFlags)> {
    match raw.0 {
        Some(path) => if spec_flags(raw.1).spec_any() {
            Some((path@, spec_flags(raw.1)))
        } else {
            None
        },
        None => None,
    }
}

/// The entries that a report of the backend amounts to: one for each path
/// that is readable and has a flag, in the order of the report.
pub open spec fn spec_entries(raw: Seq<(Option<String>, u32)>) -> Seq<(Seq<char>, StatusFlags)>
    decreases raw.len(),
{
    if raw.len() == 0 {
        Seq::empty()
    } else {
        match reported(raw.last()) {
            Some(entry) => spec_entries(raw.drop_last()).push(entry),
            None => spec_entries(raw.drop_last()),
        }
    }
}

/// Every entry of a status has a flag: a path that does not differ is not
/// listed.
pub proof fn lemma_entries_have_flags(raw: Seq<(Option<String>, u32)>)
    ensures
        spec_entries(raw).len() <= raw.len(),
        forall|i: int| 0 <= i < spec_entries(raw).len()
            ==> (#[trigger] spec_entries(raw)[i]).1.spec_any(),
    decreases raw.len(),
{
    if raw.len() > 0 {
        lemma_entries_have_flags(raw.drop_last());
    }
}

impl View for WorkingTreeStatus {
    type V = Seq<(Seq<char>, StatusFlags)>;

    open spec fn view(&self) -> Seq<(Seq<char>, StatusFlags)> {
        Seq::new(self.entries@.len(), |i: int| (self.entries@[i].path@, self.entries@[i].flags))
    }
}

impl WorkingTreeStatus {
    /// The status that a report of the backend amounts to.
    pub fn from_report(raw: Vec<(Option<String>, u32)>) -> (res: WorkingTreeStatus)
        ensures
            res@ == spec_entries(raw@),
    {
        let mut entries: Vec<StatusEntry> = Vec::new();
        let mut i: usize = 0;
        while i < raw.len()
            invariant
                i <= raw.len(),
                Seq::new(entries@.len(), |k: int| (entries@[k].path@, entries@[k].flags))
                    == spec_entries(
                    raw@.take(i as int),
                ),
            decreases raw.len() - i,
        {
            let flags = StatusFlags::from_bits(raw[i].1);
            proof {
                assert(raw@.take(i + 1).drop_last() == raw@.take(i as int));
                assert(raw@.take(i + 1).last() == raw@[i as int]);
            }
            let ghost before = Seq::new(entries@.len(), |k: int| (entries@[k].path@, entries@[k].flags));
            match &raw[i].0 {
                Some(path) => {
                    if flags.any() {
                        entries.push(StatusEntry { path: path.clone(), flags });
                        assert(Seq::new(entries@.len(), |k: int| (entries@[k].path@, entries@[k].flags))
                            == before.push((path@, flags)));
                    }
                },
                None => {},
            }
            i = i + 1;
        }
        assert(raw@.take(raw.len() as int) == raw@);
        WorkingTreeStatus { entries }
    }

    /// The status as a set: the pairs of a path and a flag that holds of
    /// it.
    pub open spec fn pairs(self) -> Set<(Seq<char>, StatusFlag)> {
        Set::new(
            |pair: (Seq<char>, StatusFlag)|
                exists|i: int| 0 <= i < self@.len() && #[trigger] self@[i].0 == pair.0
                    && self@[i].1.spec_has(pair.1),
        )
    }

    /// Whether the flag holds of the path.
    pub fn contains(&self, path: &str, flag: StatusFlag) -> (res: bool)
        ensures
            res == self.pairs().contains((path@, flag)),
    {
        let mut i: usize = 0;
        while i < self.entries.len()
            invariant
                i <= self.entries.len(),
                forall|k: int| 0 <= k < i
                    ==> !(#[trigger] self@[k].0 == path@ && self@[k].1.spec_has(flag)),
            decreases self.entries.len() - i,
        {
            let entry = &self.entries[i];
            if str_eq(entry.path.as_str(), path) && entry.flags.has(flag) {
                assert(self@[i as int].0 == path@ && self@[i as int].1.spec_has(flag));
                return true;
            }
            i = i + 1;
        }
        false
    }

    /// Whether no path differs.
    pub fn is_clean(&self) -> (res: bool)
        ensures
            res == (self@.len() == 0),
    {
        self.entries.len() == 0
    }
}

} // verus!
