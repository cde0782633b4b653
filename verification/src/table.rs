use vstd::prelude::*;
use crate::error::Error;

verus! {

/// The bit a handle must carry before either direction of readiness may be
/// subscribed: the combined read-and-write poll right.
pub const POLL_READWRITE_BIT: u32 = 0b1;

/// The capability set a handle currently carries: a bit field, so that rights
/// can be combined and tested together.
#[derive(Clone, Copy, Debug, PartialEq, Eq, Structural)]
pub struct FileCaps {
    pub bits: u32,
}

impl FileCaps {
    pub open spec fn spec_empty() -> FileCaps {
        (FileCaps { bits: 0 })
    }

    pub fn empty() -> (r: FileCaps)
        ensures
            r == FileCaps::spec_empty(),
    {
        FileCaps { bits: 0 }
    }

    pub open spec fn spec_poll_readwrite() -> FileCaps {
        (FileCaps { bits: POLL_READWRITE_BIT })
    }

    pub fn poll_readwrite() -> (r: FileCaps)
        ensures
            r == FileCaps::spec_poll_readwrite(),
    {
        FileCaps { bits: POLL_READWRITE_BIT }
    }

    /// Whether every bit of `required` is present in this set.
    pub open spec fn spec_contains(self, required: FileCaps) -> bool {
        self.bits & required.bits == required.bits
    }

    pub fn contains(&self, required: FileCaps) -> (r: bool)
        ensures
            r == self.spec_contains(required),
    {
        self.bits & required.bits == required.bits
    }

    pub fn union(&self, other: FileCaps) -> (r: FileCaps)
        ensures
            r.bits == self.bits | other.bits,
    {
        FileCaps { bits: self.bits | other.bits }
    }
}

/// One entry of the resource table: the capability set declared for a handle.
/// The file or socket behind the handle is outside this core; the entry is
/// the transient access the table resolves to.
#[derive(Clone, Copy, Debug, PartialEq, Eq, Structural)]
pub struct FileEntry {
    pub fd: u32,
    pub caps: FileCaps,
}

impl FileEntry {
    /// Gates access on `required`: hands the entry back when every required
    /// bit is present, else fails with the insufficient-rights error.
    pub fn get_cap(&self, required: FileCaps) -> (r: Result<FileEntry, Error>)
        ensures
            self.caps.spec_contains(required) ==> r == Ok::<FileEntry, Error>(*self),
            !self.caps.spec_contains(required) ==> r == Err::<FileEntry, Error>(Error::NotCapable),
    {
        if self.caps.contains(required) {
            Ok(*self)
        } else {
            Err(Error::NotCapable)
        }
    }
}

/// The resource table: handle identifiers mapped to their declared
/// capability sets. Looked up transiently — at subscribe time to fail fast,
/// and again by the backend at probe time — never borrowed across a wait.
pub struct Table {
    entries: Vec<FileEntry>,
}

impl View for Table {
    type V = Seq<FileEntry>;

    closed spec fn view(&self) -> Seq<FileEntry> {
        self.entries@
    }
}

impl Table {
    /// The entry a lookup of `fd` resolves to: the most recently inserted
    /// entry with that identifier, or `None`.
    pub open spec fn lookup(entries: Seq<FileEntry>, fd: u32) -> Option<FileEntry>
        decreases entries.len(),
    {
        if entries.len() == 0 {
            None
        } else if entries.last().fd == fd {
            Some(entries.last())
        } else {
            Table::lookup(entries.drop_last(), fd)
        }
    }

    pub open spec fn spec_get(self, fd: u32) -> Option<FileEntry> {
        Table::lookup(self@, fd)
    }

    pub fn new() -> (t: Table)
        ensures
            t@ == Seq::<FileEntry>::empty(),
    {
        Table { entries: Vec::new() }
    }

    /// Declares (or re-declares) the capability set of a handle.
    pub fn insert(&mut self, fd: u32, caps: FileCaps)
        ensures
            final(self)@ == old(self)@.push(FileEntry { fd, caps }),
            forall|q: u32|
                final(self).spec_get(q) == if q == fd {
                    Some(FileEntry { fd, caps })
                } else {
                    old(self).spec_get(q)
                },
    {
        let ghost pre = self.entries@;
        self.entries.push(FileEntry { fd, caps });
        proof {
            assert forall|q: u32|
                Table::lookup(pre.push(FileEntry { fd, caps }), q) == if q == fd {
                    Some(FileEntry { fd, caps })
                } else {
                    Table::lookup(pre, q)
                } by {
                Table::lemma_lookup_push(pre, FileEntry { fd, caps }, q);
            }
        }
    }

    proof fn lemma_lookup_push(s: Seq<FileEntry>, e: FileEntry, q: u32)
        ensures
            Table::lookup(s.push(e), q) == if e.fd == q {
                Some(e)
            } else {
                Table::lookup(s, q)
            },
    {
        assert(s.push(e).len() == s.len() + 1);
        assert(s.push(e).last() == e);
        assert(s.push(e).drop_last() =~= s);
    }

    /// Looks a handle up, resolving to its current entry.
    pub fn get(&self, fd: u32) -> (r: Option<FileEntry>)
        ensures
            r == self.spec_get(fd),
    {
        let mut i: usize = self.entries.len();
        proof {
            assert(self.entries@.take(i as int) =~= self.entries@);
        }
        while i > 0
            invariant
                i <= self.entries.len(),
                Table::lookup(self.entries@, fd) == Table::lookup(self.entries@.take(i as int), fd),
            decreases i,
        {
            i = i - 1;
            if self.entries[i].fd == fd {
                proof {
                    let t = self.entries@.take(i + 1 as int);
                    assert(t.last() == self.entries@[i as int]);
                }
                return Some(self.entries[i]);
            }
            proof {
                let t = self.entries@.take(i + 1 as int);
                assert(t.last() == self.entries@[i as int]);
                assert(t.drop_last() =~= self.entries@.take(i as int));
            }
        }
        proof {
            assert(self.entries@.take(0) =~= Seq::<FileEntry>::empty());
        }
        None
    }

    /// Resolves a handle to its entry, failing with the bad-handle error when
    /// the identifier names no entry.
    pub fn get_file(&self, fd: u32) -> (r: Result<FileEntry, Error>)
        ensures
            self.spec_get(fd) matches Some(e) ==> r == Ok::<FileEntry, Error>(e),
            self.spec_get(fd) is None ==> r == Err::<FileEntry, Error>(Error::Badf),
    {
        match self.get(fd) {
            Some(e) => Ok(e),
            None => Err(Error::Badf),
        }
    }
}

} // verus!
