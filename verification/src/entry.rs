//! The page-table entry collaborator, modelled as plain values.
//!
//! The surrounding kernel owns the bit layout of an entry; this core only
//! ever asks an entry for its flags and its pointed-to frame, sets it to a
//! (frame, flags) pair, or resets it to the unused state. Those queries and
//! updates are what is modelled here.

use vstd::prelude::*;

verus! {

/// A fixed-size unit of physical memory at page granularity, identified by
/// an opaque number handed out by the frame allocator.
#[derive(Clone, Copy, PartialEq, Eq, Structural, Debug)]
pub struct Frame {
    pub number: u64,
}

/// The permission/status flags of one entry that this core interprets:
/// `present` (the entry maps something), `writable`, and `huge` (the entry
/// directly maps a large region instead of pointing to a child table).
/// Flags this core does not interpret are outside the model.
#[derive(Clone, Copy, PartialEq, Eq, Structural, Debug)]
pub struct EntryFlags {
    pub present: bool,
    pub writable: bool,
    pub huge: bool,
}

impl EntryFlags {
    /// The empty flag set: nothing present, nothing writable, not huge.
    pub fn empty() -> (r: EntryFlags)
        ensures
            r == (EntryFlags { present: false, writable: false, huge: false }),
    {
        EntryFlags { present: false, writable: false, huge: false }
    }

    /// The flag set installed on a freshly created child table's entry:
    /// present and writable, never huge.
    pub fn present_writable() -> (r: EntryFlags)
        ensures
            r == (EntryFlags { present: true, writable: true, huge: false }),
    {
        EntryFlags { present: true, writable: true, huge: false }
    }
}

/// One slot of a table: a flag set and, meaningful only while `present` is
/// set, the number of the backing physical frame.
#[derive(Clone, Copy, PartialEq, Eq, Structural, Debug)]
pub struct Entry {
    pub flags: EntryFlags,
    pub frame_number: u64,
}

impl Entry {
    /// An entry that maps nothing at all.
    pub open spec fn spec_unused() -> Entry {
        Entry {
            flags: EntryFlags { present: false, writable: false, huge: false },
            frame_number: 0,
        }
    }

    /// A present, non-huge entry at a hierarchical level points to a child
    /// table one level down.
    pub open spec fn points_to_table(self) -> bool {
        self.flags.present && !self.flags.huge
    }

    /// The unused entry.
    pub fn unused() -> (r: Entry)
        ensures
            r == Entry::spec_unused(),
    {
        Entry { flags: EntryFlags::empty(), frame_number: 0 }
    }

    /// Read the entry's flags.
    pub fn flags(&self) -> (r: EntryFlags)
        ensures
            r == self.flags,
    {
        self.flags
    }

    /// Reset the entry to the unused state.
    pub fn set_unused(&mut self)
        ensures
            *final(self) == Entry::spec_unused(),
    {
        *self = Entry::unused();
    }

    /// Point the entry at `frame` with the given flags.
    pub fn set(&mut self, frame: Frame, flags: EntryFlags)
        ensures
            *final(self) == (Entry { flags: flags, frame_number: frame.number }),
    {
        *self = Entry { flags: flags, frame_number: frame.number };
    }

    /// The frame the entry maps, or `None` while the entry is not present.
    pub fn pointed_frame(&self) -> (r: Option<Frame>)
        ensures
            self.flags.present ==> r == Some(Frame { number: self.frame_number }),
            !self.flags.present ==> r is None,
    {
        if self.flags.present {
            Some(Frame { number: self.frame_number })
        } else {
            None
        }
    }
}

/// The physical frame allocator collaborator. Only its boundary is consumed:
/// one call that either hands out a frame or reports exhaustion with `None`.
/// The surrounding kernel supplies the implementation and its policy.
pub trait FrameAllocator {
    fn allocate_frame(&mut self) -> Option<Frame>;
}

} // verus!
