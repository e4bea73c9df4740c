//! The table container and the level-tagged descent algorithm.

use vstd::prelude::*;
use core::marker::PhantomData;
use crate::entry::{Entry, EntryFlags, Frame, FrameAllocator};

verus! {

/// Number of entries in every table of the hierarchy.
pub const ENTRY_COUNT: usize = 512;

/// A level of the page-table hierarchy, encoded as a zero-size type tag.
pub trait TableLevel: Sized {
    /// Storage type for a child one level down: the next level's table for
    /// hierarchical levels, the unit type for the leaf, whose entries never
    /// point to tables.
    type Child;

    /// Whether tables at this level may own child tables. The leaf level is
    /// the only one that may not.
    spec fn is_hierarchical() -> bool;

    /// How many levels lie beneath this one; the measure that shows the
    /// level chain has no cycles.
    spec fn depth() -> nat;

    /// Well-formedness of a stored child: the child table's own [`Table::wf`]
    /// at hierarchical levels, trivially true at the leaf.
    spec fn child_wf(c: Self::Child) -> bool
        decreases Self::depth(), 0nat,
    ;
}

/// A level whose tables may own child tables: every level but the leaf.
///
/// Descent is defined only under this bound, so an attempt to descend below
/// the leaf level is rejected by the type system rather than at run time.
pub trait HierarchicalLevel: TableLevel<Child = Table<<Self as HierarchicalLevel>::NextLevel>> {
    /// The level directly beneath this one.
    type NextLevel: TableLevel;

    /// Every level under this bound answers `true` to `is_hierarchical`.
    proof fn hierarchical_fact()
        ensures
            Self::is_hierarchical(),
    ;

    /// At a hierarchical level, a stored child is well formed exactly when
    /// the child table's own [`Table::wf`] holds.
    proof fn child_wf_is_wf(c: Table<Self::NextLevel>)
        ensures
            Self::child_wf(c) == c.wf(),
    ;
}

/// The outermost level: the root table of an address space.
pub struct Level4 {}

/// The upper-middle level.
pub struct Level3 {}

/// The lower-middle level.
pub struct Level2 {}

/// The leaf level: its entries map 4KiB frames directly, never child tables.
pub struct Level1 {}

impl TableLevel for Level4 {
    type Child = Table<Level3>;

    open spec fn is_hierarchical() -> bool {
        true
    }

    open spec fn depth() -> nat {
        3
    }

    open spec fn child_wf(c: Table<Level3>) -> bool
        decreases Self::depth(), 0nat,
    {
        c.wf()
    }
}

impl TableLevel for Level3 {
    type Child = Table<Level2>;

    open spec fn is_hierarchical() -> bool {
        true
    }

    open spec fn depth() -> nat {
        2
    }

    open spec fn child_wf(c: Table<Level2>) -> bool
        decreases Self::depth(), 0nat,
    {
        c.wf()
    }
}

impl TableLevel for Level2 {
    type Child = Table<Level1>;

    open spec fn is_hierarchical() -> bool {
        true
    }

    open spec fn depth() -> nat {
        1
    }

    open spec fn child_wf(c: Table<Level1>) -> bool
        decreases Self::depth(), 0nat,
    {
        c.wf()
    }
}

impl TableLevel for Level1 {
    type Child = ();

    open spec fn is_hierarchical() -> bool {
        false
    }

    open spec fn depth() -> nat {
        0
    }

    open spec fn child_wf(c: ()) -> bool
        decreases Self::depth(), 0nat,
    {
        true
    }
}

impl HierarchicalLevel for Level4 {
    type NextLevel = Level3;

    proof fn hierarchical_fact() {
    }

    proof fn child_wf_is_wf(c: Table<Level3>) {
    }
}

impl HierarchicalLevel for Level3 {
    type NextLevel = Level2;

    proof fn hierarchical_fact() {
    }

    proof fn child_wf_is_wf(c: Table<Level2>) {
    }
}

impl HierarchicalLevel for Level2 {
    type NextLevel = Level1;

    proof fn hierarchical_fact() {
    }

    proof fn child_wf_is_wf(c: Table<Level1>) {
    }
}

/// A page table at level `L`: exactly [`ENTRY_COUNT`] entries, together with
/// the child tables its present, non-huge entries point to.
///
/// In the running kernel a child table lives in the physical frame its
/// parent entry names and is reached through the standing recursive mapping;
/// here the children are owned alongside the entries, so that the entry
/// state and the child table it promises can be related in [`Table::wf`].
pub struct Table<L: TableLevel> {
    entries: Vec<Entry>,
    children: Vec<Option<Box<L::Child>>>,
    level: PhantomData<L>,
}

impl<L: TableLevel> View for Table<L> {
    type V = Seq<Entry>;

    /// A table is modelled by the sequence of its entries.
    closed spec fn view(&self) -> Seq<Entry> {
        self.entries@
    }
}

impl<L: TableLevel> Table<L> {
    /// A table is well formed when it has exactly [`ENTRY_COUNT`] entries
    /// and child slots and, at a hierarchical level, every entry that points
    /// to a child table has that child in place. The rest of the kernel must
    /// preserve this by never hand-writing a table-pointing entry outside
    /// this core's creation path.
    pub closed spec fn wf(self) -> bool
        decreases L::depth(), 1nat,
    {
        &&& self.entries.len() == ENTRY_COUNT
        &&& self.children.len() == ENTRY_COUNT
        &&& forall|i: int|
            0 <= i < ENTRY_COUNT && L::is_hierarchical() && self.entries[i].points_to_table()
                ==> self.children[i] is Some
        &&& forall|i: int|
            0 <= i < ENTRY_COUNT && self.children[i] is Some ==> L::child_wf(*self.children[i]->Some_0)
    }

    /// A well-formed table has exactly [`ENTRY_COUNT`] entries: the bridge
    /// from the closed invariant to the public view, for callers outside
    /// this module that hold a table only known to be well formed.
    pub proof fn lemma_wf_entry_count(self)
        requires
            self.wf(),
        ensures
            self@.len() == ENTRY_COUNT,
    {
    }

    /// The child table stored beneath slot `i`, if any.
    pub closed spec fn spec_child(self, i: int) -> Option<L::Child> {
        match self.children[i] {
            Some(c) => Some(*c),
            None => None,
        }
    }

    /// A freshly created table: every entry unused, no children.
    pub fn new() -> (r: Table<L>)
        ensures
            r.wf(),
            r@.len() == ENTRY_COUNT,
            forall|i: int| 0 <= i < ENTRY_COUNT ==> r@[i] == Entry::spec_unused(),
            forall|i: int| 0 <= i < ENTRY_COUNT ==> r.spec_child(i) is None,
    {
        let mut entries: Vec<Entry> = Vec::new();
        let mut children: Vec<Option<Box<L::Child>>> = Vec::new();
        let mut i: usize = 0;
        while i < ENTRY_COUNT
            invariant
                i <= ENTRY_COUNT,
                entries.len() == i,
                children.len() == i,
                forall|j: int| 0 <= j < i ==> entries[j] == Entry::spec_unused(),
                forall|j: int| 0 <= j < i ==> children[j] is None,
            decreases ENTRY_COUNT - i,
        {
            entries.push(Entry::unused());
            children.push(None);
            i += 1;
        }
        Table { entries, children, level: PhantomData }
    }

    /// Reset every entry of the table to the unused state. Child tables that
    /// the old entries pointed to become unreachable through this table, as
    /// the frames backing them would in the running kernel; nothing here
    /// frees them.
    pub fn zero(&mut self)
        requires
            old(self).wf(),
        ensures
            final(self).wf(),
            final(self)@.len() == ENTRY_COUNT,
            forall|i: int| 0 <= i < ENTRY_COUNT ==> final(self)@[i] == Entry::spec_unused(),
            forall|i: int|
                0 <= i < ENTRY_COUNT ==> final(self).spec_child(i) == old(self).spec_child(i),
    {
        let mut i: usize = 0;
        while i < ENTRY_COUNT
            invariant
                self.entries.len() == ENTRY_COUNT,
                self.children.len() == ENTRY_COUNT,
                i <= ENTRY_COUNT,
                forall|j: int| 0 <= j < i ==> self.entries[j] == Entry::spec_unused(),
                forall|j: int|
                    0 <= j < ENTRY_COUNT && self.children[j] is Some
                        ==> L::child_wf(*self.children[j]->Some_0),
                forall|j: int|
                    0 <= j < ENTRY_COUNT ==> self.children[j] == old(self).children[j],
            decreases ENTRY_COUNT - i,
        {
            self.entries[i].set_unused();
            i += 1;
        }
    }

    /// Read access to the entry at slot `index`. Callers derive the index by
    /// masking a virtual address to 9 bits, so anything outside [0, 512) is
    /// a caller bug and is ruled out up front.
    pub fn index(&self, index: usize) -> (r: &Entry)
        requires
            self.wf(),
            index < ENTRY_COUNT,
        ensures
            *r == self@[index as int],
    {
        &self.entries[index]
    }

    /// Write access to the entry at slot `index`.
    ///
    /// Writing through the result can break [`Table::wf`] at a hierarchical
    /// level by marking an entry as pointing to a child table that was never
    /// created; the last clause says exactly when well-formedness survives
    /// the write. At the leaf level every write keeps it.
    pub fn index_mut(&mut self, index: usize) -> (r: &mut Entry)
        requires
            old(self).wf(),
            index < ENTRY_COUNT,
        ensures
            *r == old(self)@[index as int],
            final(self)@ == old(self)@.update(index as int, *final(r)),
            forall|j: int| 0 <= j < ENTRY_COUNT ==> final(self).spec_child(j) == old(self).spec_child(j),
            (L::is_hierarchical() && final(r).points_to_table()
                && !old(self)@[index as int].points_to_table()) || final(self).wf(),
    {
        &mut self.entries[index]
    }
}

/// Why `next_table_create` could not hand out a child table. Both conditions
/// are fatal to the caller's operation as a whole: nothing was or can be
/// rolled back, and retrying cannot succeed without outside intervention.
#[derive(Clone, Copy, PartialEq, Eq, Structural, Debug)]
pub enum CreateError {
    /// The entry already carries a huge-page mapping; a child table beneath
    /// it is a structural contradiction.
    HugePages,
    /// The frame allocator is exhausted.
    NoFrames,
}

impl<L: HierarchicalLevel> Table<L> {
    /// The virtual address at which the child table under slot `index` is
    /// visible through the standing recursive mapping, given the virtual
    /// address `table_address` at which this table itself is visible: the
    /// table's own address shifted up one level, with the child-selecting
    /// index in the position just vacated. `None` when the entry holds no
    /// child table (not present, or a huge mapping).
    pub fn next_table_address(&self, table_address: usize, index: usize) -> (r: Option<usize>)
        requires
            self.wf(),
            index < ENTRY_COUNT,
        ensures
            r is Some <==> self@[index as int].points_to_table(),
            r matches Some(a) ==> a == (table_address << 9) | (index << 12),
    {
        let entry_flags = self.entries[index].flags();
        if entry_flags.present && !entry_flags.huge {
            Some((table_address << 9) | (index << 12))
        } else {
            None
        }
    }

    /// Descend to the child table under slot `index`: `Some` exactly when
    /// the entry is present and not a huge mapping, and then the child this
    /// table owns there, itself well formed.
    pub fn next_table(&self, index: usize) -> (r: Option<&Table<L::NextLevel>>)
        requires
            self.wf(),
            index < ENTRY_COUNT,
        ensures
            r is Some <==> self@[index as int].points_to_table(),
            r matches Some(t) ==> self.spec_child(index as int) == Some(*t) && t.wf(),
    {
        proof {
            L::hierarchical_fact();
        }
        let entry_flags = self.entries[index].flags();
        if entry_flags.present && !entry_flags.huge {
            match &self.children[index] {
                Some(c) => {
                    proof {
                        L::child_wf_is_wf(**c);
                    }
                    Some(&**c)
                },
                None => None,
            }
        } else {
            None
        }
    }

    /// Exclusive variant of [`Table::next_table`]: the same decision and the
    /// same child, borrowed mutably. The table stays well formed as long as
    /// the caller leaves the child well formed.
    pub fn next_table_mut(&mut self, index: usize) -> (r: Option<&mut Table<L::NextLevel>>)
        requires
            old(self).wf(),
            index < ENTRY_COUNT,
        ensures
            r is Some <==> old(self)@[index as int].points_to_table(),
            r is None ==> *final(self) == *old(self),
            r matches Some(t) ==> {
                &&& old(self).spec_child(index as int) == Some(*t)
                &&& t.wf()
                &&& final(self)@ == old(self)@
                &&& forall|j: int|
                    0 <= j < ENTRY_COUNT && j != index
                        ==> final(self).spec_child(j) == old(self).spec_child(j)
                &&& final(self).spec_child(index as int) == Some(*final(t))
                &&& (L::child_wf(*final(t)) ==> final(self).wf())
            },
    {
        proof {
            L::hierarchical_fact();
        }
        let entry_flags = self.entries[index].flags();
        if entry_flags.present && !entry_flags.huge {
            match &mut self.children[index] {
                Some(c) => {
                    proof {
                        L::child_wf_is_wf(**c);
                    }
                    Some(&mut **c)
                },
                None => None,
            }
        } else {
            None
        }
    }

    /// Install a fresh child table under slot `index` from the frame
    /// allocator's answer, handed in as a plain value: the one place where
    /// what came back from the allocator is tied, value by value, to what
    /// the table does with it. Exhaustion, and only exhaustion, yields the
    /// no-frames error and leaves the table exactly as it was; a frame is
    /// installed exactly as handed in, with the present and writable flags
    /// set, and the child beneath it is handed back. Nothing is promised
    /// about the fresh child's entries: in the running kernel the backing
    /// frame holds whatever it held before, so the caller must
    /// [`Table::zero`] the child before trusting it.
    pub fn install_child(&mut self, index: usize, frame: Option<Frame>) -> (r: Result<
        &mut Table<L::NextLevel>,
        CreateError,
    >)
        requires
            old(self).wf(),
            index < ENTRY_COUNT,
            !old(self)@[index as int].flags.present,
        ensures
            frame is None <==> (r matches Err(e) && e == CreateError::NoFrames),
            r is Err ==> *final(self) == *old(self) && r->Err_0 == CreateError::NoFrames,
            frame matches Some(f) ==> r is Ok && final(self)@[index as int] == (Entry {
                flags: EntryFlags { present: true, writable: true, huge: false },
                frame_number: f.number,
            }),
            r matches Ok(t) ==> {
                &&& t.wf()
                &&& final(self)@.len() == ENTRY_COUNT
                &&& final(self)@[index as int].points_to_table()
                &&& forall|j: int|
                    0 <= j < ENTRY_COUNT && j != index ==> final(self)@[j] == old(self)@[j]
                &&& forall|j: int|
                    0 <= j < ENTRY_COUNT && j != index
                        ==> final(self).spec_child(j) == old(self).spec_child(j)
                &&& final(self).spec_child(index as int) == Some(*final(t))
                &&& (L::child_wf(*final(t)) ==> final(self).wf())
            },
    {
        proof {
            L::hierarchical_fact();
        }
        match frame {
            None => Err(CreateError::NoFrames),
            Some(f) => {
                self.entries[index].set(f, EntryFlags::present_writable());
                let child: Box<Table<L::NextLevel>> = Box::new(Table::new());
                proof {
                    L::child_wf_is_wf(*child);
                }
                self.children[index] = Some(child);
                match &mut self.children[index] {
                    Some(c) => {
                        proof {
                            L::child_wf_is_wf(**c);
                        }
                        Ok(&mut **c)
                    },
                    None => {
                        proof {
                            assert(false);
                        }
                        Err(CreateError::NoFrames)
                    },
                }
            },
        }
    }

    /// Descend to the child table under slot `index`, first creating and
    /// installing a fresh one when the entry is unused.
    ///
    /// An existing child is returned unchanged and nothing is allocated. An
    /// entry already holding a huge-page mapping is a structural
    /// contradiction: the call fails with [`CreateError::HugePages`] and
    /// touches nothing. When the entry is unused, exactly one frame is
    /// requested from `allocator`; on exhaustion the call fails with
    /// [`CreateError::NoFrames`] and the entry keeps its prior unused state,
    /// otherwise the entry is pointed at the frame with the present and
    /// writable flags set. What is done with the allocator's answer, value
    /// by value, is the contract of [`Table::install_child`], which this
    /// function hands it to; nothing is promised about a fresh child's
    /// entries, so the caller must [`Table::zero`] a child it did not see
    /// before (in the running kernel the backing frame holds whatever it
    /// held before).
    pub fn next_table_create<A: FrameAllocator>(
        &mut self,
        index: usize,
        allocator: &mut A,
    ) -> (r: Result<&mut Table<L::NextLevel>, CreateError>)
        requires
            old(self).wf(),
            index < ENTRY_COUNT,
        ensures
            r is Err ==> *final(self) == *old(self),
            (r matches Err(e) && e == CreateError::HugePages)
                <==> old(self)@[index as int].flags.present
                && old(self)@[index as int].flags.huge,
            (r matches Err(e) && e == CreateError::HugePages)
                ==> *final(allocator) == *old(allocator),
            (r matches Err(e) && e == CreateError::NoFrames)
                ==> !old(self)@[index as int].flags.present,
            old(self)@[index as int].points_to_table()
                ==> r is Ok && *final(allocator) == *old(allocator),
            r matches Ok(t) ==> {
                &&& t.wf()
                &&& old(self)@[index as int].points_to_table() ==> {
                    &&& old(self).spec_child(index as int) == Some(*t)
                    &&& final(self)@ == old(self)@
                }
                &&& final(self)@.len() == ENTRY_COUNT
                &&& final(self)@[index as int].points_to_table()
                &&& !old(self)@[index as int].flags.present ==> final(self)@[index as int].flags
                    == (EntryFlags { present: true, writable: true, huge: false })
                &&& forall|j: int|
                    0 <= j < ENTRY_COUNT && j != index ==> final(self)@[j] == old(self)@[j]
                &&& forall|j: int|
                    0 <= j < ENTRY_COUNT && j != index
                        ==> final(self).spec_child(j) == old(self).spec_child(j)
                &&& final(self).spec_child(index as int) == Some(*final(t))
                &&& (L::child_wf(*final(t)) ==> final(self).wf())
            },
    {
        proof {
            L::hierarchical_fact();
        }
        let entry_flags = self.entries[index].flags();
        if entry_flags.present && entry_flags.huge {
            return Err(CreateError::HugePages);
        }
        if !entry_flags.present {
            let frame = allocator.allocate_frame();
            return self.install_child(index, frame);
        }
        match &mut self.children[index] {
            Some(c) => {
                proof {
                    L::child_wf_is_wf(**c);
                }
                Ok(&mut **c)
            },
            None => {
                proof {
                    assert(false);
                }
                Err(CreateError::NoFrames)
            },
        }
    }

}

/// Creation idempotence, proved over two real calls: descending with
/// creation twice at the same slot with no intervening mutation. When the
/// first call succeeds, the second call returns the same child, allocates
/// no frame and changes nothing: the table and the allocator leave this
/// function exactly as the first call left them (the ghost result is that
/// intermediate state).
pub fn next_table_create_is_idempotent<L: HierarchicalLevel, A: FrameAllocator>(
    t: &mut Table<L>,
    index: usize,
    allocator: &mut A,
) -> (r: (Result<(), CreateError>, Ghost<(Table<L>, A)>))
    requires
        old(t).wf(),
        index < ENTRY_COUNT,
    ensures
        r.0 is Ok ==> {
            &&& final(t)@ == r.1@.0@
            &&& forall|j: int|
                0 <= j < ENTRY_COUNT ==> final(t).spec_child(j) == r.1@.0.spec_child(j)
            &&& *final(allocator) == r.1@.1
            &&& final(t)@[index as int].points_to_table()
            &&& final(t).spec_child(index as int) is Some
        },
{
    let first: Option<CreateError> = match t.next_table_create(index, allocator) {
        Ok(c) => {
            proof {
                L::child_wf_is_wf(*c);
            }
            None
        },
        Err(e) => Some(e),
    };
    let snapshot: Ghost<(Table<L>, A)> = Ghost((*t, *allocator));
    match first {
        Some(e) => (Err(e), snapshot),
        None => {
            match t.next_table_create(index, allocator) {
                Ok(_) => (Ok(()), snapshot),
                Err(_) => {
                    proof {
                        assert(false);
                    }
                    (Ok(()), snapshot)
                },
            }
        },
    }
}

/// Round-trip of clearing: every entry of a freshly created or freshly
/// cleared table reports "not present" at each of its 512 slots, and none
/// of them holds a child table, so descent through any of them reports
/// absence by the contracts of [`Table::next_table`] and
/// [`Table::next_table_mut`].
pub proof fn lemma_cleared_table_reports_absent<L: TableLevel>(t: Table<L>)
    requires
        t@.len() == ENTRY_COUNT,
        forall|i: int| 0 <= i < ENTRY_COUNT ==> t@[i] == Entry::spec_unused(),
    ensures
        forall|i: int| 0 <= i < ENTRY_COUNT ==> !t@[i].flags.present,
        forall|i: int| 0 <= i < ENTRY_COUNT ==> !t@[i].points_to_table(),
{
}

/// Huge-page guard: an entry that is present and marked huge maps a large
/// region directly and never holds a child table, so descent through it
/// reports absence by the contract of [`Table::next_table`], and creation
/// beneath it fails with [`CreateError::HugePages`] by the contract of
/// [`Table::next_table_create`].
pub proof fn lemma_huge_entry_holds_no_table(e: Entry)
    requires
        e.flags.present,
        e.flags.huge,
    ensures
        !e.points_to_table(),
{
}

/// The recursive-mapping address transform of
/// [`Table::next_table_address`]: starting from a page-aligned table
/// address, the child's address is page-aligned again, and the
/// child-selecting index sits alone in the nine bits just above the page
/// offset, so distinct indices yield distinct child addresses.
pub proof fn lemma_next_table_address_encodes_index(table_address: usize, index: usize)
    requires
        index < 512,
        table_address % 4096 == 0,
    ensures
        ((table_address << 9) | (index << 12)) % 4096 == 0,
        (((table_address << 9) | (index << 12)) >> 12) & 511 == index,
{
    assert(((table_address << 9) | (index << 12)) % 4096 == 0
        && (((table_address << 9) | (index << 12)) >> 12) & 511 == index) by (bit_vector)
        requires
            index < 512,
            table_address % 4096 == 0,
    ;
}

} // verus!
