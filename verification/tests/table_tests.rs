use paging::entry::{Entry, EntryFlags, Frame, FrameAllocator};
use paging::table::{next_table_create_is_idempotent, CreateError, Level1, Level2, Level3, Level4, Table, ENTRY_COUNT};

/// Hands out distinct frames and counts how many were taken.
struct CountingAllocator {
    next: u64,
    count: usize,
}

impl FrameAllocator for CountingAllocator {
    fn allocate_frame(&mut self) -> Option<Frame> {
        let frame = Frame { number: self.next };
        self.next += 100;
        self.count += 1;
        Some(frame)
    }
}

/// An exhausted allocator: never a frame.
struct EmptyAllocator;

impl FrameAllocator for EmptyAllocator {
    fn allocate_frame(&mut self) -> Option<Frame> {
        None
    }
}

fn huge_flags() -> EntryFlags {
    EntryFlags { present: true, writable: false, huge: true }
}

#[test]
fn fresh_table_reports_not_present_everywhere() {
    let table: Table<Level4> = Table::new();
    for i in 0..ENTRY_COUNT {
        assert!(!table.index(i).flags().present);
        assert_eq!(table.index(i).pointed_frame(), None);
    }
}

#[test]
fn zero_clears_every_entry() {
    let mut table: Table<Level1> = Table::new();
    for i in 0..ENTRY_COUNT {
        table
            .index_mut(i)
            .set(Frame { number: i as u64 }, EntryFlags::present_writable());
    }
    table.zero();
    for i in 0..ENTRY_COUNT {
        assert!(!table.index(i).flags().present);
        assert_eq!(table.index(i).pointed_frame(), None);
    }
}

#[test]
fn descend_on_cleared_entry_is_absent_at_every_hierarchical_level() {
    let mut p4: Table<Level4> = Table::new();
    let mut p3: Table<Level3> = Table::new();
    let mut p2: Table<Level2> = Table::new();
    for i in [0, 1, 255, 511] {
        assert!(p4.next_table(i).is_none());
        assert!(p3.next_table(i).is_none());
        assert!(p2.next_table(i).is_none());
        assert!(p4.next_table_mut(i).is_none());
        assert!(p3.next_table_mut(i).is_none());
        assert!(p2.next_table_mut(i).is_none());
    }
}

#[test]
fn huge_entry_descends_absent() {
    let mut p4: Table<Level4> = Table::new();
    p4.index_mut(3).set(Frame { number: 8 }, huge_flags());
    assert!(p4.next_table(3).is_none());
    assert!(p4.next_table_mut(3).is_none());
}

#[test]
fn create_under_huge_entry_fails_without_allocating() {
    let mut p4: Table<Level4> = Table::new();
    p4.index_mut(3).set(Frame { number: 8 }, huge_flags());
    let mut allocator = CountingAllocator { next: 1000, count: 0 };
    let result = p4.next_table_create(3, &mut allocator);
    assert!(matches!(result, Err(CreateError::HugePages)));
    assert_eq!(allocator.count, 0);
    // the entry keeps its huge mapping untouched
    assert_eq!(p4.index(3).pointed_frame(), Some(Frame { number: 8 }));
    assert!(p4.index(3).flags().huge);
}

#[test]
fn create_is_idempotent_and_allocates_once() {
    let mut p4: Table<Level4> = Table::new();
    let mut allocator = CountingAllocator { next: 1000, count: 0 };

    let child = p4.next_table_create(3, &mut allocator).unwrap();
    child.zero();
    // leave a marker in the child so the second call can be seen to return it
    child.index_mut(9).set(Frame { number: 77 }, huge_flags());
    assert_eq!(allocator.count, 1);

    let again = p4.next_table_create(3, &mut allocator).unwrap();
    assert_eq!(allocator.count, 1);
    assert_eq!(again.index(9).pointed_frame(), Some(Frame { number: 77 }));
    assert!(again.index(9).flags().huge);
}

#[test]
fn exhausted_allocator_fails_and_leaves_entry_unused() {
    let mut p4: Table<Level4> = Table::new();
    let mut allocator = EmptyAllocator;
    let result = p4.next_table_create(7, &mut allocator);
    assert!(matches!(result, Err(CreateError::NoFrames)));
    assert!(!p4.index(7).flags().present);
    assert_eq!(p4.index(7).pointed_frame(), None);
    assert!(p4.next_table(7).is_none());
}

#[test]
fn created_entry_is_present_and_writable() {
    let mut p4: Table<Level4> = Table::new();
    let mut allocator = CountingAllocator { next: 4096, count: 0 };
    let _ = p4.next_table_create(11, &mut allocator).unwrap();
    let flags = p4.index(11).flags();
    assert!(flags.present);
    assert!(flags.writable);
    assert!(!flags.huge);
    assert_eq!(p4.index(11).pointed_frame(), Some(Frame { number: 4096 }));
}

#[test]
fn next_table_address_follows_the_recursive_mapping_transform() {
    let mut p4: Table<Level4> = Table::new();
    assert_eq!(p4.next_table_address(0, 3), None);
    p4.index_mut(3)
        .set(Frame { number: 1 }, EntryFlags::present_writable());
    // the child-selecting index lands just above the 12-bit page offset
    assert_eq!(p4.next_table_address(0, 3), Some(3 << 12));
    let base: usize = 0o177777_777_777_777_777_0000;
    assert_eq!(p4.next_table_address(base, 3), Some((base << 9) | (3 << 12)));
    // a huge mapping has no child address
    p4.index_mut(4).set(Frame { number: 2 }, huge_flags());
    assert_eq!(p4.next_table_address(base, 4), None);
}

#[test]
fn end_to_end_walk_creates_three_tables_and_maps_a_page() {
    let mut p4: Table<Level4> = Table::new();
    let mut allocator = CountingAllocator { next: 100, count: 0 };

    let p3 = p4.next_table_create(3, &mut allocator).unwrap();
    p3.zero();
    let p2 = p3.next_table_create(7, &mut allocator).unwrap();
    p2.zero();
    let p1 = p2.next_table_create(0, &mut allocator).unwrap();
    p1.zero();
    assert_eq!(allocator.count, 3);

    p1.index_mut(5)
        .set(Frame { number: 424242 }, EntryFlags::present_writable());
    assert_eq!(p1.index(5).pointed_frame(), Some(Frame { number: 424242 }));
    assert_eq!(p1.index(5).flags(), EntryFlags::present_writable());

    // the walk is still in place when repeated without creation
    let p3b = p4.next_table(3).unwrap();
    let p2b = p3b.next_table(7).unwrap();
    let p1b = p2b.next_table(0).unwrap();
    assert_eq!(p1b.index(5).pointed_frame(), Some(Frame { number: 424242 }));
    assert!(p1b.index(5).flags().present);
    assert!(p1b.index(5).flags().writable);
}

#[test]
fn entries_outside_the_created_slot_stay_unused() {
    let mut p4: Table<Level4> = Table::new();
    let mut allocator = CountingAllocator { next: 100, count: 0 };
    let _ = p4.next_table_create(3, &mut allocator).unwrap();
    for i in 0..ENTRY_COUNT {
        if i != 3 {
            assert!(!p4.index(i).flags().present);
        }
    }
}

#[test]
fn unused_entry_spec_matches_runtime_unused() {
    let e = Entry::unused();
    let mut table: Table<Level1> = Table::new();
    assert_eq!(*table.index(0), e);
    table.index_mut(0).set(Frame { number: 1 }, EntryFlags::present_writable());
    table.index_mut(0).set_unused();
    assert_eq!(*table.index(0), e);
}

#[test]
fn idempotence_law_runs_and_allocates_once() {
    let mut p4: Table<Level4> = Table::new();
    let mut allocator = CountingAllocator { next: 1, count: 0 };
    let (result, _mid) = next_table_create_is_idempotent(&mut p4, 3, &mut allocator);
    assert!(result.is_ok());
    assert_eq!(allocator.count, 1);
    assert!(p4.next_table(3).is_some());
}

#[test]
fn install_child_without_a_frame_reports_exhaustion_and_changes_nothing() {
    let mut p4: Table<Level4> = Table::new();
    let result = p4.install_child(6, None);
    assert!(matches!(result, Err(CreateError::NoFrames)));
    assert!(!p4.index(6).flags().present);
    assert!(p4.next_table(6).is_none());
}

#[test]
fn install_child_points_the_entry_at_the_handed_in_frame() {
    let mut p4: Table<Level4> = Table::new();
    let result = p4.install_child(6, Some(Frame { number: 8080 }));
    assert!(result.is_ok());
    assert_eq!(p4.index(6).pointed_frame(), Some(Frame { number: 8080 }));
    let flags = p4.index(6).flags();
    assert!(flags.present && flags.writable && !flags.huge);
    assert!(p4.next_table(6).is_some());
}
