use paging::entry::{Entry, EntryFlags, Frame};

#[test]
fn unused_entry_maps_nothing() {
    let e = Entry::unused();
    assert!(!e.flags().present);
    assert!(!e.flags().writable);
    assert!(!e.flags().huge);
    assert_eq!(e.pointed_frame(), None);
}

#[test]
fn set_then_read_back_frame_and_flags() {
    let mut e = Entry::unused();
    let flags = EntryFlags { present: true, writable: true, huge: false };
    e.set(Frame { number: 42 }, flags);
    assert_eq!(e.flags(), flags);
    assert_eq!(e.pointed_frame(), Some(Frame { number: 42 }));
}

#[test]
fn set_unused_clears_a_set_entry() {
    let mut e = Entry::unused();
    e.set(Frame { number: 7 }, EntryFlags::present_writable());
    e.set_unused();
    assert!(!e.flags().present);
    assert_eq!(e.pointed_frame(), None);
}

#[test]
fn non_present_entry_points_to_no_frame() {
    let mut e = Entry::unused();
    // flags carry no frame while not present
    e.set(Frame { number: 9 }, EntryFlags::empty());
    assert_eq!(e.pointed_frame(), None);
}

#[test]
fn flag_constructors() {
    let empty = EntryFlags::empty();
    assert!(!empty.present && !empty.writable && !empty.huge);
    let pw = EntryFlags::present_writable();
    assert!(pw.present && pw.writable && !pw.huge);
}
