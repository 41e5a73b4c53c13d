use embassy::util::critical_section::{critical_section, InterruptMask};
use embassy::util::forever::Forever;

#[test]
fn put_stores_the_value_in_place() {
    let mut cell: Forever<u32> = Forever::new();
    assert!(!cell.is_written());
    assert_eq!(cell.get(), None);
    let stored = cell.put(11);
    assert_eq!(*stored, 11);
    *stored = 12;
    assert!(cell.is_written());
    assert_eq!(cell.get(), Some(&12));
}

#[test]
fn nested_sections_keep_interrupts_masked() {
    let mut mask = InterruptMask::new();
    assert!(!mask.is_masked());
    let outer = mask.enter();
    let inner = mask.enter();
    assert_eq!(mask.depth(), 2);
    mask.exit(inner);
    // The outer scope is still open.
    assert!(mask.is_masked());
    mask.exit(outer);
    assert!(!mask.is_masked());
    assert_eq!(mask.depth(), 0);
}

#[test]
fn critical_section_restores_the_mask() {
    let mut mask = InterruptMask::new();
    let result = critical_section(&mut mask, |_token| 5u8);
    assert_eq!(result, 5);
    assert!(!mask.is_masked());
    let outer = mask.enter();
    let result = critical_section(&mut mask, |_token| 6u8);
    assert_eq!(result, 6);
    assert!(mask.is_masked());
    mask.exit(outer);
}
