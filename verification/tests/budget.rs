use firmament::mcu::budget::Budget;

#[test]
fn new_budget_is_unspent() {
    let b = Budget::new(100);
    assert_eq!(b.allocated(), 100);
    assert_eq!(b.consumed(), 0);
    assert_eq!(b.remaining(), 100);
    assert!(!b.exhausted());
}

#[test]
fn empty_budget_is_exhausted() {
    let b = Budget::new(0);
    assert!(b.exhausted());
    assert_eq!(b.remaining(), 0);
}

#[test]
fn consume_accumulates() {
    let mut b = Budget::new(10);
    b.consume(3);
    b.consume(4);
    assert_eq!(b.consumed(), 7);
    assert_eq!(b.allocated(), 10);
    assert_eq!(b.remaining(), 3);
    assert!(!b.exhausted());
    b.consume(3);
    assert!(b.exhausted());
    assert_eq!(b.remaining(), 0);
}

#[test]
fn overconsumed_budget_goes_negative() {
    let mut b = Budget::new(5);
    b.consume(8);
    assert_eq!(b.remaining(), -3);
    assert!(b.exhausted());
}

#[test]
fn remaining_reads_counters_as_signed() {
    let b = Budget::new(u64::MAX);
    assert_eq!(b.remaining(), -1);
    assert!(!b.exhausted());
    let mut b = Budget::new(u64::MAX);
    b.consume(u64::MAX - 1);
    assert_eq!(b.remaining(), 1);
}

#[test]
fn exhausted_iff_nothing_remains() {
    for (alloc, used) in [(0u64, 0u64), (1, 0), (1, 1), (10, 4), (10, 12), (i64::MAX as u64, 1)] {
        let mut b = Budget::new(alloc);
        b.consume(used);
        assert_eq!(b.exhausted(), b.remaining() <= 0);
    }
}
