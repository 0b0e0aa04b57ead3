use lunatic::collatz::{colatz, hello};

#[test]
fn counts_zero_and_one_immediately() {
    assert_eq!(colatz(0, 5), Some(5));
    assert_eq!(colatz(1, 1), Some(1));
    assert_eq!(colatz(1, 0), Some(0));
}

#[test]
fn counts_six_in_eight_steps() {
    // 6 -> 3 -> 10 -> 5 -> 16 -> 8 -> 4 -> 2 -> 1
    assert_eq!(colatz(6, 1), Some(9));
    assert_eq!(hello(6), Some(9));
}

#[test]
fn counts_seven_in_sixteen_steps() {
    assert_eq!(colatz(7, 0), Some(16));
    assert_eq!(hello(7), Some(17));
}

#[test]
fn counts_powers_of_two_by_halving() {
    assert_eq!(colatz(16, 0), Some(4));
    assert_eq!(colatz(1024, 0), Some(10));
}

#[test]
fn reports_value_overflow_as_none() {
    // u64::MAX is odd, so the very first step would not fit in 64 bits.
    assert_eq!(colatz(u64::MAX, 0), None);
}

#[test]
fn reports_count_overflow_as_none() {
    // 2 -> 1 takes one step, which does not fit on top of a saturated count.
    assert_eq!(colatz(2, u64::MAX), None);
    assert_eq!(colatz(1, u64::MAX), Some(u64::MAX));
}
