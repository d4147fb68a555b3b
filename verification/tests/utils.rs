use persisten_tui::utils::{decrement_wrapping, increment_wrapping};

#[test]
fn increment_wraps_at_max() {
    let mut x: usize = 0;
    increment_wrapping(&mut x, 3);
    assert_eq!(x, 1);
    increment_wrapping(&mut x, 3);
    assert_eq!(x, 2);
    increment_wrapping(&mut x, 3);
    assert_eq!(x, 0);
}

#[test]
fn decrement_wraps_at_zero() {
    let mut x: usize = 0;
    decrement_wrapping(&mut x, 3);
    assert_eq!(x, 2);
    decrement_wrapping(&mut x, 3);
    assert_eq!(x, 1);
    decrement_wrapping(&mut x, 3);
    assert_eq!(x, 0);
}

#[test]
fn zero_max_leaves_the_index() {
    let mut x: usize = 5;
    increment_wrapping(&mut x, 0);
    assert_eq!(x, 5);
    decrement_wrapping(&mut x, 0);
    assert_eq!(x, 5);
}

#[test]
fn index_outside_the_cycle_is_reduced() {
    let mut x: usize = 7;
    increment_wrapping(&mut x, 3);
    assert_eq!(x, 2);
    let mut y: usize = 7;
    decrement_wrapping(&mut y, 3);
    assert_eq!(y, 0);
    let mut z: usize = usize::MAX;
    increment_wrapping(&mut z, 10);
    assert_eq!(z, ((usize::MAX % 10) + 1) % 10);
}

#[test]
fn increment_then_decrement_returns() {
    for max in 1..6usize {
        for start in 0..max {
            let mut x = start;
            increment_wrapping(&mut x, max);
            decrement_wrapping(&mut x, max);
            assert_eq!(x, start);
        }
    }
}
