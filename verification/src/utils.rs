//! Small helpers for cyclic selection indices.

use vstd::prelude::*;

verus! {

/// The successor of `x` in the cycle `0, 1, .., max - 1`.
pub open spec fn next_wrapping(x: nat, max: nat) -> nat {
    if max == 0 {
        x
    } else {
        (x + 1) % max
    }
}

/// The predecessor of `x` in the cycle `0, 1, .., max - 1`.
pub open spec fn prev_wrapping(x: nat, max: nat) -> nat {
    if max == 0 {
        x
    } else if x == 0 {
        (max - 1) as nat
    } else {
        ((x - 1) as nat) % max
    }
}

/// Advances `x` by one, wrapping to zero at `max`. With `max == 0` there is
/// no cycle to walk and `x` is left as it is.
pub fn increment_wrapping(x: &mut usize, max: usize)
    ensures
        *final(x) == next_wrapping(*old(x) as nat, max as nat),
        max > 0 ==> *final(x) < max,
{
    if max == 0 {
        return ;
    }
    let cur: usize = *x;
    if cur == usize::MAX {
        // (usize::MAX + 1) % max, computed without leaving the machine range.
        let r: usize = ((cur % max) + 1) % max;
        assert(r == (cur + 1) % (max as int)) by {
            vstd::arithmetic::div_mod::lemma_add_mod_noop(cur as int, 1, max as int);
            if max == 1 {
                assert((cur + 1) % 1 == 0);
            } else {
                vstd::arithmetic::div_mod::lemma_small_mod(1, max as nat);
            }
        }
        *x = r;
    } else {
        *x = (cur + 1) % max;
    }
}

/// Steps `x` back by one, wrapping from zero to `max - 1`. With `max == 0`
/// there is no cycle to walk and `x` is left as it is.
pub fn decrement_wrapping(x: &mut usize, max: usize)
    ensures
        *final(x) == prev_wrapping(*old(x) as nat, max as nat),
        max > 0 ==> *final(x) < max,
{
    if max == 0 {
        return ;
    }
    let cur: usize = *x;
    *x = if cur == 0 {
        max - 1
    } else {
        (cur - 1) % max
    };
}

/// Stepping forward and then back returns to the start, for every index
/// inside the cycle.
pub proof fn lemma_increment_then_decrement(x: nat, max: nat)
    requires
        x < max,
    ensures
        prev_wrapping(next_wrapping(x, max), max) == x,
{
    if x + 1 == max {
        assert((x + 1) % max == 0) by (nonlinear_arith)
            requires
                x + 1 == max,
                max > 0,
        ;
    } else {
        assert((x + 1) % max == x + 1) by (nonlinear_arith)
            requires
                x + 1 < max,
        ;
        assert(x % max == x) by (nonlinear_arith)
            requires
                x < max,
        ;
    }
}

} // verus!
