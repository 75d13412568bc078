//! Small helpers for checked arithmetic on cumulative statistics.
use vstd::prelude::*;

verus! {

/// Safely increment a `u64`: the incremented value and `false`, or `(0, true)`
/// when the increment would overflow.
pub fn safe_inc_u64(v: u64) -> (r: (u64, bool))
    ensures
        v < u64::MAX ==> r.0 == v + 1 && !r.1,
        v == u64::MAX ==> r == (0u64, true),
{
    match v.checked_add(1) {
        Some(n) => (n, false),
        None => (0u64, true),
    }
}

/// Safely increment a `u32`: the incremented value and `false`, or `(0, true)`
/// when the increment would overflow.
pub fn safe_inc_u32(v: u32) -> (r: (u32, bool))
    ensures
        v < u32::MAX ==> r.0 == v + 1 && !r.1,
        v == u32::MAX ==> r == (0u32, true),
{
    match v.checked_add(1) {
        Some(n) => (n, false),
        None => (0u32, true),
    }
}

/// Safely add two `i128` values: the sum and `false`, or `(0, true)` when
/// the sum leaves the range of `i128`.
pub fn safe_add_i128(a: i128, b: i128) -> (r: (i128, bool))
    ensures
        i128::MIN <= a + b <= i128::MAX ==> r.0 == a + b && !r.1,
        !(i128::MIN <= a + b <= i128::MAX) ==> r == (0i128, true),
{
    match a.checked_add(b) {
        Some(n) => (n, false),
        None => (0i128, true),
    }
}

/// Division of non-negative `a` by positive `b`, rounded toward zero.
pub open spec fn pos_div(a: int, b: int) -> int {
    if a >= 0 { a / b } else { -((-a) / b) }
}

/// Integer division rounded toward zero, as `/` on machine integers does.
pub open spec fn trunc_div(a: int, b: int) -> int {
    if b < 0 { -pos_div(a, -b) } else { pos_div(a, b) }
}

/// `a / b` on `i128`: the quotient rounded toward zero.
pub fn div_i128(a: i128, b: i128) -> (q: i128)
    requires
        b != 0,
        !(a == i128::MIN && b == -1),
    ensures
        q == trunc_div(a as int, b as int),
{
    if b > 0 {
        a / b
    } else if b == i128::MIN {
        if a == i128::MIN { 1 } else {
            assert(a >= 0 ==> (a as int) / 0x8000_0000_0000_0000_0000_0000_0000_0000int == 0);
            assert(a < 0 ==> (-(a as int)) / 0x8000_0000_0000_0000_0000_0000_0000_0000int == 0);
            0
        }
    } else {
        let nb: i128 = -b;
        let q: i128 = a / nb;
        assert(q == pos_div(a as int, nb as int));
        assert(q != i128::MIN) by {
            if nb >= 2 && a < 0 {
                assert((-(a as int)) / (nb as int) < 0x8000_0000_0000_0000_0000_0000_0000_0000int) by (nonlinear_arith)
                    requires nb >= 2, -(a as int) <= 0x8000_0000_0000_0000_0000_0000_0000_0000int;
            }
        }
        -q
    }
}

} // verus!
