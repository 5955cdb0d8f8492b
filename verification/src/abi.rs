//! Target constants and alignment arithmetic.

use vstd::prelude::*;

verus! {

/// Size of a thin pointer, in bytes.
pub const POINTER_SIZE: u32 = 8;

/// Alignment of the base of every call frame, in bytes.
pub const CALL_ALIGN: u32 = 16;

/// The least multiple of `a` that is not below `x` (`x` itself when `a` is 0 or 1).
pub open spec fn align_up(x: int, a: int) -> int {
    if a <= 1 {
        x
    } else if x % a == 0 {
        x
    } else {
        x + (a - x % a)
    }
}

/// `align_up` yields a multiple of the alignment, never below the input and
/// less than one alignment above it.
pub proof fn lemma_align_up(x: int, a: int)
    requires
        0 <= x,
        1 <= a,
    ensures
        x <= align_up(x, a) < x + a,
        align_up(x, a) % a == 0,
        x % a == 0 ==> align_up(x, a) == x,
{
    if a > 1 && x % a != 0 {
        let r = x % a;
        assert((x + (a - r)) % a == 0) by (nonlinear_arith)
            requires
                r == x % a,
                a > 1,
                0 <= x,
        ;
    }
}

/// Rounds `x` up to a multiple of `a`; `None` when the result does not fit.
pub fn align(x: u32, a: u32) -> (r: Option<u32>)
    ensures
        r == (if align_up(x as int, a as int) <= u32::MAX {
            Some(align_up(x as int, a as int) as u32)
        } else {
            None
        }),
{
    if a <= 1 {
        return Some(x);
    }
    let rem: u32 = x % a;
    if rem == 0 {
        Some(x)
    } else {
        let pad: u32 = a - rem;
        if x <= u32::MAX - pad {
            Some(x + pad)
        } else {
            None
        }
    }
}

} // verus!
