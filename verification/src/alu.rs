//! Integer arithmetic of the machine: values are the unsigned readings of
//! little-endian byte runs, and every result is cut to the operand width.

use vstd::prelude::*;
use crate::instr::{IntBinary, IntUnary, Width};

verus! {

impl Width {
    pub open spec fn mask_spec(self) -> u128 {
        match self {
            Width::W8 => 0xffu128,
            Width::W16 => 0xffffu128,
            Width::W32 => 0xffff_ffffu128,
            Width::W64 => 0xffff_ffff_ffff_ffffu128,
            Width::W128 => 0xffff_ffff_ffff_ffff_ffff_ffff_ffff_ffffu128,
        }
    }

    /// The value with all bits of the width set.
    pub fn mask(&self) -> (r: u128)
        ensures
            r == self.mask_spec(),
    {
        match self {
            Width::W8 => 0xffu128,
            Width::W16 => 0xffffu128,
            Width::W32 => 0xffff_ffffu128,
            Width::W64 => 0xffff_ffff_ffff_ffffu128,
            Width::W128 => 0xffff_ffff_ffff_ffff_ffff_ffff_ffff_ffffu128,
        }
    }

    pub open spec fn bits_spec(self) -> u32 {
        match self {
            Width::W8 => 8,
            Width::W16 => 16,
            Width::W32 => 32,
            Width::W64 => 64,
            Width::W128 => 128,
        }
    }

    pub fn bits(&self) -> (r: u32)
        ensures
            r == self.bits_spec(),
    {
        match self {
            Width::W8 => 8,
            Width::W16 => 16,
            Width::W32 => 32,
            Width::W64 => 64,
            Width::W128 => 128,
        }
    }

    /// The low bits of a value, as many as the width has.
    pub open spec fn trunc_spec(self, v: u128) -> u128 {
        v & self.mask_spec()
    }

    pub fn trunc(&self, v: u128) -> (r: u128)
        ensures
            r == self.trunc_spec(v),
    {
        v & self.mask()
    }

    /// The value read as a signed integer of the width.
    pub open spec fn signed_spec(self, v: u128) -> i128 {
        match self {
            Width::W8 => (v as u8 as i8) as i128,
            Width::W16 => (v as u16 as i16) as i128,
            Width::W32 => (v as u32 as i32) as i128,
            Width::W64 => (v as u64 as i64) as i128,
            Width::W128 => v as i128,
        }
    }

    pub fn signed(&self, v: u128) -> (r: i128)
        ensures
            r == self.signed_spec(v),
    {
        match self {
            Width::W8 => (v as u8 as i8) as i128,
            Width::W16 => (v as u16 as i16) as i128,
            Width::W32 => (v as u32 as i32) as i128,
            Width::W64 => (v as u64 as i64) as i128,
            Width::W128 => v as i128,
        }
    }
}

/// One for true, zero for false.
pub open spec fn flag(b: bool) -> u128 {
    if b {
        1
    } else {
        0
    }
}

impl IntBinary {
    /// Whether the result is a truth value of one byte.
    pub open spec fn is_test_spec(self) -> bool {
        self == IntBinary::Eq || self == IntBinary::NotEq || self == IntBinary::SLt || self
            == IntBinary::SLtEq || self == IntBinary::ULt || self == IntBinary::ULtEq
    }

    pub fn is_test(&self) -> (r: bool)
        ensures
            r == self.is_test_spec(),
    {
        match self {
            IntBinary::Eq | IntBinary::NotEq | IntBinary::SLt | IntBinary::SLtEq | IntBinary::ULt
            | IntBinary::ULtEq => true,
            _ => false,
        }
    }
}

/// The shift count that an operand stands for: its value modulo the width's bits.
pub open spec fn shift_count(w: Width, b: u128) -> u32 {
    (b % (w.bits_spec() as u128)) as u32
}

/// The result of a one-operand operation.
pub open spec fn alu1(op: IntUnary, w: Width, a: u128) -> u128 {
    match op {
        IntUnary::Neg => w.trunc_spec(0u128.wrapping_sub(a)),
        IntUnary::Not => w.trunc_spec(!a),
    }
}

/// The result of a two-operand operation on values of the width; `None`
/// for a division by zero. Arithmetic wraps; comparisons give 1 or 0.
pub open spec fn alu2(op: IntBinary, w: Width, a: u128, b: u128) -> Option<u128> {
    match op {
        IntBinary::Add => Some(w.trunc_spec(a.wrapping_add(b))),
        IntBinary::Sub => Some(w.trunc_spec(a.wrapping_sub(b))),
        IntBinary::Mul => Some(w.trunc_spec(a.wrapping_mul(b))),
        IntBinary::Or => Some(w.trunc_spec(a | b)),
        IntBinary::And => Some(w.trunc_spec(a & b)),
        IntBinary::Xor => Some(w.trunc_spec(a ^ b)),
        IntBinary::ShiftL => Some(w.trunc_spec(a << shift_count(w, b))),
        IntBinary::UShiftR => Some(w.trunc_spec(a >> shift_count(w, b))),
        IntBinary::SShiftR => Some(
            w.trunc_spec((w.signed_spec(a) >> shift_count(w, b)) as u128),
        ),
        IntBinary::Eq => Some(flag(a == b)),
        IntBinary::NotEq => Some(flag(a != b)),
        IntBinary::ULt => Some(flag(a < b)),
        IntBinary::ULtEq => Some(flag(a <= b)),
        IntBinary::SLt => Some(flag(w.signed_spec(a) < w.signed_spec(b))),
        IntBinary::SLtEq => Some(flag(w.signed_spec(a) <= w.signed_spec(b))),
        IntBinary::UDiv => if b == 0 {
            None
        } else {
            Some(w.trunc_spec(a / b))
        },
        IntBinary::URem => if b == 0 {
            None
        } else {
            Some(w.trunc_spec(a % b))
        },
        IntBinary::SDiv => if w.signed_spec(b) == 0 {
            None
        } else {
            match w.signed_spec(a).checked_div(w.signed_spec(b)) {
                Some(q) => Some(w.trunc_spec(q as u128)),
                None => Some(w.trunc_spec(a)),
            }
        },
        IntBinary::SRem => if w.signed_spec(b) == 0 {
            None
        } else {
            match w.signed_spec(a).checked_rem(w.signed_spec(b)) {
                Some(q) => Some(w.trunc_spec(q as u128)),
                None => Some(0u128),
            }
        },
    }
}

/// Widening a value of width `from`: by its sign, or by zeros.
pub open spec fn widen(to: Width, from: Width, signed: bool, a: u128) -> u128 {
    if signed {
        to.trunc_spec(from.signed_spec(a) as u128)
    } else {
        to.trunc_spec(a)
    }
}

pub fn shift_amount(w: Width, b: u128) -> (r: u32)
    ensures
        r == shift_count(w, b),
        r < 128,
{
    let bits: u32 = w.bits();
    (b % (bits as u128)) as u32
}

pub fn compute_unary(op: IntUnary, w: Width, a: u128) -> (r: u128)
    ensures
        r == alu1(op, w, a),
{
    match op {
        IntUnary::Neg => w.trunc(0u128.wrapping_sub(a)),
        IntUnary::Not => w.trunc(!a),
    }
}

fn flag_of(b: bool) -> (r: u128)
    ensures
        r == flag(b),
{
    if b {
        1
    } else {
        0
    }
}

pub fn compute_binary(op: IntBinary, w: Width, a: u128, b: u128) -> (r: Option<u128>)
    ensures
        r == alu2(op, w, a, b),
{
    match op {
        IntBinary::Add => Some(w.trunc(a.wrapping_add(b))),
        IntBinary::Sub => Some(w.trunc(a.wrapping_sub(b))),
        IntBinary::Mul => Some(w.trunc(a.wrapping_mul(b))),
        IntBinary::Or => Some(w.trunc(a | b)),
        IntBinary::And => Some(w.trunc(a & b)),
        IntBinary::Xor => Some(w.trunc(a ^ b)),
        IntBinary::ShiftL => {
            let n = shift_amount(w, b);
            Some(w.trunc(a << n))
        },
        IntBinary::UShiftR => {
            let n = shift_amount(w, b);
            Some(w.trunc(a >> n))
        },
        IntBinary::SShiftR => {
            let n = shift_amount(w, b);
            Some(w.trunc((w.signed(a) >> n) as u128))
        },
        IntBinary::Eq => Some(flag_of(a == b)),
        IntBinary::NotEq => Some(flag_of(a != b)),
        IntBinary::ULt => Some(flag_of(a < b)),
        IntBinary::ULtEq => Some(flag_of(a <= b)),
        IntBinary::SLt => Some(flag_of(w.signed(a) < w.signed(b))),
        IntBinary::SLtEq => Some(flag_of(w.signed(a) <= w.signed(b))),
        IntBinary::UDiv => if b == 0 {
            None
        } else {
            Some(w.trunc(a / b))
        },
        IntBinary::URem => if b == 0 {
            None
        } else {
            Some(w.trunc(a % b))
        },
        IntBinary::SDiv => {
            let sb = w.signed(b);
            if sb == 0 {
                None
            } else {
                match w.signed(a).checked_div(sb) {
                    Some(q) => Some(w.trunc(q as u128)),
                    None => Some(w.trunc(a)),
                }
            }
        },
        IntBinary::SRem => {
            let sb = w.signed(b);
            if sb == 0 {
                None
            } else {
                match w.signed(a).checked_rem(sb) {
                    Some(q) => Some(w.trunc(q as u128)),
                    None => Some(0u128),
                }
            }
        },
    }
}

pub fn compute_widen(to: Width, from: Width, signed: bool, a: u128) -> (r: u128)
    ensures
        r == widen(to, from, signed, a),
{
    if signed {
        to.trunc(from.signed(a) as u128)
    } else {
        to.trunc(a)
    }
}

} // verus!
