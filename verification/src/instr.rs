//! Slots and the instruction set.

use vstd::prelude::*;

verus! {

/// A byte offset within the current call frame. Slot 0 holds the return value.
#[derive(Debug, Clone, Copy, PartialEq, Eq, Structural)]
pub struct Slot(pub u32);

impl Slot {
    pub fn new(id: u32) -> (r: Slot)
        ensures
            r == Slot(id),
    {
        Slot(id)
    }

    /// The placeholder slot handed out for values of no size.
    pub fn dummy() -> (r: Slot)
        ensures
            r == Slot(0),
    {
        Slot(0)
    }

    pub fn offset(&self) -> (r: usize)
        ensures
            r == self.0,
    {
        self.0 as usize
    }

    pub fn index(&self) -> (r: usize)
        ensures
            r == self.0,
    {
        self.0 as usize
    }

    pub open spec fn shifted(self, n: int) -> Option<Slot> {
        if 0 <= self.0 + n <= u32::MAX {
            Some(Slot((self.0 + n) as u32))
        } else {
            None
        }
    }

    /// The slot `n` bytes further on; `None` when that leaves the frame's range.
    pub fn offset_by(&self, n: i32) -> (r: Option<Slot>)
        ensures
            r == self.shifted(n as int),
    {
        let v: i64 = self.0 as i64 + n as i64;
        if 0 <= v && v <= u32::MAX as i64 {
            Some(Slot(v as u32))
        } else {
            None
        }
    }
}

/// Operand width of an integer instruction.
#[derive(Debug, Clone, Copy, PartialEq, Eq, Structural)]
pub enum Width {
    W8,
    W16,
    W32,
    W64,
    W128,
}

impl Width {
    pub open spec fn bytes_spec(self) -> u32 {
        match self {
            Width::W8 => 1,
            Width::W16 => 2,
            Width::W32 => 4,
            Width::W64 => 8,
            Width::W128 => 16,
        }
    }

    pub fn bytes(&self) -> (r: u32)
        ensures
            r == self.bytes_spec(),
    {
        match self {
            Width::W8 => 1,
            Width::W16 => 2,
            Width::W32 => 4,
            Width::W64 => 8,
            Width::W128 => 16,
        }
    }

    pub open spec fn of_bytes(n: u32) -> Option<Width> {
        if n == 1 {
            Some(Width::W8)
        } else if n == 2 {
            Some(Width::W16)
        } else if n == 4 {
            Some(Width::W32)
        } else if n == 8 {
            Some(Width::W64)
        } else if n == 16 {
            Some(Width::W128)
        } else {
            None
        }
    }

    /// The width of `n` bytes, where an instruction family has one.
    pub fn from_bytes(n: u32) -> (r: Option<Width>)
        ensures
            r == Width::of_bytes(n),
    {
        if n == 1 {
            Some(Width::W8)
        } else if n == 2 {
            Some(Width::W16)
        } else if n == 4 {
            Some(Width::W32)
        } else if n == 8 {
            Some(Width::W64)
        } else if n == 16 {
            Some(Width::W128)
        } else {
            None
        }
    }
}

/// Width of a floating-point instruction.
#[derive(Debug, Clone, Copy, PartialEq, Eq, Structural)]
pub enum FloatWidth {
    F32,
    F64,
}

/// One-operand integer operations.
#[derive(Debug, Clone, Copy, PartialEq, Eq, Structural)]
pub enum IntUnary {
    Neg,
    Not,
}

/// Two-operand integer operations. `S`/`U` mark the sign-aware ones.
#[derive(Debug, Clone, Copy, PartialEq, Eq, Structural)]
pub enum IntBinary {
    Add,
    Sub,
    Mul,
    Or,
    And,
    Xor,
    ShiftL,
    Eq,
    NotEq,
    SLt,
    SLtEq,
    SDiv,
    SRem,
    SShiftR,
    ULt,
    ULtEq,
    UDiv,
    URem,
    UShiftR,
}

/// Two-operand floating-point operations.
#[derive(Debug, Clone, Copy, PartialEq, Eq, Structural)]
pub enum FloatBinary {
    Add,
    Sub,
    Mul,
    Div,
    Rem,
    Eq,
    NotEq,
    Lt,
    LtEq,
    Gt,
    GtEq,
}

/// Handle of a monomorphic function in the machine's function table.
#[derive(Debug, Clone, Copy, PartialEq, Eq, Structural)]
pub struct FuncId(pub u32);

/// One bytecode instruction. Families that exist once per operand width carry
/// the width as their first field; the first slot is the destination.
#[allow(inconsistent_fields)]
#[derive(Debug, Clone, Copy, PartialEq, Eq, Structural)]
pub enum Instr {
    /// Write the low bytes of the literal.
    Const(Width, Slot, i128),
    Unary(Width, IntUnary, Slot, Slot),
    Binary(Width, IntBinary, Slot, Slot, Slot),
    BoolNot(Slot, Slot),
    FloatNeg(FloatWidth, Slot, Slot),
    FloatBinary(FloatWidth, FloatBinary, Slot, Slot, Slot),
    /// Widen an integer of width `from` to the wider `to`.
    Widen { to: Width, from: Width, signed: bool, dst: Slot, src: Slot },
    /// Convert between the two float widths; `to` is the destination's.
    FloatFromFloat { to: FloatWidth, dst: Slot, src: Slot },
    FloatFromInt { to: FloatWidth, from: Width, signed: bool, dst: Slot, src: Slot },
    FloatIntoInt { from: FloatWidth, to: Width, signed: bool, dst: Slot, src: Slot },
    /// Copy `n` bytes from slot to slot.
    MovSS(u32, Slot, Slot),
    /// Copy `n` bytes from a slot to the address held in the first slot, plus the offset.
    MovSP(u32, Slot, Slot, i32),
    /// Copy `n` bytes to a slot from the address held in the second slot, plus the offset.
    MovPS(u32, Slot, Slot, i32),
    /// Write the address of the second slot.
    SlotAddr(Slot, Slot),
    /// Write the address of `arg` plus the byte count held in `offset`.
    SlotAddrOffset { out: Slot, arg: Slot, offset: Slot },
    /// `dst = *src + offset`.
    PointerOffset2(Slot, Slot, i32),
    /// `dst = dst + *src + offset`.
    PointerOffset3(Slot, Slot, i32),
    /// Turn an element index into a byte offset.
    IndexCalc { arg_out: Slot, elem_size: u32, elem_count: u32 },
    IndexCalcDyn { arg_out: Slot, elem_size: u32, elem_count: Slot },
    /// The address one past the last element of a slice.
    IndexCalcEndPointer { out: Slot, slice: Slot, elem_size: u32 },
    /// Fill `count` elements of `size` bytes with copies of the first.
    ArrayRepeat { base: Slot, size: u32, count: u32 },
    /// Compare the byte ranges of two fat pointers.
    MemCompare(Slot, Slot, Slot),
    Jump(i32),
    JumpF(i32, Slot),
    JumpT(i32, Slot),
    Call(Slot, FuncId),
    CallPtr { frame: Slot, func_ptr: Slot },
    VTableFunc(Slot, Slot, u32),
    Return,
    Bad,
    /// A gap left for a jump that is patched in later.
    Skipped,
}

} // verus!
