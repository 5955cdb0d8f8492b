//! Selection of instructions by operand type.

use vstd::prelude::*;
use crate::error::CompileError;
use crate::instr::{FloatBinary, FloatWidth, Instr, IntBinary, IntUnary, Slot, Width};
use crate::ir::{BinaryOp, UnaryOp};
use crate::types::{IntSign, IntWidth, TypeKind};

verus! {

/// How the values of a type take part in arithmetic and comparisons.
#[derive(Debug, Clone, Copy, PartialEq, Eq, Structural)]
pub enum Operand {
    /// An integer of the given width; `true` for signed.
    Int(Width, bool),
    Float(FloatWidth),
}

/// A two-operand instruction without its slots.
#[derive(Debug, Clone, Copy, PartialEq, Eq, Structural)]
pub enum BinaryCtor {
    Int(Width, IntBinary),
    Float(FloatWidth, FloatBinary),
}

impl IntWidth {
    pub open spec fn width_spec(self) -> Width {
        match self {
            IntWidth::I8 => Width::W8,
            IntWidth::I16 => Width::W16,
            IntWidth::I32 => Width::W32,
            IntWidth::I64 => Width::W64,
            IntWidth::I128 => Width::W128,
            IntWidth::ISize => Width::W64,
        }
    }

    /// The instruction width for integers of this type.
    pub fn width(&self) -> (r: Width)
        ensures
            r == self.width_spec(),
    {
        match self {
            IntWidth::I8 => Width::W8,
            IntWidth::I16 => Width::W16,
            IntWidth::I32 => Width::W32,
            IntWidth::I64 => Width::W64,
            IntWidth::I128 => Width::W128,
            IntWidth::ISize => Width::W64,
        }
    }
}

/// Integers operate at their width and sign; `bool` as an unsigned byte,
/// `char` as an unsigned 32-bit integer, pointers as unsigned words.
pub open spec fn operand_of(kind: TypeKind) -> Result<Operand, CompileError> {
    match kind {
        TypeKind::Int(w, s) => Ok(Operand::Int(w.width_spec(), s == IntSign::Signed)),
        TypeKind::Float(f) => Ok(Operand::Float(f)),
        TypeKind::Bool => Ok(Operand::Int(Width::W8, false)),
        TypeKind::Char => Ok(Operand::Int(Width::W32, false)),
        TypeKind::Ref(_, _) => Ok(Operand::Int(Width::W64, false)),
        TypeKind::Ptr(_, _) => Ok(Operand::Int(Width::W64, false)),
        TypeKind::FunctionPointer(_, _) => Ok(Operand::Int(Width::W64, false)),
        _ => Err(CompileError::BadOperand),
    }
}

pub fn operand(kind: TypeKind) -> (r: Result<Operand, CompileError>)
    ensures
        r == operand_of(kind),
{
    match kind {
        TypeKind::Int(w, s) => Ok(Operand::Int(w.width(), s == IntSign::Signed)),
        TypeKind::Float(f) => Ok(Operand::Float(f)),
        TypeKind::Bool => Ok(Operand::Int(Width::W8, false)),
        TypeKind::Char => Ok(Operand::Int(Width::W32, false)),
        TypeKind::Ref(_, _) => Ok(Operand::Int(Width::W64, false)),
        TypeKind::Ptr(_, _) => Ok(Operand::Int(Width::W64, false)),
        TypeKind::FunctionPointer(_, _) => Ok(Operand::Int(Width::W64, false)),
        _ => Err(CompileError::BadOperand),
    }
}

/// The literal instruction for a value of `size` bytes.
pub open spec fn literal_spec(n: i128, size: u32, slot: Slot) -> Result<Instr, CompileError> {
    match Width::of_bytes(size) {
        Some(w) => Ok(Instr::Const(w, slot, n)),
        None => Err(CompileError::BadOperand),
    }
}

pub fn literal(n: i128, size: u32, slot: Slot) -> (r: Result<Instr, CompileError>)
    ensures
        r == literal_spec(n, size, slot),
{
    match Width::from_bytes(size) {
        Some(w) => Ok(Instr::Const(w, slot, n)),
        None => Err(CompileError::BadOperand),
    }
}

/// The copy of `size` bytes from slot to slot; none for values of no size.
pub open spec fn copy_spec(dst: Slot, src: Slot, size: u32) -> Option<Instr> {
    if size == 0 {
        None
    } else {
        Some(Instr::MovSS(size, dst, src))
    }
}

pub fn copy(dst: Slot, src: Slot, size: u32) -> (r: Option<Instr>)
    ensures
        r == copy_spec(dst, src, size),
{
    if size == 0 {
        None
    } else {
        Some(Instr::MovSS(size, dst, src))
    }
}

/// The copy of `size` bytes to a slot from behind a pointer.
pub open spec fn copy_from_ptr_spec(dst: Slot, ptr: Slot, size: u32, offset: i32) -> Option<
    Instr,
> {
    if size == 0 {
        None
    } else {
        Some(Instr::MovPS(size, dst, ptr, offset))
    }
}

pub fn copy_from_ptr(dst: Slot, ptr: Slot, size: u32, offset: i32) -> (r: Option<Instr>)
    ensures
        r == copy_from_ptr_spec(dst, ptr, size, offset),
{
    if size == 0 {
        None
    } else {
        Some(Instr::MovPS(size, dst, ptr, offset))
    }
}

/// The copy of `size` bytes from a slot to behind a pointer.
pub open spec fn copy_to_ptr_spec(ptr: Slot, src: Slot, size: u32, offset: i32) -> Option<Instr> {
    if size == 0 {
        None
    } else {
        Some(Instr::MovSP(size, ptr, src, offset))
    }
}

pub fn copy_to_ptr(ptr: Slot, src: Slot, size: u32, offset: i32) -> (r: Option<Instr>)
    ensures
        r == copy_to_ptr_spec(ptr, src, size, offset),
{
    if size == 0 {
        None
    } else {
        Some(Instr::MovSP(size, ptr, src, offset))
    }
}

/// The instruction for a unary operator on an operand of the given kind.
pub open spec fn unary_spec(op: UnaryOp, kind: TypeKind, dst: Slot, src: Slot) -> Result<
    Instr,
    CompileError,
> {
    match kind {
        TypeKind::Bool => match op {
            UnaryOp::Not => Ok(Instr::BoolNot(dst, src)),
            UnaryOp::Neg => Err(CompileError::BadOperand),
        },
        TypeKind::Int(w, _) => match op {
            UnaryOp::Not => Ok(Instr::Unary(w.width_spec(), IntUnary::Not, dst, src)),
            UnaryOp::Neg => Ok(Instr::Unary(w.width_spec(), IntUnary::Neg, dst, src)),
        },
        TypeKind::Float(f) => match op {
            UnaryOp::Neg => Ok(Instr::FloatNeg(f, dst, src)),
            UnaryOp::Not => Err(CompileError::BadOperand),
        },
        _ => Err(CompileError::BadOperand),
    }
}

pub fn unary(op: UnaryOp, kind: TypeKind, dst: Slot, src: Slot) -> (r: Result<Instr, CompileError>)
    ensures
        r == unary_spec(op, kind, dst, src),
{
    match kind {
        TypeKind::Bool => match op {
            UnaryOp::Not => Ok(Instr::BoolNot(dst, src)),
            UnaryOp::Neg => Err(CompileError::BadOperand),
        },
        TypeKind::Int(w, _) => match op {
            UnaryOp::Not => Ok(Instr::Unary(w.width(), IntUnary::Not, dst, src)),
            UnaryOp::Neg => Ok(Instr::Unary(w.width(), IntUnary::Neg, dst, src)),
        },
        TypeKind::Float(f) => match op {
            UnaryOp::Neg => Ok(Instr::FloatNeg(f, dst, src)),
            UnaryOp::Not => Err(CompileError::BadOperand),
        },
        _ => Err(CompileError::BadOperand),
    }
}

/// The integer instruction for a binary operator, and whether the operands
/// are to be swapped: `a > b` is selected as `b < a`.
pub open spec fn int_binary(op: BinaryOp, signed: bool) -> (IntBinary, bool) {
    match op {
        BinaryOp::Add => (IntBinary::Add, false),
        BinaryOp::Sub => (IntBinary::Sub, false),
        BinaryOp::Mul => (IntBinary::Mul, false),
        BinaryOp::Div => (if signed { IntBinary::SDiv } else { IntBinary::UDiv }, false),
        BinaryOp::Rem => (if signed { IntBinary::SRem } else { IntBinary::URem }, false),
        BinaryOp::BitAnd => (IntBinary::And, false),
        BinaryOp::BitOr => (IntBinary::Or, false),
        BinaryOp::BitXor => (IntBinary::Xor, false),
        BinaryOp::ShiftL => (IntBinary::ShiftL, false),
        BinaryOp::ShiftR => (if signed { IntBinary::SShiftR } else { IntBinary::UShiftR }, false),
        BinaryOp::Eq => (IntBinary::Eq, false),
        BinaryOp::NotEq => (IntBinary::NotEq, false),
        BinaryOp::Lt => (if signed { IntBinary::SLt } else { IntBinary::ULt }, false),
        BinaryOp::LtEq => (if signed { IntBinary::SLtEq } else { IntBinary::ULtEq }, false),
        BinaryOp::Gt => (if signed { IntBinary::SLt } else { IntBinary::ULt }, true),
        BinaryOp::GtEq => (if signed { IntBinary::SLtEq } else { IntBinary::ULtEq }, true),
    }
}

/// The floating-point instruction for a binary operator, where there is one.
pub open spec fn float_binary(op: BinaryOp) -> Option<FloatBinary> {
    match op {
        BinaryOp::Add => Some(FloatBinary::Add),
        BinaryOp::Sub => Some(FloatBinary::Sub),
        BinaryOp::Mul => Some(FloatBinary::Mul),
        BinaryOp::Div => Some(FloatBinary::Div),
        BinaryOp::Rem => Some(FloatBinary::Rem),
        BinaryOp::Eq => Some(FloatBinary::Eq),
        BinaryOp::NotEq => Some(FloatBinary::NotEq),
        BinaryOp::Lt => Some(FloatBinary::Lt),
        BinaryOp::LtEq => Some(FloatBinary::LtEq),
        BinaryOp::Gt => Some(FloatBinary::Gt),
        BinaryOp::GtEq => Some(FloatBinary::GtEq),
        _ => None,
    }
}

/// The instruction for a binary operator on operands of the given kind, and
/// whether the operands are to be swapped.
pub open spec fn binary_spec(op: BinaryOp, kind: TypeKind) -> Result<
    (BinaryCtor, bool),
    CompileError,
> {
    match operand_of(kind) {
        Err(e) => Err(e),
        Ok(Operand::Int(w, signed)) => Ok(
            (BinaryCtor::Int(w, int_binary(op, signed).0), int_binary(op, signed).1),
        ),
        Ok(Operand::Float(f)) => match float_binary(op) {
            Some(fop) => Ok((BinaryCtor::Float(f, fop), false)),
            None => Err(CompileError::BadOperand),
        },
    }
}

fn select_int(op: BinaryOp, signed: bool) -> (r: (IntBinary, bool))
    ensures
        r == int_binary(op, signed),
{
    match op {
        BinaryOp::Add => (IntBinary::Add, false),
        BinaryOp::Sub => (IntBinary::Sub, false),
        BinaryOp::Mul => (IntBinary::Mul, false),
        BinaryOp::Div => (if signed { IntBinary::SDiv } else { IntBinary::UDiv }, false),
        BinaryOp::Rem => (if signed { IntBinary::SRem } else { IntBinary::URem }, false),
        BinaryOp::BitAnd => (IntBinary::And, false),
        BinaryOp::BitOr => (IntBinary::Or, false),
        BinaryOp::BitXor => (IntBinary::Xor, false),
        BinaryOp::ShiftL => (IntBinary::ShiftL, false),
        BinaryOp::ShiftR => (if signed { IntBinary::SShiftR } else { IntBinary::UShiftR }, false),
        BinaryOp::Eq => (IntBinary::Eq, false),
        BinaryOp::NotEq => (IntBinary::NotEq, false),
        BinaryOp::Lt => (if signed { IntBinary::SLt } else { IntBinary::ULt }, false),
        BinaryOp::LtEq => (if signed { IntBinary::SLtEq } else { IntBinary::ULtEq }, false),
        BinaryOp::Gt => (if signed { IntBinary::SLt } else { IntBinary::ULt }, true),
        BinaryOp::GtEq => (if signed { IntBinary::SLtEq } else { IntBinary::ULtEq }, true),
    }
}

fn select_float(op: BinaryOp) -> (r: Option<FloatBinary>)
    ensures
        r == float_binary(op),
{
    match op {
        BinaryOp::Add => Some(FloatBinary::Add),
        BinaryOp::Sub => Some(FloatBinary::Sub),
        BinaryOp::Mul => Some(FloatBinary::Mul),
        BinaryOp::Div => Some(FloatBinary::Div),
        BinaryOp::Rem => Some(FloatBinary::Rem),
        BinaryOp::Eq => Some(FloatBinary::Eq),
        BinaryOp::NotEq => Some(FloatBinary::NotEq),
        BinaryOp::Lt => Some(FloatBinary::Lt),
        BinaryOp::LtEq => Some(FloatBinary::LtEq),
        BinaryOp::Gt => Some(FloatBinary::Gt),
        BinaryOp::GtEq => Some(FloatBinary::GtEq),
        _ => None,
    }
}

pub fn binary(op: BinaryOp, kind: TypeKind) -> (r: Result<(BinaryCtor, bool), CompileError>)
    ensures
        r == binary_spec(op, kind),
{
    match operand(kind)? {
        Operand::Int(w, signed) => {
            let (iop, swap) = select_int(op, signed);
            Ok((BinaryCtor::Int(w, iop), swap))
        },
        Operand::Float(f) => match select_float(op) {
            Some(fop) => Ok((BinaryCtor::Float(f, fop), false)),
            None => Err(CompileError::BadOperand),
        },
    }
}

impl BinaryCtor {
    pub open spec fn make_spec(self, dst: Slot, lhs: Slot, rhs: Slot) -> Instr {
        match self {
            BinaryCtor::Int(w, op) => Instr::Binary(w, op, dst, lhs, rhs),
            BinaryCtor::Float(f, op) => Instr::FloatBinary(f, op, dst, lhs, rhs),
        }
    }

    /// The instruction with its slots.
    pub fn make(&self, dst: Slot, lhs: Slot, rhs: Slot) -> (r: Instr)
        ensures
            r == self.make_spec(dst, lhs, rhs),
    {
        match self {
            BinaryCtor::Int(w, op) => Instr::Binary(*w, *op, dst, lhs, rhs),
            BinaryCtor::Float(f, op) => Instr::FloatBinary(*f, *op, dst, lhs, rhs),
        }
    }

    /// The instruction with its slots, the operands swapped where `swap` says so.
    pub open spec fn make_swapped(self, swap: bool, dst: Slot, lhs: Slot, rhs: Slot) -> Instr {
        if swap {
            self.make_spec(dst, rhs, lhs)
        } else {
            self.make_spec(dst, lhs, rhs)
        }
    }
}

/// The instruction that converts between two types that differ: integers
/// widen by the source's sign or narrow by copying the low bytes; the other
/// pairs convert between integer and float or between the float widths.
pub open spec fn cast_spec(src: TypeKind, dst: TypeKind, d: Slot, s: Slot) -> Result<
    Instr,
    CompileError,
> {
    match (operand_of(src), operand_of(dst)) {
        (Ok(Operand::Int(ws, ss)), Ok(Operand::Int(wd, _))) => if wd.bytes_spec()
            > ws.bytes_spec() {
            Ok(Instr::Widen { to: wd, from: ws, signed: ss, dst: d, src: s })
        } else {
            Ok(Instr::MovSS(wd.bytes_spec(), d, s))
        },
        (Ok(Operand::Int(ws, ss)), Ok(Operand::Float(fd))) => Ok(
            Instr::FloatFromInt { to: fd, from: ws, signed: ss, dst: d, src: s },
        ),
        (Ok(Operand::Float(fs)), Ok(Operand::Int(wd, sd))) => Ok(
            Instr::FloatIntoInt { from: fs, to: wd, signed: sd, dst: d, src: s },
        ),
        (Ok(Operand::Float(fs)), Ok(Operand::Float(fd))) => if fs == fd {
            Ok(Instr::MovSS(fd.bytes_spec(), d, s))
        } else {
            Ok(Instr::FloatFromFloat { to: fd, dst: d, src: s })
        },
        _ => Err(CompileError::BadOperand),
    }
}

pub fn cast(src: TypeKind, dst: TypeKind, d: Slot, s: Slot) -> (r: Result<Instr, CompileError>)
    ensures
        r == cast_spec(src, dst, d, s),
{
    let a = match operand(src) {
        Ok(a) => a,
        Err(_) => {
            return Err(CompileError::BadOperand);
        },
    };
    let b = match operand(dst) {
        Ok(b) => b,
        Err(_) => {
            return Err(CompileError::BadOperand);
        },
    };
    match (a, b) {
        (Operand::Int(ws, ss), Operand::Int(wd, _)) => if wd.bytes() > ws.bytes() {
            Ok(Instr::Widen { to: wd, from: ws, signed: ss, dst: d, src: s })
        } else {
            Ok(Instr::MovSS(wd.bytes(), d, s))
        },
        (Operand::Int(ws, ss), Operand::Float(fd)) => Ok(
            Instr::FloatFromInt { to: fd, from: ws, signed: ss, dst: d, src: s },
        ),
        (Operand::Float(fs), Operand::Int(wd, sd)) => Ok(
            Instr::FloatIntoInt { from: fs, to: wd, signed: sd, dst: d, src: s },
        ),
        (Operand::Float(fs), Operand::Float(fd)) => if fs == fd {
            Ok(Instr::MovSS(fd.bytes(), d, s))
        } else {
            Ok(Instr::FloatFromFloat { to: fd, dst: d, src: s })
        },
    }
}

} // verus!
