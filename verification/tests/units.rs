use skitter::abi::{align, CALL_ALIGN, POINTER_SIZE};
use skitter::alu::{compute_binary, compute_unary, compute_widen};
use skitter::error::CompileError;
use skitter::instr::{FloatBinary, FloatWidth, Instr, IntBinary, IntUnary, Slot, Width};
use skitter::ir::{BinaryOp, UnaryOp};
use skitter::memory::{bytes, load, store, value};
use skitter::select::{binary, cast, copy, copy_from_ptr, copy_to_ptr, literal, unary, BinaryCtor};
use skitter::stack::{CallFrame, CompilerStack, Place, PointerKind};
use skitter::types::{IntSign, IntWidth, Layout, Mutability, Type, TypeKind};

fn scalar(size: u32, align: u32) -> Layout {
    Layout::new_scalar(size, align)
}

#[test]
fn align_rounds_up_to_multiples() {
    assert_eq!(align(0, 8), Some(0));
    assert_eq!(align(1, 8), Some(8));
    assert_eq!(align(8, 8), Some(8));
    assert_eq!(align(9, 4), Some(12));
    assert_eq!(align(13, 1), Some(13));
    assert_eq!(align(13, 0), Some(13));
    assert_eq!(align(17, CALL_ALIGN), Some(32));
    assert_eq!(align(u32::MAX, 16), None);
    assert_eq!(POINTER_SIZE, 8);
}

#[test]
fn slot_offsets() {
    assert_eq!(Slot::new(12), Slot(12));
    assert_eq!(Slot::new(12).offset(), 12);
    assert_eq!(Slot::new(12).index(), 12);
    assert_eq!(Slot::dummy(), Slot(0));
    assert_eq!(Slot(12).offset_by(8), Some(Slot(20)));
    assert_eq!(Slot(12).offset_by(-12), Some(Slot(0)));
    assert_eq!(Slot(12).offset_by(-13), None);
    assert_eq!(Slot(u32::MAX).offset_by(1), None);
}

#[test]
fn place_offsets() {
    assert_eq!(Place::Local(Slot(8)).offset_by(4), Some(Place::Local(Slot(12))));
    assert_eq!(
        Place::Ptr(Slot(8), 4, PointerKind::Fat).offset_by(-12),
        Some(Place::Ptr(Slot(8), -8, PointerKind::Fat))
    );
    assert_eq!(Place::Ptr(Slot(8), i32::MAX, PointerKind::Thin).offset_by(1), None);
    assert_eq!(Place::Local(Slot(0)).offset_by(-1), None);
    assert!(PointerKind::Fat.is_fat());
    assert!(!PointerKind::Fat.is_thin());
    assert!(PointerKind::Thin.is_thin());
    assert!(!PointerKind::Thin.is_fat());
}

#[test]
fn stack_allocates_aligned_regions() {
    let mut s = CompilerStack::new();
    assert_eq!(s.alloc_slot(scalar(1, 1)), Ok(Slot(0)));
    assert_eq!(s.alloc_slot(scalar(4, 4)), Ok(Slot(4)));
    assert_eq!(s.alloc_slot(scalar(1, 1)), Ok(Slot(8)));
    assert_eq!(s.alloc_slot(scalar(8, 8)), Ok(Slot(16)));
    assert_eq!(s.top, 24);
    assert_eq!(s.align_for_call(), Ok(Slot(32)));
    assert_eq!(s.top, 32);
    assert_eq!(s.entries.len(), 4);
    assert_eq!(s.align(64), Ok(()));
    assert_eq!(s.top, 64);
}

#[test]
fn stack_scopes_restore_the_top() {
    let mut s = CompilerStack::new();
    s.alloc_slot(scalar(4, 4)).unwrap();
    let outer = s.push_scope("outer").unwrap();
    s.alloc_slot(scalar(8, 8)).unwrap();
    let inner = s.push_scope("inner").unwrap();
    s.alloc_slot(scalar(16, 16)).unwrap();
    assert_eq!(s.top, 32);
    assert_eq!(s.pop_scope(outer), Err(CompileError::ScopeOrder));
    assert_eq!(s.pop_scope(inner), Ok(()));
    assert_eq!(s.top, 16);
    assert_eq!(s.entries.len(), 2);
    assert_eq!(s.pop_scope(outer), Ok(()));
    assert_eq!(s.top, 4);
    assert_eq!(s.entries.len(), 1);
    assert_eq!(s.pop_scope(outer), Err(CompileError::ScopeOrder));
}

#[test]
fn stack_rejects_what_it_cannot_hold() {
    let mut s = CompilerStack::new();
    let mut dropping = scalar(8, 8);
    dropping.needs_drop = true;
    assert_eq!(s.alloc_slot(dropping), Err(CompileError::DropObligation));
    assert_eq!(s.alloc_no_drop(dropping), Ok(Slot(0)));
    assert_eq!(s.alloc_slot(Layout::new_unsized()), Err(CompileError::Unsized));
    assert_eq!(s.alloc_slot(scalar(u32::MAX, 1)), Err(CompileError::TooLarge));
    assert_eq!(s.top, 8);
}

#[test]
fn call_frame_allocates_like_the_stack() {
    let mut f = CallFrame::new();
    assert_eq!(f.alloc_slot(scalar(4, 4)), Ok(Slot(0)));
    assert_eq!(f.alloc_slot(scalar(8, 8)), Ok(Slot(8)));
    assert_eq!(f.align(16), Ok(()));
    assert_eq!(f.top, 16);
    assert_eq!(f.alloc_slot(Layout::new_unsized()), Err(CompileError::Unsized));
    assert_eq!(f.alloc_slot(scalar(u32::MAX, 1)), Err(CompileError::TooLarge));
}

#[test]
fn literal_selects_by_size() {
    assert_eq!(literal(7, 1, Slot(3)), Ok(Instr::Const(Width::W8, Slot(3), 7)));
    assert_eq!(literal(7, 2, Slot(3)), Ok(Instr::Const(Width::W16, Slot(3), 7)));
    assert_eq!(literal(-1, 4, Slot(3)), Ok(Instr::Const(Width::W32, Slot(3), -1)));
    assert_eq!(literal(7, 8, Slot(3)), Ok(Instr::Const(Width::W64, Slot(3), 7)));
    assert_eq!(literal(7, 16, Slot(3)), Ok(Instr::Const(Width::W128, Slot(3), 7)));
    assert_eq!(literal(7, 3, Slot(3)), Err(CompileError::BadOperand));
    assert_eq!(literal(7, 0, Slot(3)), Err(CompileError::BadOperand));
}

#[test]
fn copies_of_no_size_are_left_out() {
    assert_eq!(copy(Slot(1), Slot(2), 0), None);
    assert_eq!(copy(Slot(1), Slot(2), 12), Some(Instr::MovSS(12, Slot(1), Slot(2))));
    assert_eq!(copy_from_ptr(Slot(1), Slot(2), 0, 4), None);
    assert_eq!(copy_from_ptr(Slot(1), Slot(2), 4, -4), Some(Instr::MovPS(4, Slot(1), Slot(2), -4)));
    assert_eq!(copy_to_ptr(Slot(1), Slot(2), 0, 4), None);
    assert_eq!(copy_to_ptr(Slot(1), Slot(2), 8, 16), Some(Instr::MovSP(8, Slot(1), Slot(2), 16)));
}

#[test]
fn binary_selects_by_sign_and_width() {
    let i32k = TypeKind::Int(IntWidth::I32, IntSign::Signed);
    let u8k = TypeKind::Int(IntWidth::I8, IntSign::Unsigned);
    assert_eq!(binary(BinaryOp::Add, i32k), Ok((BinaryCtor::Int(Width::W32, IntBinary::Add), false)));
    assert_eq!(binary(BinaryOp::Div, i32k), Ok((BinaryCtor::Int(Width::W32, IntBinary::SDiv), false)));
    assert_eq!(binary(BinaryOp::Div, u8k), Ok((BinaryCtor::Int(Width::W8, IntBinary::UDiv), false)));
    assert_eq!(binary(BinaryOp::ShiftR, u8k), Ok((BinaryCtor::Int(Width::W8, IntBinary::UShiftR), false)));
    assert_eq!(binary(BinaryOp::Lt, i32k), Ok((BinaryCtor::Int(Width::W32, IntBinary::SLt), false)));
    assert_eq!(binary(BinaryOp::Gt, i32k), Ok((BinaryCtor::Int(Width::W32, IntBinary::SLt), true)));
    assert_eq!(binary(BinaryOp::GtEq, u8k), Ok((BinaryCtor::Int(Width::W8, IntBinary::ULtEq), true)));
    assert_eq!(
        binary(BinaryOp::Eq, TypeKind::Bool),
        Ok((BinaryCtor::Int(Width::W8, IntBinary::Eq), false))
    );
    assert_eq!(
        binary(BinaryOp::Lt, TypeKind::Char),
        Ok((BinaryCtor::Int(Width::W32, IntBinary::ULt), false))
    );
    assert_eq!(
        binary(BinaryOp::Gt, TypeKind::Float(FloatWidth::F64)),
        Ok((BinaryCtor::Float(FloatWidth::F64, FloatBinary::Gt), false))
    );
    assert_eq!(binary(BinaryOp::BitAnd, TypeKind::Float(FloatWidth::F32)), Err(CompileError::BadOperand));
    assert_eq!(binary(BinaryOp::Add, TypeKind::StringSlice), Err(CompileError::BadOperand));
    assert_eq!(
        BinaryCtor::Int(Width::W8, IntBinary::Add).make(Slot(1), Slot(2), Slot(3)),
        Instr::Binary(Width::W8, IntBinary::Add, Slot(1), Slot(2), Slot(3))
    );
}

#[test]
fn unary_and_cast_selection() {
    let i32k = TypeKind::Int(IntWidth::I32, IntSign::Signed);
    let i64k = TypeKind::Int(IntWidth::I64, IntSign::Signed);
    let u8k = TypeKind::Int(IntWidth::I8, IntSign::Unsigned);
    let f32k = TypeKind::Float(FloatWidth::F32);
    let f64k = TypeKind::Float(FloatWidth::F64);
    let (d, s) = (Slot(0), Slot(8));
    assert_eq!(unary(UnaryOp::Neg, i32k, d, s), Ok(Instr::Unary(Width::W32, IntUnary::Neg, d, s)));
    assert_eq!(unary(UnaryOp::Not, TypeKind::Bool, d, s), Ok(Instr::BoolNot(d, s)));
    assert_eq!(unary(UnaryOp::Neg, TypeKind::Bool, d, s), Err(CompileError::BadOperand));
    assert_eq!(unary(UnaryOp::Neg, f32k, d, s), Ok(Instr::FloatNeg(FloatWidth::F32, d, s)));
    assert_eq!(unary(UnaryOp::Not, f32k, d, s), Err(CompileError::BadOperand));
    assert_eq!(
        cast(i32k, i64k, d, s),
        Ok(Instr::Widen { to: Width::W64, from: Width::W32, signed: true, dst: d, src: s })
    );
    assert_eq!(
        cast(u8k, i32k, d, s),
        Ok(Instr::Widen { to: Width::W32, from: Width::W8, signed: false, dst: d, src: s })
    );
    assert_eq!(cast(i64k, u8k, d, s), Ok(Instr::MovSS(1, d, s)));
    assert_eq!(
        cast(i32k, f64k, d, s),
        Ok(Instr::FloatFromInt { to: FloatWidth::F64, from: Width::W32, signed: true, dst: d, src: s })
    );
    assert_eq!(
        cast(f32k, u8k, d, s),
        Ok(Instr::FloatIntoInt { from: FloatWidth::F32, to: Width::W8, signed: false, dst: d, src: s })
    );
    assert_eq!(cast(f32k, f64k, d, s), Ok(Instr::FloatFromFloat { to: FloatWidth::F64, dst: d, src: s }));
    assert_eq!(cast(f32k, f32k, d, s), Ok(Instr::MovSS(4, d, s)));
    assert_eq!(cast(TypeKind::StringSlice, i32k, d, s), Err(CompileError::BadOperand));
    let _ = (Mutability::Mut, Type(0));
}

#[test]
fn arithmetic_wraps_at_the_width() {
    assert_eq!(compute_binary(IntBinary::Add, Width::W8, 200, 100), Some(44));
    assert_eq!(compute_binary(IntBinary::Add, Width::W32, 2, 12), Some(14));
    assert_eq!(compute_binary(IntBinary::Sub, Width::W16, 0, 1), Some(0xffff));
    assert_eq!(compute_binary(IntBinary::Mul, Width::W32, 0x1_0000, 0x1_0000), Some(0));
    assert_eq!(compute_binary(IntBinary::Mul, Width::W64, 3, 4), Some(12));
    assert_eq!(compute_binary(IntBinary::Add, Width::W128, u128::MAX, 1), Some(0));
    assert_eq!(compute_binary(IntBinary::And, Width::W8, 0b1100, 0b1010), Some(0b1000));
    assert_eq!(compute_binary(IntBinary::Or, Width::W8, 0b1100, 0b1010), Some(0b1110));
    assert_eq!(compute_binary(IntBinary::Xor, Width::W8, 0b1100, 0b1010), Some(0b0110));
    assert_eq!(compute_unary(IntUnary::Neg, Width::W8, 1), 0xff);
    assert_eq!(compute_unary(IntUnary::Not, Width::W16, 0x00ff), 0xff00);
}

#[test]
fn shifts_take_the_count_modulo_the_width() {
    assert_eq!(compute_binary(IntBinary::ShiftL, Width::W8, 1, 7), Some(0x80));
    assert_eq!(compute_binary(IntBinary::ShiftL, Width::W8, 1, 8), Some(1));
    assert_eq!(compute_binary(IntBinary::ShiftL, Width::W8, 0xff, 4), Some(0xf0));
    assert_eq!(compute_binary(IntBinary::UShiftR, Width::W8, 0x80, 7), Some(1));
    assert_eq!(compute_binary(IntBinary::SShiftR, Width::W8, 0x80, 7), Some(0xff));
    assert_eq!(compute_binary(IntBinary::SShiftR, Width::W32, 0x8000_0000, 31), Some(0xffff_ffff));
    assert_eq!(compute_binary(IntBinary::UShiftR, Width::W32, 0x8000_0000, 33), Some(0x4000_0000));
}

#[test]
fn comparisons_give_one_or_zero() {
    assert_eq!(compute_binary(IntBinary::Eq, Width::W32, 5, 5), Some(1));
    assert_eq!(compute_binary(IntBinary::NotEq, Width::W32, 5, 5), Some(0));
    assert_eq!(compute_binary(IntBinary::ULt, Width::W8, 1, 0xff), Some(1));
    assert_eq!(compute_binary(IntBinary::SLt, Width::W8, 1, 0xff), Some(0));
    assert_eq!(compute_binary(IntBinary::SLt, Width::W8, 0xff, 1), Some(1));
    assert_eq!(compute_binary(IntBinary::ULtEq, Width::W8, 7, 7), Some(1));
    assert_eq!(compute_binary(IntBinary::SLtEq, Width::W64, u64::MAX as u128, 0), Some(1));
}

#[test]
fn division_by_zero_has_no_result() {
    assert_eq!(compute_binary(IntBinary::UDiv, Width::W32, 7, 0), None);
    assert_eq!(compute_binary(IntBinary::URem, Width::W32, 7, 0), None);
    assert_eq!(compute_binary(IntBinary::SDiv, Width::W32, 7, 0), None);
    assert_eq!(compute_binary(IntBinary::SRem, Width::W32, 7, 0), None);
    assert_eq!(compute_binary(IntBinary::UDiv, Width::W32, 7, 2), Some(3));
    assert_eq!(compute_binary(IntBinary::URem, Width::W32, 7, 2), Some(1));
    // -7 / 2 == -3, -7 % 2 == -1
    assert_eq!(compute_binary(IntBinary::SDiv, Width::W8, 0xf9, 2), Some(0xfd));
    assert_eq!(compute_binary(IntBinary::SRem, Width::W8, 0xf9, 2), Some(0xff));
    // the least value divided by -1 wraps
    assert_eq!(compute_binary(IntBinary::SDiv, Width::W8, 0x80, 0xff), Some(0x80));
    assert_eq!(compute_binary(IntBinary::SRem, Width::W8, 0x80, 0xff), Some(0));
    assert_eq!(
        compute_binary(IntBinary::SDiv, Width::W128, 1u128 << 127, u128::MAX),
        Some(1u128 << 127)
    );
    assert_eq!(compute_binary(IntBinary::SRem, Width::W128, 1u128 << 127, u128::MAX), Some(0));
}

#[test]
fn widening_extends_by_sign_or_zero() {
    assert_eq!(compute_widen(Width::W32, Width::W8, true, 0xff), 0xffff_ffff);
    assert_eq!(compute_widen(Width::W32, Width::W8, false, 0xff), 0xff);
    assert_eq!(compute_widen(Width::W64, Width::W16, true, 0x7fff), 0x7fff);
    assert_eq!(compute_widen(Width::W128, Width::W64, true, 1u128 << 63), u128::MAX << 63);
}

#[test]
fn widths() {
    assert_eq!(Width::W8.bytes(), 1);
    assert_eq!(Width::W128.bytes(), 16);
    assert_eq!(Width::from_bytes(4), Some(Width::W32));
    assert_eq!(Width::from_bytes(3), None);
    assert_eq!(Width::W16.mask(), 0xffff);
    assert_eq!(Width::W64.bits(), 64);
    assert_eq!(Width::W8.trunc(0x1234), 0x34);
    assert_eq!(Width::W8.signed(0x80), -128);
    assert_eq!(Width::W128.signed(u128::MAX), -1);
    assert!(IntBinary::Eq.is_test());
    assert!(!IntBinary::Add.is_test());
}

#[test]
fn values_are_little_endian() {
    assert_eq!(bytes(0x0102_0304, 4), vec![4, 3, 2, 1]);
    assert_eq!(bytes(0x01, 3), vec![1, 0, 0]);
    assert_eq!(bytes(u128::MAX, 16), vec![0xff; 16]);
    assert_eq!(bytes(7, 18)[16..], [0, 0]);
    assert_eq!(value(&vec![4, 3, 2, 1]), 0x0102_0304);
    assert_eq!(value(&vec![]), 0);
    assert_eq!(value(&bytes(0xdead_beef_0000_0001, 8)), 0xdead_beef_0000_0001);
}

#[test]
fn loads_and_stores_stay_inside() {
    let mut mem = vec![0u8; 8];
    assert!(store(&mut mem, 2, &vec![1, 2, 3]));
    assert_eq!(mem, vec![0, 0, 1, 2, 3, 0, 0, 0]);
    assert!(!store(&mut mem, 6, &vec![1, 2, 3]));
    assert_eq!(mem, vec![0, 0, 1, 2, 3, 0, 0, 0]);
    assert_eq!(load(&mem, 3, 2), Some(vec![2, 3]));
    assert_eq!(load(&mem, 8, 0), Some(vec![]));
    assert_eq!(load(&mem, 7, 2), None);
    assert_eq!(load(&mem, 9, 0), None);
}
