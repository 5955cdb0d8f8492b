use std::sync::Arc;

use skitter::compiler::{BytecodeCompiler, Ctx};
use skitter::error::CompileError;
use skitter::eval_spec::RunResult;
use skitter::ids::{CrateId, ItemId, ItemRef};
use skitter::instr::{Instr, Slot};
use skitter::ir::{
    BinaryOp, BindingMode, Block, ConstStatus, Expr, ExprId, ExprKind, FieldPattern, FunctionSig,
    IRFunction, IRFunctionBuilder, LogicOp, LoopId, MatchArm, MatchGuard, PatternId, PatternKind,
    PointerCast, Stmt, UnaryOp, UpVar,
};
use skitter::items::{
    AdtInfo, AdtKind, AssocValue, BuiltinTrait, FunctionAbi, GenericCounts, ItemKind, ItemPath,
    TraitImpl,
};
use skitter::machine::VMThread;
use skitter::program::Program;
use skitter::stack::{Place, PointerKind};
use skitter::types::{ArrayLen, IntSign, IntWidth, Mutability, Sub, SubList, Type, TypeKind};
use skitter::vm::{CONST_BASE, VM};

const DEPTH: u32 = 16;

struct World {
    vm: VM,
    prog: Program<'static>,
    i32_ty: Type,
    bool_ty: Type,
    unit: Type,
    never: Type,
}

fn world() -> World {
    let mut vm = VM::new(false);
    let mut prog = Program::new();
    prog.add_crate().unwrap();
    let i32_ty = vm.types.intern(TypeKind::Int(IntWidth::I32, IntSign::Signed)).unwrap();
    let bool_ty = vm.types.intern(TypeKind::Bool).unwrap();
    let unit = vm.ty_tuple(&vec![]).unwrap();
    let never = vm.types.intern(TypeKind::Never).unwrap();
    World { vm, prog, i32_ty, bool_ty, unit, never }
}

fn no_subs() -> SubList {
    SubList::new(vec![])
}

fn bind(b: &mut IRFunctionBuilder, local: u32, ty: Type) -> PatternId {
    b.add_pattern(
        PatternKind::LocalBinding { local_id: local, mode: BindingMode::Value, sub_pattern: None },
        ty,
    )
    .unwrap()
}

fn lit(b: &mut IRFunctionBuilder, v: i128, ty: Type) -> ExprId {
    b.add_expr(ExprKind::LiteralValue(v), ty).unwrap()
}

fn var(b: &mut IRFunctionBuilder, local: u32, ty: Type) -> ExprId {
    b.add_expr(ExprKind::VarRef(local), ty).unwrap()
}

fn let_stmt(b: &mut IRFunctionBuilder, local: u32, ty: Type, init: ExprId) -> Stmt {
    let p = bind(b, local, ty);
    Stmt::Let { pattern: p, init: Some(init), else_block: None }
}

fn body(b: IRFunctionBuilder, output: Type, root: ExprId) -> IRFunction {
    b.finish(FunctionSig { inputs: vec![], output }, vec![], root, false)
}

fn compile(w: &mut World, ir: &IRFunction) -> Result<Vec<Instr>, CompileError> {
    BytecodeCompiler::compile(&mut w.vm, &w.prog, ir, &no_subs(), DEPTH)
}

fn run_ir(w: &mut World, ir: &IRFunction) -> VMThread {
    let code = compile(w, ir).unwrap();
    assert!(!code.contains(&Instr::Skipped));
    let mut th = VMThread::new();
    assert_eq!(th.run_bytecode(&mut w.vm, &w.prog, &code, 0, 100_000, DEPTH), RunResult::Returned);
    th
}

fn result_i32(th: &VMThread) -> i32 {
    let b = th.copy_result(0, 4).unwrap();
    i32::from_le_bytes([b[0], b[1], b[2], b[3]])
}

fn eval_i32(w: &mut World, ir: &IRFunction) -> i32 {
    result_i32(&run_ir(w, ir))
}

/// `let mut sum = 0; let mut i = 0; loop { if i >= 10 { break sum }; i += 1; sum += i }`
#[test]
fn loop_with_break_sums_to_55() {
    let mut w = world();
    let (i32_ty, bool_ty, unit, never) = (w.i32_ty, w.bool_ty, w.unit, w.never);
    let mut b = IRFunctionBuilder::new();
    let zero = lit(&mut b, 0, i32_ty);
    let s_sum = let_stmt(&mut b, 0, i32_ty, zero);
    let zero2 = lit(&mut b, 0, i32_ty);
    let s_i = let_stmt(&mut b, 1, i32_ty, zero2);
    let i = var(&mut b, 1, i32_ty);
    let ten = lit(&mut b, 10, i32_ty);
    let cond = b.add_expr(ExprKind::Binary(BinaryOp::GtEq, i, ten), bool_ty).unwrap();
    let sum = var(&mut b, 0, i32_ty);
    let brk = b.add_expr(ExprKind::Break { loop_id: LoopId(1), value: Some(sum) }, never).unwrap();
    let check = b.add_expr(ExprKind::If { cond, then: brk, else_opt: None }, unit).unwrap();
    let i2 = var(&mut b, 1, i32_ty);
    let one = lit(&mut b, 1, i32_ty);
    let inc = b.add_expr(ExprKind::AssignOp(BinaryOp::Add, i2, one), unit).unwrap();
    let sum2 = var(&mut b, 0, i32_ty);
    let i3 = var(&mut b, 1, i32_ty);
    let add = b.add_expr(ExprKind::AssignOp(BinaryOp::Add, sum2, i3), unit).unwrap();
    let lp = b
        .add_expr(
            ExprKind::Loop(
                Block { stmts: vec![Stmt::Expr(check), Stmt::Expr(inc), Stmt::Expr(add)], result: None },
                LoopId(1),
            ),
            i32_ty,
        )
        .unwrap();
    let root = b
        .add_expr(ExprKind::Block(Block { stmts: vec![s_sum, s_i], result: Some(lp) }), i32_ty)
        .unwrap();
    let ir = body(b, i32_ty, root);
    assert_eq!(eval_i32(&mut w, &ir), 55);
}

/// `let mut i = 0; loop { i += 1; if i < 5 { continue }; break i }`
#[test]
fn loop_with_continue_stops_at_5() {
    let mut w = world();
    let (i32_ty, bool_ty, unit, never) = (w.i32_ty, w.bool_ty, w.unit, w.never);
    let mut b = IRFunctionBuilder::new();
    let zero = lit(&mut b, 0, i32_ty);
    let s_i = let_stmt(&mut b, 0, i32_ty, zero);
    let i = var(&mut b, 0, i32_ty);
    let one = lit(&mut b, 1, i32_ty);
    let inc = b.add_expr(ExprKind::AssignOp(BinaryOp::Add, i, one), unit).unwrap();
    let i2 = var(&mut b, 0, i32_ty);
    let five = lit(&mut b, 5, i32_ty);
    let cond = b.add_expr(ExprKind::Binary(BinaryOp::Lt, i2, five), bool_ty).unwrap();
    let cont = b.add_expr(ExprKind::Continue { loop_id: LoopId(7) }, never).unwrap();
    let check = b.add_expr(ExprKind::If { cond, then: cont, else_opt: None }, unit).unwrap();
    let i3 = var(&mut b, 0, i32_ty);
    let brk = b.add_expr(ExprKind::Break { loop_id: LoopId(7), value: Some(i3) }, never).unwrap();
    let lp = b
        .add_expr(
            ExprKind::Loop(
                Block { stmts: vec![Stmt::Expr(inc), Stmt::Expr(check), Stmt::Expr(brk)], result: None },
                LoopId(7),
            ),
            i32_ty,
        )
        .unwrap();
    let root = b.add_expr(ExprKind::Block(Block { stmts: vec![s_i], result: Some(lp) }), i32_ty).unwrap();
    let ir = body(b, i32_ty, root);
    assert_eq!(eval_i32(&mut w, &ir), 5);
}

/// `if a && (b || c) { 1 } else { 2 }` for all truth values
#[test]
fn short_circuit_operators() {
    for bits in 0..8u8 {
        let (a, bv, c) = (bits & 1 != 0, bits & 2 != 0, bits & 4 != 0);
        let mut w = world();
        let (i32_ty, bool_ty) = (w.i32_ty, w.bool_ty);
        let mut b = IRFunctionBuilder::new();
        let ea = lit(&mut b, a as i128, bool_ty);
        let eb = lit(&mut b, bv as i128, bool_ty);
        let ec = lit(&mut b, c as i128, bool_ty);
        let or = b.add_expr(ExprKind::LogicOp(LogicOp::Or, eb, ec), bool_ty).unwrap();
        let and = b.add_expr(ExprKind::LogicOp(LogicOp::And, ea, or), bool_ty).unwrap();
        let one = lit(&mut b, 1, i32_ty);
        let two = lit(&mut b, 2, i32_ty);
        let root = b
            .add_expr(ExprKind::If { cond: and, then: one, else_opt: Some(two) }, i32_ty)
            .unwrap();
        let ir = body(b, i32_ty, root);
        assert_eq!(eval_i32(&mut w, &ir), if a && (bv || c) { 1 } else { 2 });
    }
}

/// `-(7 as i64) as i32` and `!true`
#[test]
fn casts_and_unary_operators() {
    let mut w = world();
    let i32_ty = w.i32_ty;
    let i64_ty = w.vm.types.intern(TypeKind::Int(IntWidth::I64, IntSign::Signed)).unwrap();
    let mut b = IRFunctionBuilder::new();
    let seven = lit(&mut b, 7, i32_ty);
    let wide = b.add_expr(ExprKind::Cast(seven), i64_ty).unwrap();
    let neg = b.add_expr(ExprKind::Unary(UnaryOp::Neg, wide), i64_ty).unwrap();
    let narrow = b.add_expr(ExprKind::Cast(neg), i32_ty).unwrap();
    let same = b.add_expr(ExprKind::Cast(narrow), i32_ty).unwrap();
    let root = b.add_expr(ExprKind::Dummy(same), i32_ty).unwrap();
    let ir = body(b, i32_ty, root);
    assert_eq!(eval_i32(&mut w, &ir), -7);
}

/// `fn classify(x: i32) -> i32 { match x { 1 | 2 => 10, 3..=5 => 20, y if y < 0 => 40, _ => 30 } }`
fn classify_ir(w: &mut World) -> IRFunction {
    let (i32_ty, bool_ty) = (w.i32_ty, w.bool_ty);
    let mut b = IRFunctionBuilder::new();
    let px = bind(&mut b, 0, i32_ty);
    let p1 = b.add_pattern(PatternKind::LiteralValue(1), i32_ty).unwrap();
    let p2 = b.add_pattern(PatternKind::LiteralValue(2), i32_ty).unwrap();
    let p_or = b.add_pattern(PatternKind::Or { options: vec![p1, p2] }, i32_ty).unwrap();
    let three = lit(&mut b, 3, i32_ty);
    let five = lit(&mut b, 5, i32_ty);
    let p_range = b
        .add_pattern(
            PatternKind::Range { start: Some(three), end: Some(five), end_is_inclusive: true },
            i32_ty,
        )
        .unwrap();
    let p_y = bind(&mut b, 1, i32_ty);
    let p_hole = b.add_pattern(PatternKind::Hole, i32_ty).unwrap();
    let y = var(&mut b, 1, i32_ty);
    let zero = lit(&mut b, 0, i32_ty);
    let guard = b.add_expr(ExprKind::Binary(BinaryOp::Lt, y, zero), bool_ty).unwrap();
    let r10 = lit(&mut b, 10, i32_ty);
    let r20 = lit(&mut b, 20, i32_ty);
    let r40 = lit(&mut b, 40, i32_ty);
    let r30 = lit(&mut b, 30, i32_ty);
    let x = var(&mut b, 0, i32_ty);
    let m = b
        .add_expr(
            ExprKind::Match {
                arg: x,
                arms: vec![
                    MatchArm { pattern: p_or, guard: MatchGuard::Unguarded, body: r10 },
                    MatchArm { pattern: p_range, guard: MatchGuard::Unguarded, body: r20 },
                    MatchArm { pattern: p_y, guard: MatchGuard::If(guard), body: r40 },
                    MatchArm { pattern: p_hole, guard: MatchGuard::Unguarded, body: r30 },
                ],
            },
            i32_ty,
        )
        .unwrap();
    b.finish(FunctionSig { inputs: vec![i32_ty], output: i32_ty }, vec![px], m, false)
}

#[test]
fn patterns_of_literals_ranges_and_guards() {
    let mut w = world();
    let ir = classify_ir(&mut w);
    let code = compile(&mut w, &ir).unwrap();
    assert!(!code.contains(&Instr::Skipped));
    for (x, want) in [(1, 10), (2, 10), (3, 20), (4, 20), (5, 20), (6, 30), (0, 30), (-3, 40)] {
        let mut th = VMThread::new();
        assert!(th.write_bytes(4, &(x as i32).to_le_bytes().to_vec()));
        assert_eq!(th.run_bytecode(&mut w.vm, &w.prog, &code, 0, 10_000, DEPTH), RunResult::Returned);
        assert_eq!(result_i32(&th), want, "classify({})", x);
    }
}

/// `let (a, (b, _)) = (3, (4, 5)); a * b`
#[test]
fn tuple_patterns_bind_fields() {
    let mut w = world();
    let i32_ty = w.i32_ty;
    let inner_ty = w.vm.ty_tuple(&vec![i32_ty, i32_ty]).unwrap();
    let outer_ty = w.vm.ty_tuple(&vec![i32_ty, inner_ty]).unwrap();
    let mut b = IRFunctionBuilder::new();
    let e3 = lit(&mut b, 3, i32_ty);
    let e4 = lit(&mut b, 4, i32_ty);
    let e5 = lit(&mut b, 5, i32_ty);
    let inner = b.add_expr(ExprKind::Tuple(vec![e4, e5]), inner_ty).unwrap();
    let outer = b.add_expr(ExprKind::Tuple(vec![e3, inner]), outer_ty).unwrap();
    let pa = bind(&mut b, 0, i32_ty);
    let pb = bind(&mut b, 1, i32_ty);
    let hole = b.add_pattern(PatternKind::Hole, i32_ty).unwrap();
    let p_inner = b
        .add_pattern(
            PatternKind::Struct {
                fields: vec![
                    FieldPattern { field: 0, pattern: pb },
                    FieldPattern { field: 1, pattern: hole },
                ],
            },
            inner_ty,
        )
        .unwrap();
    let p_outer = b
        .add_pattern(
            PatternKind::Struct {
                fields: vec![
                    FieldPattern { field: 0, pattern: pa },
                    FieldPattern { field: 1, pattern: p_inner },
                ],
            },
            outer_ty,
        )
        .unwrap();
    let a = var(&mut b, 0, i32_ty);
    let bb = var(&mut b, 1, i32_ty);
    let mul = b.add_expr(ExprKind::Binary(BinaryOp::Mul, a, bb), i32_ty).unwrap();
    let root = b
        .add_expr(
            ExprKind::Block(Block {
                stmts: vec![Stmt::Let { pattern: p_outer, init: Some(outer), else_block: None }],
                result: Some(mul),
            }),
            i32_ty,
        )
        .unwrap();
    let ir = body(b, i32_ty, root);
    assert_eq!(eval_i32(&mut w, &ir), 12);
}

/// `let [first, .., last] = [1, 2, 3, 40]; first + last` and `[7; 3][2]`
#[test]
fn arrays_and_slice_patterns() {
    let mut w = world();
    let i32_ty = w.i32_ty;
    let us = w.vm.common_types().unwrap().usize;
    let arr4 = w.vm.types.intern(TypeKind::Array(i32_ty, ArrayLen::Known(4))).unwrap();
    let arr3 = w.vm.types.intern(TypeKind::Array(i32_ty, ArrayLen::Known(3))).unwrap();
    let mut b = IRFunctionBuilder::new();
    let elems: Vec<ExprId> = [1, 2, 3, 40].iter().map(|v| lit(&mut b, *v, i32_ty)).collect();
    let arr = b.add_expr(ExprKind::Array(elems), arr4).unwrap();
    let p_first = bind(&mut b, 0, i32_ty);
    let p_last = bind(&mut b, 1, i32_ty);
    let p_mid = b.add_pattern(PatternKind::Hole, arr4).unwrap();
    let p = b
        .add_pattern(
            PatternKind::Slice { start: vec![p_first], mid: Some(p_mid), end: vec![p_last] },
            arr4,
        )
        .unwrap();
    let seven = lit(&mut b, 7, i32_ty);
    let rep = b.add_expr(ExprKind::ArrayRepeat(seven, ArrayLen::Known(3)), arr3).unwrap();
    let two = lit(&mut b, 2, us);
    let at = b.add_expr(ExprKind::Index { lhs: rep, index: two }, i32_ty).unwrap();
    let first = var(&mut b, 0, i32_ty);
    let last = var(&mut b, 1, i32_ty);
    let sum = b.add_expr(ExprKind::Binary(BinaryOp::Add, first, last), i32_ty).unwrap();
    let total = b.add_expr(ExprKind::Binary(BinaryOp::Add, sum, at), i32_ty).unwrap();
    let root = b
        .add_expr(
            ExprKind::Block(Block {
                stmts: vec![Stmt::Let { pattern: p, init: Some(arr), else_block: None }],
                result: Some(total),
            }),
            i32_ty,
        )
        .unwrap();
    let ir = body(b, i32_ty, root);
    assert_eq!(eval_i32(&mut w, &ir), 1 + 40 + 7);
}

fn add_struct(w: &mut World, fields: Vec<Type>, needs_drop: bool) -> Type {
    let id = w.prog.crates[0].add(ItemPath::for_type("::S"), ItemKind::new_adt()).unwrap();
    w.prog.crates[0].items[id.index()]
        .set_adt_info(AdtInfo { variant_fields: vec![fields], kind: AdtKind::Struct, needs_drop })
        .unwrap();
    w.vm.ty_adt(ItemRef { crate_id: CrateId(0), item_id: id }, &no_subs()).unwrap()
}

/// A struct of two leaf values: one field is overwritten, then the whole struct.
#[test]
fn drop_pair_scaffolding_runs_to_the_end() {
    let mut w = world();
    let unit = w.unit;
    let str_ty = w.vm.types.intern(TypeKind::StringSlice).unwrap();
    let str_ref = w.vm.types.intern(TypeKind::Ref(str_ty, Mutability::Const)).unwrap();
    let leaf = add_struct(&mut w, vec![str_ref], false);
    let pair = add_struct(&mut w, vec![leaf, leaf], false);
    let mut b = IRFunctionBuilder::new();
    let mut leaf_value = |b: &mut IRFunctionBuilder, text: &str| {
        let s = b.add_expr(ExprKind::LiteralBytes(text.as_bytes().to_vec()), str_ref).unwrap();
        b.add_expr(ExprKind::Adt { variant: 0, fields: vec![(0, s)], rest: None }, leaf).unwrap()
    };
    let mut pair_value = |b: &mut IRFunctionBuilder, x: &str, y: &str| {
        let a = leaf_value(b, x);
        let c = leaf_value(b, y);
        b.add_expr(ExprKind::Adt { variant: 0, fields: vec![(0, a), (1, c)], rest: None }, pair)
            .unwrap()
    };
    // { let mut pair = DropPair { .. }; pair.a = LogDrop("2/a"); }
    let v1 = pair_value(&mut b, "1/a", "1/b");
    let s1 = let_stmt(&mut b, 0, pair, v1);
    let target = var(&mut b, 0, pair);
    let field = b.add_expr(ExprKind::Field { lhs: target, variant: 0, field: 0 }, leaf).unwrap();
    let v2 = {
        let s = b.add_expr(ExprKind::LiteralBytes(b"2/a".to_vec()), str_ref).unwrap();
        b.add_expr(ExprKind::Adt { variant: 0, fields: vec![(0, s)], rest: None }, leaf).unwrap()
    };
    let set_field = b.add_expr(ExprKind::Assign(field, v2), unit).unwrap();
    let first = b
        .add_expr(ExprKind::Block(Block { stmts: vec![s1, Stmt::Expr(set_field)], result: None }), unit)
        .unwrap();
    // { let mut pair = DropPair { .. }; pair = DropPair { .. } }
    let v3 = pair_value(&mut b, "3/a", "3/b");
    let s3 = let_stmt(&mut b, 1, pair, v3);
    let target2 = var(&mut b, 1, pair);
    let v4 = pair_value(&mut b, "4/a", "4/b");
    let set_all = b.add_expr(ExprKind::Assign(target2, v4), unit).unwrap();
    let second = b
        .add_expr(ExprKind::Block(Block { stmts: vec![s3], result: Some(set_all) }), unit)
        .unwrap();
    let root = b
        .add_expr(
            ExprKind::Block(Block { stmts: vec![Stmt::Expr(first), Stmt::Expr(second)], result: None }),
            unit,
        )
        .unwrap();
    let ir = body(b, unit, root);
    let th = run_ir(&mut w, &ir);
    // the texts reach the constant arena in source order
    assert_eq!(w.vm.constants, b"1/a1/b2/a3/a3/b4/a4/b".to_vec());
    assert!(th.frames.is_empty());
}

#[test]
fn functional_update_copies_the_other_fields() {
    let mut w = world();
    let i32_ty = w.i32_ty;
    let s_ty = add_struct(&mut w, vec![i32_ty, i32_ty, i32_ty], false);
    let mut b = IRFunctionBuilder::new();
    let e1 = lit(&mut b, 1, i32_ty);
    let e2 = lit(&mut b, 2, i32_ty);
    let e3 = lit(&mut b, 3, i32_ty);
    let base = b
        .add_expr(ExprKind::Adt { variant: 0, fields: vec![(0, e1), (1, e2), (2, e3)], rest: None }, s_ty)
        .unwrap();
    let s_base = let_stmt(&mut b, 0, s_ty, base);
    let e9 = lit(&mut b, 90, i32_ty);
    let rest = var(&mut b, 0, s_ty);
    let updated = b
        .add_expr(ExprKind::Adt { variant: 0, fields: vec![(1, e9)], rest: Some(rest) }, s_ty)
        .unwrap();
    let s_new = let_stmt(&mut b, 1, s_ty, updated);
    let n = var(&mut b, 1, s_ty);
    let f0 = b.add_expr(ExprKind::Field { lhs: n, variant: 0, field: 0 }, i32_ty).unwrap();
    let n1 = var(&mut b, 1, s_ty);
    let f1 = b.add_expr(ExprKind::Field { lhs: n1, variant: 0, field: 1 }, i32_ty).unwrap();
    let n2 = var(&mut b, 1, s_ty);
    let f2 = b.add_expr(ExprKind::Field { lhs: n2, variant: 0, field: 2 }, i32_ty).unwrap();
    let a = b.add_expr(ExprKind::Binary(BinaryOp::Add, f0, f1), i32_ty).unwrap();
    let total = b.add_expr(ExprKind::Binary(BinaryOp::Add, a, f2), i32_ty).unwrap();
    let root = b
        .add_expr(ExprKind::Block(Block { stmts: vec![s_base, s_new], result: Some(total) }), i32_ty)
        .unwrap();
    let ir = body(b, i32_ty, root);
    assert_eq!(eval_i32(&mut w, &ir), 1 + 90 + 3);
}

fn add_const(w: &mut World, ir: IRFunction) -> ItemRef {
    let id = w.prog.crates[0].add(ItemPath::for_value("::K"), ItemKind::new_const()).unwrap();
    w.prog.crates[0].items[id.index()].set_raw_ir(Arc::new(ir)).unwrap();
    ItemRef { crate_id: CrateId(0), item_id: id }
}

fn const_ir(w: &World, a: i128, op: BinaryOp, c: i128) -> IRFunction {
    let mut b = IRFunctionBuilder::new();
    let x = lit(&mut b, a, w.i32_ty);
    let y = lit(&mut b, c, w.i32_ty);
    let e = b.add_expr(ExprKind::Binary(op, x, y), w.i32_ty).unwrap();
    b.finish(FunctionSig { inputs: vec![], output: w.i32_ty }, vec![], e, true)
}

/// `const K: i32 = 40 + 2; fn f() -> i32 { K + 1 }`
#[test]
fn named_constants_are_evaluated_once() {
    let mut w = world();
    let i32_ty = w.i32_ty;
    let k_ir = const_ir(&w, 40, BinaryOp::Add, 2);
    let k = add_const(&mut w, k_ir);
    let l = w.vm.types.intern_list(&vec![]).unwrap();
    let mut b = IRFunctionBuilder::new();
    let kv = b.add_expr(ExprKind::NamedConst(k, l), i32_ty).unwrap();
    let one = lit(&mut b, 1, i32_ty);
    let root = b.add_expr(ExprKind::Binary(BinaryOp::Add, kv, one), i32_ty).unwrap();
    let ir = body(b, i32_ty, root);
    assert_eq!(eval_i32(&mut w, &ir), 43);
    assert_eq!(w.vm.const_values.len(), 1);
    assert_eq!(w.vm.constants, 42i32.to_le_bytes().to_vec());
    let first = w.vm.const_value(&w.prog, k, &no_subs(), DEPTH).unwrap();
    let again = w.vm.const_value(&w.prog, k, &no_subs(), DEPTH).unwrap();
    assert_eq!((first, again), (0, 0));
    assert_eq!(w.vm.constants.len(), 4);
    assert_eq!(w.prog.crates[0].items[k.item_id.index()].const_value(&mut w.vm, &w.prog, &no_subs(), DEPTH), Ok(0));
    // a pattern that names the constant
    let mut b = IRFunctionBuilder::new();
    let px = bind(&mut b, 0, i32_ty);
    let pk = b.add_pattern(PatternKind::NamedConst(k, l), i32_ty).unwrap();
    let hole = b.add_pattern(PatternKind::Hole, i32_ty).unwrap();
    let yes = lit(&mut b, 1, i32_ty);
    let no = lit(&mut b, 0, i32_ty);
    let x = var(&mut b, 0, i32_ty);
    let m = b
        .add_expr(
            ExprKind::Match {
                arg: x,
                arms: vec![
                    MatchArm { pattern: pk, guard: MatchGuard::Unguarded, body: yes },
                    MatchArm { pattern: hole, guard: MatchGuard::Unguarded, body: no },
                ],
            },
            i32_ty,
        )
        .unwrap();
    let is_k = b.finish(FunctionSig { inputs: vec![i32_ty], output: i32_ty }, vec![px], m, false);
    let code = compile(&mut w, &is_k).unwrap();
    for (x, want) in [(42, 1), (41, 0)] {
        let mut th = VMThread::new();
        assert!(th.write_bytes(4, &(x as i32).to_le_bytes().to_vec()));
        assert_eq!(th.run_bytecode(&mut w.vm, &w.prog, &code, 0, 10_000, DEPTH), RunResult::Returned);
        assert_eq!(result_i32(&th), want);
    }
}

#[test]
fn constants_that_do_not_evaluate_fail_the_compilation() {
    let mut w = world();
    let i32_ty = w.i32_ty;
    let k_ir = const_ir(&w, 1, BinaryOp::Div, 0);
    let k = add_const(&mut w, k_ir);
    let l = w.vm.types.intern_list(&vec![]).unwrap();
    let mut b = IRFunctionBuilder::new();
    let kv = b.add_expr(ExprKind::NamedConst(k, l), i32_ty).unwrap();
    let ir = body(b, i32_ty, kv);
    assert_eq!(compile(&mut w, &ir), Err(CompileError::ConstEval));
    assert_eq!(
        BytecodeCompiler::compile(&mut w.vm, &w.prog, &ir, &no_subs(), 0),
        Err(CompileError::DepthExceeded)
    );
    // a static is the address of its initial value
    let s_ir = const_ir(&w, 5, BinaryOp::Mul, 5);
    let s = add_const(&mut w, s_ir);
    let mut b = IRFunctionBuilder::new();
    let sv = b.add_expr(ExprKind::Static(s), i32_ty).unwrap();
    let ir = body(b, i32_ty, sv);
    assert_eq!(eval_i32(&mut w, &ir), 25);
    // a constant block
    let block = Arc::new(const_ir(&w, 6, BinaryOp::Sub, 2));
    let mut b = IRFunctionBuilder::new();
    let bv = b.add_expr(ExprKind::ConstBlock(block), i32_ty).unwrap();
    let ir = body(b, i32_ty, bv);
    assert_eq!(eval_i32(&mut w, &ir), 4);
}

/// `*&5`, the reference promoted to a constant
#[test]
fn promoted_references_point_into_the_constant_arena() {
    let mut w = world();
    let i32_ty = w.i32_ty;
    let ref_ty = w.vm.types.intern(TypeKind::Ref(i32_ty, Mutability::Const)).unwrap();
    let mut b = IRFunctionBuilder::new();
    let five = b
        .add_expr_with(Expr {
            kind: ExprKind::LiteralValue(5),
            ty: i32_ty,
            const_status: ConstStatus::CanPromote,
            const_alloc: false,
        })
        .unwrap();
    let r = b.add_expr(ExprKind::Ref(five, Mutability::Const), ref_ty).unwrap();
    let d = b.add_expr(ExprKind::DeRef(r), i32_ty).unwrap();
    let ir = body(b, i32_ty, d);
    let ctx = Ctx { prog: &w.prog, ir: &ir, subs: &no_subs() };
    let (code, place) = BytecodeCompiler::compile_promoted(&mut w.vm, &ctx, five, DEPTH).unwrap();
    assert_eq!(place, Place::Local(Slot(0)));
    assert_eq!(code.last(), Some(&Instr::Return));
    assert_eq!(
        BytecodeCompiler::compile_promoted_const(&mut w.vm, &ctx, five, DEPTH),
        Ok((CONST_BASE, None))
    );
    assert_eq!(w.vm.constants, 5i32.to_le_bytes().to_vec());
    assert_eq!(eval_i32(&mut w, &ir), 5);
    assert_eq!(w.vm.constants.len(), 8);
    let _ = PointerKind::Thin;
}

/// `let v = 42; let r: &dyn T = &v; r.id()` with `impl T for i32 { fn id(&self) -> i32 { *self } }`
#[test]
fn calls_through_a_trait_object_use_the_vtable() {
    let mut w = world();
    let i32_ty = w.i32_ty;
    let t = w.prog.crates[0].add(ItemPath::for_type("::T"), ItemKind::new_trait()).unwrap();
    let id = w.prog.crates[0]
        .add(ItemPath::for_value("::T::id"), ItemKind::new_function_virtual(t, 0))
        .unwrap();
    let id_i32 = w.prog.crates[0]
        .add(ItemPath::for_debug("::{impl}::id"), ItemKind::new_function())
        .unwrap();
    let t_ref = ItemRef { crate_id: CrateId(0), item_id: t };
    let ref_i32 = w.vm.types.intern(TypeKind::Ref(i32_ty, Mutability::Const)).unwrap();
    {
        let mut b = IRFunctionBuilder::new();
        let p = bind(&mut b, 0, ref_i32);
        let s = var(&mut b, 0, ref_i32);
        let d = b.add_expr(ExprKind::DeRef(s), i32_ty).unwrap();
        let ir = b.finish(FunctionSig { inputs: vec![ref_i32], output: i32_ty }, vec![p], d, false);
        w.prog.crates[0].items[id_i32.index()].set_raw_ir(Arc::new(ir)).unwrap();
    }
    w.prog.crates[0].items[t.index()]
        .add_trait_impl(TraitImpl {
            for_types: SubList::new(vec![Sub::Type(i32_ty)]),
            crate_id: CrateId(0),
            assoc_values: vec![Some(AssocValue::Item(id_i32))],
            bounds: vec![],
            generics: GenericCounts { lifetimes: 0, types: 0, consts: 0 },
        })
        .unwrap();
    let dyn_t = w
        .vm
        .types
        .intern(TypeKind::Dynamic { primary_trait: Some(t_ref), is_dyn_star: false })
        .unwrap();
    let ref_dyn = w.vm.types.intern(TypeKind::Ref(dyn_t, Mutability::Const)).unwrap();
    let fn_ty = w
        .vm
        .ty_func_def(ItemRef { crate_id: CrateId(0), item_id: id }, &SubList::new(vec![Sub::Type(dyn_t)]))
        .unwrap();
    let mut b = IRFunctionBuilder::new();
    let v = lit(&mut b, 42, i32_ty);
    let s_v = let_stmt(&mut b, 0, i32_ty, v);
    let v_ref = var(&mut b, 0, i32_ty);
    let r = b.add_expr(ExprKind::Ref(v_ref, Mutability::Const), ref_i32).unwrap();
    let wide = b.add_expr(ExprKind::PointerCast(r, PointerCast::UnSize), ref_dyn).unwrap();
    let s_r = let_stmt(&mut b, 1, ref_dyn, wide);
    let callee = b.add_expr(ExprKind::LiteralVoid, fn_ty).unwrap();
    let recv = var(&mut b, 1, ref_dyn);
    let call = b.add_expr(ExprKind::Call { func: callee, args: vec![recv] }, i32_ty).unwrap();
    let root = b
        .add_expr(ExprKind::Block(Block { stmts: vec![s_v, s_r], result: Some(call) }), i32_ty)
        .unwrap();
    let ir = body(b, i32_ty, root);
    let code = compile(&mut w, &ir).unwrap();
    assert!(code.iter().any(|i| matches!(i, Instr::VTableFunc(_, _, 0))));
    assert!(code.iter().any(|i| matches!(i, Instr::CallPtr { .. })));
    assert_eq!(w.vm.vtables.len(), 1);
    let mut th = VMThread::new();
    assert_eq!(th.run_bytecode(&mut w.vm, &w.prog, &code, 0, 10_000, DEPTH), RunResult::Returned);
    assert_eq!(result_i32(&th), 42);
    // the table is built once
    let first = w.vm.find_vtable(&w.prog, t_ref, i32_ty, DEPTH).unwrap();
    assert_eq!(w.vm.find_vtable(&w.prog, t_ref, i32_ty, DEPTH), Ok(first));
    assert_eq!(w.vm.find_vtable(&w.prog, t_ref, w.bool_ty, DEPTH), Err(CompileError::NoImpl));
}

/// A reference to a struct whose last field is an array becomes a reference
/// to the same struct with a slice there; the length travels as metadata.
#[test]
fn unsizing_a_struct_keeps_the_address_and_adds_the_length() {
    let mut w = world();
    let i32_ty = w.i32_ty;
    let p0 = w.vm.types.intern(TypeKind::Param(0)).unwrap();
    let arr3 = w.vm.types.intern(TypeKind::Array(i32_ty, ArrayLen::Known(3))).unwrap();
    let slice = w.vm.types.intern(TypeKind::Slice(i32_ty)).unwrap();
    let id = w.prog.crates[0].add(ItemPath::for_type("::W"), ItemKind::new_adt()).unwrap();
    w.prog.crates[0].items[id.index()]
        .set_adt_info(AdtInfo {
            variant_fields: vec![vec![i32_ty, p0]],
            kind: AdtKind::Struct,
            needs_drop: false,
        })
        .unwrap();
    let item = ItemRef { crate_id: CrateId(0), item_id: id };
    let w_arr = w.vm.ty_adt(item, &SubList::new(vec![Sub::Type(arr3)])).unwrap();
    let w_slice = w.vm.ty_adt(item, &SubList::new(vec![Sub::Type(slice)])).unwrap();
    let ref_arr = w.vm.types.intern(TypeKind::Ref(w_arr, Mutability::Const)).unwrap();
    let ref_slice = w.vm.types.intern(TypeKind::Ref(w_slice, Mutability::Const)).unwrap();
    let mut b = IRFunctionBuilder::new();
    let nine = lit(&mut b, 9, i32_ty);
    let elems: Vec<ExprId> = [1, 2, 3].iter().map(|v| lit(&mut b, *v, i32_ty)).collect();
    let data = b.add_expr(ExprKind::Array(elems), arr3).unwrap();
    let value = b
        .add_expr(ExprKind::Adt { variant: 0, fields: vec![(0, nine), (1, data)], rest: None }, w_arr)
        .unwrap();
    let s_v = let_stmt(&mut b, 0, w_arr, value);
    let v_ref = var(&mut b, 0, w_arr);
    let r = b.add_expr(ExprKind::Ref(v_ref, Mutability::Const), ref_arr).unwrap();
    let wide = b.add_expr(ExprKind::PointerCast(r, PointerCast::UnSize), ref_slice).unwrap();
    let root = b
        .add_expr(ExprKind::Block(Block { stmts: vec![s_v], result: Some(wide) }), ref_slice)
        .unwrap();
    let ir = body(b, ref_slice, root);
    let th = run_ir(&mut w, &ir);
    let out = th.copy_result(0, 16).unwrap();
    let addr = u64::from_le_bytes(out[0..8].try_into().unwrap());
    let len = u64::from_le_bytes(out[8..16].try_into().unwrap());
    assert_eq!(len, 3);
    // the struct sits right behind the 16 bytes of the result
    assert_eq!(addr, skitter::vm::STACK_BASE + 16);
    assert_eq!(
        th.copy_result(16, 16).unwrap(),
        vec![9, 0, 0, 0, 1, 0, 0, 0, 2, 0, 0, 0, 3, 0, 0, 0]
    );
}

/// `let mut n = 0; let mut c = || { n += 1; n }; c() + 10 * c() + 100 * c()`
#[test]
fn a_mutating_closure_counts_1_2_3() {
    let mut w = world();
    let (i32_ty, unit) = (w.i32_ty, w.unit);
    let fn_mut = w.prog.crates[0].add(ItemPath::for_type("::FnMut"), ItemKind::new_trait()).unwrap();
    w.prog.crates[0].items[fn_mut.index()].trait_set_builtin(BuiltinTrait::FnMut).unwrap();
    let call_mut = w.prog.crates[0]
        .add(ItemPath::for_value("::FnMut::call_mut"), ItemKind::new_function_virtual(fn_mut, 0))
        .unwrap();
    let n = w.prog.alloc_closure().unwrap();
    let ref_mut_i32 = w.vm.types.intern(TypeKind::Ref(i32_ty, Mutability::Mut)).unwrap();
    let env = w.vm.ty_tuple(&vec![ref_mut_i32]).unwrap();
    let l0 = w.vm.types.intern_list(&vec![]).unwrap();
    let closure_ty = w.vm.types.intern(TypeKind::Closure(n, env, l0)).unwrap();
    let ref_closure = w.vm.types.intern(TypeKind::Ref(closure_ty, Mutability::Mut)).unwrap();
    {
        let mut b = IRFunctionBuilder::new();
        let up = b.add_expr(ExprKind::UpVar(UpVar { index: 0, is_ref: true }), i32_ty).unwrap();
        let one = lit(&mut b, 1, i32_ty);
        let inc = b.add_expr(ExprKind::AssignOp(BinaryOp::Add, up, one), unit).unwrap();
        let up2 = b.add_expr(ExprKind::UpVar(UpVar { index: 0, is_ref: true }), i32_ty).unwrap();
        let root = b
            .add_expr(ExprKind::Block(Block { stmts: vec![Stmt::Expr(inc)], result: Some(up2) }), i32_ty)
            .unwrap();
        let ir = body(b, i32_ty, root);
        w.prog.closures[n as usize].set_ir_base(&mut w.vm.types, ir, closure_ty).unwrap();
    }
    let fn_ty = w
        .vm
        .ty_func_def(
            ItemRef { crate_id: CrateId(0), item_id: call_mut },
            &SubList::new(vec![Sub::Type(closure_ty), Sub::Type(unit)]),
        )
        .unwrap();
    let mut b = IRFunctionBuilder::new();
    let zero = lit(&mut b, 0, i32_ty);
    let s_n = let_stmt(&mut b, 0, i32_ty, zero);
    let n_var = var(&mut b, 0, i32_ty);
    let n_ref = b.add_expr(ExprKind::Ref(n_var, Mutability::Mut), ref_mut_i32).unwrap();
    let make = b.add_expr(ExprKind::Tuple(vec![n_ref]), closure_ty).unwrap();
    let s_c = let_stmt(&mut b, 1, closure_ty, make);
    let mut call = |b: &mut IRFunctionBuilder| {
        let callee = b.add_expr(ExprKind::LiteralVoid, fn_ty).unwrap();
        let c = var(b, 1, closure_ty);
        let c_ref = b.add_expr(ExprKind::Ref(c, Mutability::Mut), ref_closure).unwrap();
        let args = b.add_expr(ExprKind::Tuple(vec![]), unit).unwrap();
        b.add_expr(ExprKind::Call { func: callee, args: vec![c_ref, args] }, i32_ty).unwrap()
    };
    let r1 = call(&mut b);
    let r2 = call(&mut b);
    let r3 = call(&mut b);
    let ten = lit(&mut b, 10, i32_ty);
    let hundred = lit(&mut b, 100, i32_ty);
    let t2 = b.add_expr(ExprKind::Binary(BinaryOp::Mul, ten, r2), i32_ty).unwrap();
    let t3 = b.add_expr(ExprKind::Binary(BinaryOp::Mul, hundred, r3), i32_ty).unwrap();
    let a = b.add_expr(ExprKind::Binary(BinaryOp::Add, r1, t2), i32_ty).unwrap();
    let total = b.add_expr(ExprKind::Binary(BinaryOp::Add, a, t3), i32_ty).unwrap();
    let root = b
        .add_expr(ExprKind::Block(Block { stmts: vec![s_n, s_c], result: Some(total) }), i32_ty)
        .unwrap();
    let ir = body(b, i32_ty, root);
    assert_eq!(eval_i32(&mut w, &ir), 321);
}

fn expect_error(build: impl FnOnce(&mut World, &mut IRFunctionBuilder) -> (Type, ExprId), want: CompileError) {
    let mut w = world();
    let mut b = IRFunctionBuilder::new();
    let (ty, root) = build(&mut w, &mut b);
    let ir = body(b, ty, root);
    assert_eq!(compile(&mut w, &ir).err(), Some(want));
}

#[test]
fn malformed_bodies_are_rejected() {
    expect_error(|w, b| (w.i32_ty, var(b, 3, w.i32_ty)), CompileError::MissingLocal);
    expect_error(|w, _| (w.i32_ty, ExprId(5)), CompileError::BadExpr);
    expect_error(
        |w, b| {
            let e = b.add_expr(ExprKind::Unary(UnaryOp::Neg, ExprId(0)), w.i32_ty).unwrap();
            (w.i32_ty, e)
        },
        CompileError::BadExpr,
    );
    expect_error(
        |w, b| {
            let p = b.add_pattern(PatternKind::Error, w.i32_ty).unwrap();
            let v = lit(b, 1, w.i32_ty);
            let e = b
                .add_expr(
                    ExprKind::Block(Block {
                        stmts: vec![Stmt::Let { pattern: p, init: Some(v), else_block: None }],
                        result: None,
                    }),
                    w.unit,
                )
                .unwrap();
            (w.unit, e)
        },
        CompileError::BadPattern,
    );
    expect_error(
        |w, b| {
            let p = b.add_pattern(PatternKind::LiteralValue(1), w.i32_ty).unwrap();
            let v = lit(b, 1, w.i32_ty);
            let e = b
                .add_expr(
                    ExprKind::Block(Block {
                        stmts: vec![Stmt::Let { pattern: p, init: Some(v), else_block: None }],
                        result: None,
                    }),
                    w.unit,
                )
                .unwrap();
            (w.unit, e)
        },
        CompileError::MissingResult,
    );
    expect_error(
        |w, b| {
            let p = bind(b, 0, w.i32_ty);
            let v = lit(b, 1, w.i32_ty);
            let els = lit(b, 2, w.i32_ty);
            let e = b
                .add_expr(
                    ExprKind::Block(Block {
                        stmts: vec![Stmt::Let { pattern: p, init: Some(v), else_block: Some(els) }],
                        result: None,
                    }),
                    w.unit,
                )
                .unwrap();
            (w.unit, e)
        },
        CompileError::Unsupported,
    );
    expect_error(
        |w, b| {
            let v = lit(b, 1, w.i32_ty);
            let s1 = let_stmt(b, 0, w.i32_ty, v);
            let v2 = lit(b, 2, w.i32_ty);
            let s2 = let_stmt(b, 0, w.i32_ty, v2);
            let e = b
                .add_expr(ExprKind::Block(Block { stmts: vec![s1, s2], result: None }), w.unit)
                .unwrap();
            (w.unit, e)
        },
        CompileError::LocalRedefined,
    );
    expect_error(
        |w, b| {
            let e = b.add_expr(ExprKind::Break { loop_id: LoopId(1), value: None }, w.never).unwrap();
            let v = lit(b, 1, w.i32_ty);
            let e2 = b.add_expr(ExprKind::Break { loop_id: LoopId(1), value: Some(v) }, w.never).unwrap();
            let blk = b
                .add_expr(
                    ExprKind::Block(Block { stmts: vec![Stmt::Expr(e), Stmt::Expr(e2)], result: None }),
                    w.unit,
                )
                .unwrap();
            (w.unit, blk)
        },
        CompileError::NoLoop,
    );
    expect_error(
        |w, b| {
            let e = b.add_expr(ExprKind::Continue { loop_id: LoopId(1) }, w.never).unwrap();
            (w.never, e)
        },
        CompileError::NoLoop,
    );
    expect_error(
        |w, b| {
            let f = lit(b, 1, w.i32_ty);
            let e = b.add_expr(ExprKind::Call { func: f, args: vec![] }, w.i32_ty).unwrap();
            (w.i32_ty, e)
        },
        CompileError::BadCall,
    );
    expect_error(
        |w, b| {
            let x = w.prog.crates[0]
                .add(
                    ItemPath::for_value("::size_of"),
                    ItemKind::new_function_extern(FunctionAbi::RustIntrinsic, "size_of".to_owned()),
                )
                .unwrap();
            let fn_ty = w.vm.ty_func_def(ItemRef { crate_id: CrateId(0), item_id: x }, &no_subs()).unwrap();
            let f = b.add_expr(ExprKind::LiteralVoid, fn_ty).unwrap();
            let e = b.add_expr(ExprKind::Call { func: f, args: vec![] }, w.i32_ty).unwrap();
            (w.i32_ty, e)
        },
        CompileError::Intrinsic,
    );
    expect_error(
        |w, b| {
            let x = b.add_expr(ExprKind::Tuple(vec![]), w.unit).unwrap();
            let y = b.add_expr(ExprKind::Tuple(vec![]), w.unit).unwrap();
            let e = b.add_expr(ExprKind::Binary(BinaryOp::Add, x, y), w.unit).unwrap();
            (w.unit, e)
        },
        CompileError::BadOperand,
    );
    expect_error(
        |w, b| {
            let p = w.vm.types.intern(TypeKind::Param(0)).unwrap();
            (p, lit(b, 1, p))
        },
        CompileError::MissingSub,
    );
    expect_error(
        |w, b| {
            let s = add_struct(w, vec![w.i32_ty], true);
            let v = lit(b, 1, w.i32_ty);
            let e = b
                .add_expr(ExprKind::Adt { variant: 0, fields: vec![(0, v)], rest: None }, s)
                .unwrap();
            let blk = b
                .add_expr(ExprKind::Block(Block { stmts: vec![Stmt::Expr(e)], result: None }), w.unit)
                .unwrap();
            (w.unit, blk)
        },
        CompileError::DropObligation,
    );
    expect_error(
        |w, b| {
            let s = add_struct(w, vec![w.i32_ty], false);
            let v = lit(b, 1, w.i32_ty);
            let e = b
                .add_expr(ExprKind::Adt { variant: 0, fields: vec![(0, v)], rest: None }, s)
                .unwrap();
            let p = b.add_pattern(PatternKind::Enum { fields: vec![], variant_index: 0 }, s).unwrap();
            let one = lit(b, 1, w.i32_ty);
            let m = b
                .add_expr(
                    ExprKind::Match {
                        arg: e,
                        arms: vec![MatchArm { pattern: p, guard: MatchGuard::Unguarded, body: one }],
                    },
                    w.i32_ty,
                )
                .unwrap();
            (w.i32_ty, m)
        },
        CompileError::NoDiscriminant,
    );
    expect_error(
        |w, b| {
            let v = lit(b, 1, w.i32_ty);
            let p = b.add_pattern(PatternKind::Hole, w.i32_ty).unwrap();
            let one = lit(b, 1, w.i32_ty);
            let m = b
                .add_expr(
                    ExprKind::Match {
                        arg: v,
                        arms: vec![MatchArm { pattern: p, guard: MatchGuard::IfLet, body: one }],
                    },
                    w.i32_ty,
                )
                .unwrap();
            (w.i32_ty, m)
        },
        CompileError::Unsupported,
    );
    expect_error(
        |w, b| {
            let slice = w.vm.types.intern(TypeKind::Slice(w.i32_ty)).unwrap();
            (slice, lit(b, 1, slice))
        },
        CompileError::Unsized,
    );
    let _ = ItemId(0);
}

#[test]
fn a_missing_body_fails_the_call() {
    let mut w = world();
    let i32_ty = w.i32_ty;
    let f = w.prog.crates[0].add(ItemPath::for_value("::f"), ItemKind::new_function()).unwrap();
    let fn_ty = w.vm.ty_func_def(ItemRef { crate_id: CrateId(0), item_id: f }, &no_subs()).unwrap();
    let mut b = IRFunctionBuilder::new();
    let callee = b.add_expr(ExprKind::LiteralVoid, fn_ty).unwrap();
    let call = b.add_expr(ExprKind::Call { func: callee, args: vec![] }, i32_ty).unwrap();
    let ir = body(b, i32_ty, call);
    let code = compile(&mut w, &ir).unwrap();
    let mut th = VMThread::new();
    assert_eq!(
        th.run_bytecode(&mut w.vm, &w.prog, &code, 0, 1000, DEPTH),
        RunResult::CompileFailed(CompileError::MissingIr)
    );
}
