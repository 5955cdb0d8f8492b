use std::sync::Arc;

use skitter::compiler::BytecodeCompiler;
use skitter::error::CompileError;
use skitter::eval_spec::RunResult;
use skitter::ids::{CrateId, ItemId, ItemRef};
use skitter::instr::{Instr, IntBinary, Slot, Width};
use skitter::ir::{
    BinaryOp, BindingMode, ExprId, ExprKind, FieldPattern, FnTrait, FunctionSig, IRFunction,
    IRFunctionBuilder, MatchArm, MatchGuard, PatternId, PatternKind, UpVar,
};
use skitter::items::{
    AdtInfo, AdtKind, AssocValue, BuiltinTrait, GenericCounts, ItemKind, ItemPath, TraitImpl,
};
use skitter::machine::VMThread;
use skitter::program::Program;
use skitter::types::{ArrayLen, IntSign, IntWidth, Mutability, Sub, SubList, Type, TypeKind};
use skitter::vm::{VM, STACK_BASE};

const DEPTH: u32 = 16;

fn int32(vm: &mut VM) -> Type {
    vm.types.intern(TypeKind::Int(IntWidth::I32, IntSign::Signed)).unwrap()
}

fn usize_ty(vm: &mut VM) -> Type {
    vm.types.intern(TypeKind::Int(IntWidth::ISize, IntSign::Unsigned)).unwrap()
}

fn bool_ty(vm: &mut VM) -> Type {
    vm.types.intern(TypeKind::Bool).unwrap()
}

fn unit_ty(vm: &mut VM) -> Type {
    let l = vm.types.intern_list(&vec![]).unwrap();
    vm.types.intern(TypeKind::Tuple(l)).unwrap()
}

fn tuple_ty(vm: &mut VM, tys: &[Type]) -> Type {
    let subs: Vec<Sub> = tys.iter().map(|t| Sub::Type(*t)).collect();
    let l = vm.types.intern_list(&subs).unwrap();
    vm.types.intern(TypeKind::Tuple(l)).unwrap()
}

fn bind(b: &mut IRFunctionBuilder, local: u32, ty: Type) -> PatternId {
    b.add_pattern(
        PatternKind::LocalBinding { local_id: local, mode: BindingMode::Value, sub_pattern: None },
        ty,
    )
    .unwrap()
}

fn start(vm: &mut VM, code: &Vec<Instr>) -> VMThread {
    let span = vm.alloc_bytecode(code).unwrap();
    let mut th = VMThread::new();
    th.enter(span, 0);
    th
}

fn finish(vm: &mut VM, prog: &Program, th: &mut VMThread) {
    let r = vm.run(prog, th, 100_000, DEPTH);
    assert_eq!(r, RunResult::Returned);
}

fn result_i32(th: &VMThread) -> i32 {
    let b = th.copy_result(0, 4).unwrap();
    i32::from_le_bytes([b[0], b[1], b[2], b[3]])
}

/// `fn f() -> i32 { 2 + 3 * 4 }`
fn arithmetic_ir(vm: &mut VM) -> IRFunction {
    let i32_ty = int32(vm);
    let mut b = IRFunctionBuilder::new();
    let two = b.add_expr(ExprKind::LiteralValue(2), i32_ty).unwrap();
    let three = b.add_expr(ExprKind::LiteralValue(3), i32_ty).unwrap();
    let four = b.add_expr(ExprKind::LiteralValue(4), i32_ty).unwrap();
    let mul = b.add_expr(ExprKind::Binary(BinaryOp::Mul, three, four), i32_ty).unwrap();
    let add = b.add_expr(ExprKind::Binary(BinaryOp::Add, two, mul), i32_ty).unwrap();
    b.finish(FunctionSig { inputs: vec![], output: i32_ty }, vec![], add, false)
}

#[test]
fn arithmetic_literal_returns_14() {
    let mut vm = VM::new(false);
    let prog = Program::new();
    let ir = arithmetic_ir(&mut vm);
    let code = BytecodeCompiler::compile(&mut vm, &prog, &ir, &SubList::new(vec![]), DEPTH).unwrap();
    assert_eq!(code.last(), Some(&Instr::Return));
    let mut th = start(&mut vm, &code);
    finish(&mut vm, &prog, &mut th);
    assert_eq!(result_i32(&th), 14);
}

#[test]
fn arithmetic_literal_bytecode() {
    let mut vm = VM::new(false);
    let prog = Program::new();
    let ir = arithmetic_ir(&mut vm);
    let code = BytecodeCompiler::compile(&mut vm, &prog, &ir, &SubList::new(vec![]), DEPTH).unwrap();
    assert_eq!(
        code,
        vec![
            Instr::Const(Width::W32, Slot(4), 2),
            Instr::Const(Width::W32, Slot(12), 3),
            Instr::Const(Width::W32, Slot(16), 4),
            Instr::Binary(Width::W32, IntBinary::Mul, Slot(8), Slot(12), Slot(16)),
            Instr::Binary(Width::W32, IntBinary::Add, Slot(0), Slot(4), Slot(8)),
            Instr::Return,
        ]
    );
}

#[test]
fn compiling_twice_gives_the_same_bytecode() {
    let mut vm = VM::new(false);
    let prog = Program::new();
    let ir = arithmetic_ir(&mut vm);
    let a = BytecodeCompiler::compile(&mut vm, &prog, &ir, &SubList::new(vec![]), DEPTH).unwrap();
    let b = BytecodeCompiler::compile(&mut vm, &prog, &ir, &SubList::new(vec![]), DEPTH).unwrap();
    assert_eq!(a, b);
}

/// `fn g(a: [i32; 4], i: usize) -> i32 { a[i] }`
#[test]
fn array_indexing_returns_element() {
    let mut vm = VM::new(false);
    let prog = Program::new();
    let i32_ty = int32(&mut vm);
    let us = usize_ty(&mut vm);
    let arr = vm.types.intern(TypeKind::Array(i32_ty, ArrayLen::Known(4))).unwrap();
    let mut b = IRFunctionBuilder::new();
    let pa = bind(&mut b, 0, arr);
    let pi = bind(&mut b, 1, us);
    let a = b.add_expr(ExprKind::VarRef(0), arr).unwrap();
    let i = b.add_expr(ExprKind::VarRef(1), us).unwrap();
    let idx = b.add_expr(ExprKind::Index { lhs: a, index: i }, i32_ty).unwrap();
    let ir = b.finish(FunctionSig { inputs: vec![arr, us], output: i32_ty }, vec![pa, pi], idx, false);
    let code = BytecodeCompiler::compile(&mut vm, &prog, &ir, &SubList::new(vec![]), DEPTH).unwrap();
    let mut th = start(&mut vm, &code);
    let mut args: Vec<u8> = Vec::new();
    for v in [10i32, 20, 30, 40] {
        args.extend_from_slice(&v.to_le_bytes());
    }
    assert!(th.write_bytes(4, &args));
    assert!(th.write_bytes(24, &2u64.to_le_bytes().to_vec()));
    finish(&mut vm, &prog, &mut th);
    assert_eq!(result_i32(&th), 30);
}

fn option_program(vm: &mut VM) -> (Program<'static>, Type) {
    let mut prog = Program::new();
    let c = prog.add_crate().unwrap();
    let opt = prog.crates[0].add(ItemPath::for_type("::Option"), ItemKind::new_adt()).unwrap();
    let t0 = vm.types.intern(TypeKind::Param(0)).unwrap();
    let disc = vm.types.intern(TypeKind::Int(IntWidth::I32, IntSign::Unsigned)).unwrap();
    prog.crates[0].items[opt.index()]
        .set_adt_info(AdtInfo {
            variant_fields: vec![vec![], vec![t0]],
            kind: AdtKind::EnumWithDiscriminant(disc),
            needs_drop: false,
        })
        .unwrap();
    let i32_ty = int32(vm);
    let l = vm.types.intern_list(&vec![Sub::Type(i32_ty)]).unwrap();
    let opt_i32 = vm
        .types
        .intern(TypeKind::Adt(ItemRef { crate_id: c, item_id: opt }, l))
        .unwrap();
    (prog, opt_i32)
}

/// `match <scrutinee> { Some(x) => x + 1, None => 0 }`
fn match_ir(vm: &mut VM, opt_i32: Type, some: Option<i128>) -> IRFunction {
    let i32_ty = int32(vm);
    let mut b = IRFunctionBuilder::new();
    let arg = match some {
        Some(v) => {
            let lit = b.add_expr(ExprKind::LiteralValue(v), i32_ty).unwrap();
            b.add_expr(ExprKind::Adt { variant: 1, fields: vec![(0, lit)], rest: None }, opt_i32)
                .unwrap()
        }
        None => b
            .add_expr(ExprKind::Adt { variant: 0, fields: vec![], rest: None }, opt_i32)
            .unwrap(),
    };
    let px = bind(&mut b, 7, i32_ty);
    let p_some = b
        .add_pattern(
            PatternKind::Enum {
                fields: vec![FieldPattern { field: 0, pattern: px }],
                variant_index: 1,
            },
            opt_i32,
        )
        .unwrap();
    let p_none = b
        .add_pattern(PatternKind::Enum { fields: vec![], variant_index: 0 }, opt_i32)
        .unwrap();
    let x = b.add_expr(ExprKind::VarRef(7), i32_ty).unwrap();
    let one = b.add_expr(ExprKind::LiteralValue(1), i32_ty).unwrap();
    let sum = b.add_expr(ExprKind::Binary(BinaryOp::Add, x, one), i32_ty).unwrap();
    let zero = b.add_expr(ExprKind::LiteralValue(0), i32_ty).unwrap();
    let m = b
        .add_expr(
            ExprKind::Match {
                arg,
                arms: vec![
                    MatchArm { pattern: p_some, guard: MatchGuard::Unguarded, body: sum },
                    MatchArm { pattern: p_none, guard: MatchGuard::Unguarded, body: zero },
                ],
            },
            i32_ty,
        )
        .unwrap();
    b.finish(FunctionSig { inputs: vec![], output: i32_ty }, vec![], m, false)
}

#[test]
fn enum_match_some_yields_8() {
    let mut vm = VM::new(false);
    let (prog, opt_i32) = option_program(&mut vm);
    let ir = match_ir(&mut vm, opt_i32, Some(7));
    let code = BytecodeCompiler::compile(&mut vm, &prog, &ir, &SubList::new(vec![]), DEPTH).unwrap();
    assert!(!code.contains(&Instr::Skipped));
    let mut th = start(&mut vm, &code);
    finish(&mut vm, &prog, &mut th);
    assert_eq!(result_i32(&th), 8);
}

#[test]
fn enum_match_none_yields_0() {
    let mut vm = VM::new(false);
    let (prog, opt_i32) = option_program(&mut vm);
    let ir = match_ir(&mut vm, opt_i32, None);
    let code = BytecodeCompiler::compile(&mut vm, &prog, &ir, &SubList::new(vec![]), DEPTH).unwrap();
    let mut th = start(&mut vm, &code);
    finish(&mut vm, &prog, &mut th);
    assert_eq!(result_i32(&th), 0);
}

/// A trait `T { fn id(self) -> i32; }` with implementations for `i32` and
/// `bool`, and `fn f<X: T>(x: X) -> i32 { x.id() }`.
fn dispatch_program(vm: &mut VM) -> (Program<'static>, IRFunction) {
    let i32_ty = int32(vm);
    let b_ty = bool_ty(vm);
    let p0 = vm.types.intern(TypeKind::Param(0)).unwrap();
    let mut prog = Program::new();
    let c = prog.add_crate().unwrap();
    let t = prog.crates[0].add(ItemPath::for_type("::T"), ItemKind::new_trait()).unwrap();
    let id = prog.crates[0]
        .add(ItemPath::for_value("::T::id"), ItemKind::new_function_virtual(t, 0))
        .unwrap();
    let id_i32 = prog.crates[0]
        .add(ItemPath::for_debug("::{impl}::id"), ItemKind::new_function())
        .unwrap();
    let id_bool = prog.crates[0]
        .add(ItemPath::for_debug("::{impl}::id"), ItemKind::new_function())
        .unwrap();
    // fn id(self) -> i32 { self }
    {
        let mut b = IRFunctionBuilder::new();
        let p = bind(&mut b, 0, i32_ty);
        let x = b.add_expr(ExprKind::VarRef(0), i32_ty).unwrap();
        let ir = b.finish(FunctionSig { inputs: vec![i32_ty], output: i32_ty }, vec![p], x, false);
        prog.crates[0].items[id_i32.index()].set_raw_ir(Arc::new(ir)).unwrap();
    }
    // fn id(self) -> i32 { if self { 1 } else { 0 } }
    {
        let mut b = IRFunctionBuilder::new();
        let p = bind(&mut b, 0, b_ty);
        let x = b.add_expr(ExprKind::VarRef(0), b_ty).unwrap();
        let one = b.add_expr(ExprKind::LiteralValue(1), i32_ty).unwrap();
        let zero = b.add_expr(ExprKind::LiteralValue(0), i32_ty).unwrap();
        let e = b
            .add_expr(ExprKind::If { cond: x, then: one, else_opt: Some(zero) }, i32_ty)
            .unwrap();
        let ir = b.finish(FunctionSig { inputs: vec![b_ty], output: i32_ty }, vec![p], e, false);
        prog.crates[0].items[id_bool.index()].set_raw_ir(Arc::new(ir)).unwrap();
    }
    for (ty, item) in [(i32_ty, id_i32), (b_ty, id_bool)] {
        prog.crates[0].items[t.index()]
            .add_trait_impl(TraitImpl {
                for_types: SubList::new(vec![Sub::Type(ty)]),
                crate_id: c,
                assoc_values: vec![Some(AssocValue::Item(item))],
                bounds: vec![],
                generics: GenericCounts { lifetimes: 0, types: 0, consts: 0 },
            })
            .unwrap();
    }
    // fn f<X: T>(x: X) -> i32 { x.id() }
    let l = vm.types.intern_list(&vec![Sub::Type(p0)]).unwrap();
    let fn_ty = vm
        .types
        .intern(TypeKind::FunctionDef(ItemRef { crate_id: c, item_id: id }, l))
        .unwrap();
    let mut b = IRFunctionBuilder::new();
    let p = bind(&mut b, 0, p0);
    let callee = b.add_expr(ExprKind::LiteralVoid, fn_ty).unwrap();
    let x = b.add_expr(ExprKind::VarRef(0), p0).unwrap();
    let call = b.add_expr(ExprKind::Call { func: callee, args: vec![x] }, i32_ty).unwrap();
    let f = b.finish(FunctionSig { inputs: vec![p0], output: i32_ty }, vec![p], call, false);
    (prog, f)
}

#[test]
fn trait_dispatch_on_i32_returns_self() {
    let mut vm = VM::new(false);
    let (prog, f) = dispatch_program(&mut vm);
    let i32_ty = int32(&mut vm);
    let subs = SubList::new(vec![Sub::Type(i32_ty)]);
    let code = BytecodeCompiler::compile(&mut vm, &prog, &f, &subs, DEPTH).unwrap();
    let mut th = start(&mut vm, &code);
    assert!(th.write_bytes(4, &42i32.to_le_bytes().to_vec()));
    finish(&mut vm, &prog, &mut th);
    assert_eq!(result_i32(&th), 42);
}

#[test]
fn trait_dispatch_on_bool_returns_1() {
    let mut vm = VM::new(false);
    let (prog, f) = dispatch_program(&mut vm);
    let b_ty = bool_ty(&mut vm);
    let subs = SubList::new(vec![Sub::Type(b_ty)]);
    let code = BytecodeCompiler::compile(&mut vm, &prog, &f, &subs, DEPTH).unwrap();
    let mut th = start(&mut vm, &code);
    assert!(th.write_bytes(4, &vec![1u8]));
    finish(&mut vm, &prog, &mut th);
    assert_eq!(result_i32(&th), 1);
}

#[test]
fn trait_dispatch_without_impl_fails() {
    let mut vm = VM::new(false);
    let (prog, f) = dispatch_program(&mut vm);
    let u = unit_ty(&mut vm);
    let subs = SubList::new(vec![Sub::Type(u)]);
    let code = BytecodeCompiler::compile(&mut vm, &prog, &f, &subs, DEPTH).unwrap();
    let mut th = start(&mut vm, &code);
    let r = vm.run(&prog, &mut th, 1000, DEPTH);
    assert_eq!(r, RunResult::CompileFailed(CompileError::NoImpl));
}

/// The closure `|a, b| a + b` with an empty environment, and the trait
/// `FnOnce` with the member `call_once`.
fn closure_program(vm: &mut VM) -> (Program<'static>, Type, ItemRef) {
    let i32_ty = int32(vm);
    let unit = unit_ty(vm);
    let mut prog = Program::new();
    let c = prog.add_crate().unwrap();
    let fn_once = prog.crates[0].add(ItemPath::for_type("::FnOnce"), ItemKind::new_trait()).unwrap();
    prog.crates[0].items[fn_once.index()].trait_set_builtin(BuiltinTrait::FnOnce).unwrap();
    let call_once = prog.crates[0]
        .add(ItemPath::for_value("::FnOnce::call_once"), ItemKind::new_function_virtual(fn_once, 0))
        .unwrap();
    let n = prog.alloc_closure().unwrap();
    let no_subs = vm.types.intern_list(&vec![]).unwrap();
    let closure_ty = vm.types.intern(TypeKind::Closure(n, unit, no_subs)).unwrap();
    let mut b = IRFunctionBuilder::new();
    let pa = bind(&mut b, 0, i32_ty);
    let pb = bind(&mut b, 1, i32_ty);
    let a = b.add_expr(ExprKind::VarRef(0), i32_ty).unwrap();
    let bb = b.add_expr(ExprKind::VarRef(1), i32_ty).unwrap();
    let sum = b.add_expr(ExprKind::Binary(BinaryOp::Add, a, bb), i32_ty).unwrap();
    let ir = b.finish(
        FunctionSig { inputs: vec![i32_ty, i32_ty], output: i32_ty },
        vec![pa, pb],
        sum,
        false,
    );
    prog.closures[n as usize].set_ir_base(&mut vm.types, ir, closure_ty).unwrap();
    (prog, closure_ty, ItemRef { crate_id: c, item_id: call_once })
}

/// `let c = |a, b| a + b; c(3, 4)`
#[test]
fn closure_call_returns_7() {
    let mut vm = VM::new(false);
    let (prog, closure_ty, call_once) = closure_program(&mut vm);
    let i32_ty = int32(&mut vm);
    let args_ty = tuple_ty(&mut vm, &[i32_ty, i32_ty]);
    let l = vm
        .types
        .intern_list(&vec![Sub::Type(closure_ty), Sub::Type(args_ty)])
        .unwrap();
    let fn_ty = vm.types.intern(TypeKind::FunctionDef(call_once, l)).unwrap();
    let mut b = IRFunctionBuilder::new();
    let pc = bind(&mut b, 0, closure_ty);
    let make = b.add_expr(ExprKind::Tuple(vec![]), closure_ty).unwrap();
    let let_c = skitter::ir::Stmt::Let { pattern: pc, init: Some(make), else_block: None };
    let callee = b.add_expr(ExprKind::LiteralVoid, fn_ty).unwrap();
    let c = b.add_expr(ExprKind::VarRef(0), closure_ty).unwrap();
    let three = b.add_expr(ExprKind::LiteralValue(3), i32_ty).unwrap();
    let four = b.add_expr(ExprKind::LiteralValue(4), i32_ty).unwrap();
    let args = b.add_expr(ExprKind::Tuple(vec![three, four]), args_ty).unwrap();
    let call = b.add_expr(ExprKind::Call { func: callee, args: vec![c, args] }, i32_ty).unwrap();
    let block = b
        .add_expr(
            ExprKind::Block(skitter::ir::Block { stmts: vec![let_c], result: Some(call) }),
            i32_ty,
        )
        .unwrap();
    let ir = b.finish(FunctionSig { inputs: vec![], output: i32_ty }, vec![], block, false);
    let code = BytecodeCompiler::compile(&mut vm, &prog, &ir, &SubList::new(vec![]), DEPTH).unwrap();
    let mut th = start(&mut vm, &code);
    finish(&mut vm, &prog, &mut th);
    assert_eq!(result_i32(&th), 7);
    let _ = (FnTrait::FnOnce, CrateId(0), ItemId(0), ExprId(0), Mutability::Mut, STACK_BASE);
    let _ = UpVar { index: 0, is_ref: false };
}
