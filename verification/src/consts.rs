//! Compilation of whole functions, and constants in the compiler: promoted
//! references, constant blocks, named constants, statics and vtables.

use vstd::prelude::*;
use crate::abi::POINTER_SIZE;
use crate::compiler::{done, done_unit, BytecodeCompiler, Ctx};
use crate::error::CompileError;
use crate::eval_spec::{words_bytes, RunResult};
use crate::ids::{CrateId, ItemRef};
use crate::instr::{FuncId, Instr, Slot};
use crate::ir::{ExprId, FnTrait, IRFunction, PatternId};
use crate::items::{AssocValue, ItemKind};
use crate::lowering::{ClosureInfo, CompilerView, Env, St};
use crate::machine::{StepResult, ThreadView, VMThread};
use crate::maps::{mono_get, mono_insert};
use crate::matcher::{lemma_listed_in_range, ImplChoice};
use crate::memory::{bytes, bytes_of};
use crate::program::Program;
use crate::stack::{Place, PointerKind};
use crate::types::{ListId, Span, Sub, SubList, Type, TypeKind};
use crate::vm::{FunctionSource, VmView, CONST_BASE, FUNC_BASE, VM};

verus! {

pub open spec fn code_view(r: Result<Vec<Instr>, CompileError>, vm: VmView) -> Result<
    (VmView, Seq<Instr>),
    CompileError,
> {
    match r {
        Ok(v) => Ok((vm, v@)),
        Err(e) => Err(e),
    }
}

pub open spec fn promoted_view(r: Result<(Vec<Instr>, Place), CompileError>, vm: VmView) -> Result<
    (VmView, (Seq<Instr>, Place)),
    CompileError,
> {
    match r {
        Ok((v, p)) => Ok((vm, (v@, p))),
        Err(e) => Err(e),
    }
}

pub open spec fn thread_view(r: Result<VMThread, CompileError>, vm: VmView) -> Result<
    (VmView, ThreadView),
    CompileError,
> {
    match r {
        Ok(th) => Ok((vm, th@)),
        Err(e) => Err(e),
    }
}

pub open spec fn value_view<T>(r: Result<T, CompileError>, vm: VmView) -> Result<
    (VmView, T),
    CompileError,
> {
    match r {
        Ok(v) => Ok((vm, v)),
        Err(e) => Err(e),
    }
}

pub open spec fn state_view(r: Result<(), CompileError>, vm: VmView) -> Result<
    VmView,
    CompileError,
> {
    match r {
        Ok(_) => Ok(vm),
        Err(e) => Err(e),
    }
}

pub open spec fn words_view(r: Result<Vec<u64>, CompileError>, vm: VmView) -> Result<
    (VmView, Seq<u64>),
    CompileError,
> {
    match r {
        Ok(v) => Ok((vm, v@)),
        Err(e) => Err(e),
    }
}

fn words_to_bytes(words: &Vec<u64>) -> (r: Vec<u8>)
    ensures
        r@ == words_bytes(words@, 0, Seq::empty()),
{
    let mut out: Vec<u8> = Vec::new();
    let mut i: usize = 0;
    while i < words.len()
        invariant
            i <= words.len(),
            words_bytes(words@, i as int, out@) == words_bytes(words@, 0, Seq::empty()),
        decreases words.len() - i,
    {
        let mut b = bytes(words[i] as u128, 8);
        let ghost before = out@;
        out.append(&mut b);
        proof {
            assert(out@ =~= before + bytes_of(words@[i as int] as u128, 8));
        }
        i += 1;
    }
    out
}

impl VM {
    /// Appends bytecode to the arena and returns its run.
    pub fn alloc_bytecode(&mut self, bc: &Vec<Instr>) -> (r: Result<Span, CompileError>)
        ensures
            (final(self)@, r) == old(self)@.alloc_bytecode(bc@),
    {
        let start: usize = self.code.len();
        if bc.len() > u32::MAX as usize || start > u32::MAX as usize - bc.len() {
            return Err(CompileError::TableFull);
        }
        let mut k: usize = 0;
        while k < bc.len()
            invariant
                k <= bc.len(),
                self.code@ == old(self).code@ + bc@.take(k as int),
                self.types == old(self).types,
                self.is_verbose == old(self).is_verbose,
                self.core_crate == old(self).core_crate,
                self.functions == old(self).functions,
                self.constants == old(self).constants,
                self.mono == old(self).mono,
                self.closure_mono == old(self).closure_mono,
                self.const_values == old(self).const_values,
                self.vtables == old(self).vtables,
                self.depth_limit == old(self).depth_limit,
                self.step_limit == old(self).step_limit,
            decreases bc.len() - k,
        {
            self.code.push(bc[k]);
            proof {
                assert(self.code@ =~= old(self).code@ + bc@.take(k + 1));
            }
            k += 1;
        }
        proof {
            assert(bc@.take(bc.len() as int) =~= bc@);
        }
        Ok(Span { start: start as u32, len: bc.len() as u32 })
    }

    /// Makes sure that a function has bytecode: a function without is
    /// compiled from the body that its source gives for its substitutions.
    #[verifier::rlimit(40)]
    pub fn ensure_compiled(&mut self, prog: &Program, f: FuncId, depth: u32) -> (r: Result<
        (),
        CompileError,
    >)
        ensures
            state_view(r, final(self)@) == old(self)@.ensure_compiled(*prog, f, depth as nat),
            r is Ok ==> final(self)@.has_func(f) && final(self)@.func(f).bytecode is Some,
        decreases depth, 2int, 0int, 0int, 0int, 0int,
    {
        if (f.0 as usize) >= self.functions.len() {
            return Err(CompileError::ItemMismatch);
        }
        let func = self.functions[f.0 as usize];
        if func.bytecode.is_some() {
            return Ok(());
        }
        let subs = match self.types.list(func.subs) {
            Ok(v) => SubList { list: v },
            Err(_) => {
                return Err(CompileError::BadType);
            },
        };
        let bc = match func.source {
            FunctionSource::Item(item) => {
                let (ir, ts) = prog.item_ir(&mut self.types, item, &subs, depth)?;
                BytecodeCompiler::compile(self, prog, &ir, &ts, depth)?
            },
            FunctionSource::Closure(c) => {
                if (c as usize) >= prog.closures.len() {
                    return Err(CompileError::ItemMismatch);
                }
                let ir = prog.closures[c as usize].ir_base()?;
                BytecodeCompiler::compile(self, prog, &ir, &subs, depth)?
            },
        };
        self.publish(f, &bc)
    }

    /// Publishes bytecode for a function that exists.
    fn publish(&mut self, f: FuncId, bc: &Vec<Instr>) -> (r: Result<(), CompileError>)
        ensures
            (final(self)@, r) == old(self)@.set_bytecode(f, bc@),
            r is Ok ==> final(self)@.has_func(f) && final(self)@.func(f).bytecode is Some,
    {
        self.set_bytecode(f, bc)
    }

    /// Runs a thread for at most `steps` instructions. A function that is
    /// called without bytecode is compiled on the way. Where that fails,
    /// the machine is left in the state in which the compilation failed.
    pub fn run(&mut self, prog: &Program, th: &mut VMThread, steps: u64, depth: u32) -> (r:
        RunResult)
        ensures
            r == old(self)@.run(*prog, old(th)@, steps as nat, depth as nat).2,
            final(th)@ == old(self)@.run(*prog, old(th)@, steps as nat, depth as nat).1,
            !(r is CompileFailed) ==> final(self)@ == old(self)@.run(
                *prog,
                old(th)@,
                steps as nat,
                depth as nat,
            ).0,
        decreases depth, 3int, 0int, 0int, 0int, steps,
    {
        let mut left: u64 = steps;
        while left > 0
            invariant
                self@.run(*prog, th@, left as nat, depth as nat) == old(self)@.run(
                    *prog,
                    old(th)@,
                    steps as nat,
                    depth as nat,
                ),
            decreases left,
        {
            match th.step(self) {
                StepResult::Continue => {},
                StepResult::NeedsCompile(f) => {
                    match self.ensure_compiled(prog, f, depth) {
                        Ok(_) => {},
                        Err(e) => {
                            return RunResult::CompileFailed(e);
                        },
                    }
                },
                StepResult::Returned => {
                    return RunResult::Returned;
                },
                StepResult::Native(b, base) => {
                    return RunResult::Native(b, base);
                },
                StepResult::Float(i, base) => {
                    return RunResult::Float(i, base);
                },
                StepResult::Fault(e) => {
                    return RunResult::Fault(e);
                },
            }
            left -= 1;
        }
        RunResult::OutOfSteps
    }

    /// Runs bytecode to its `Return` on a new thread, within the step limit
    /// for constants, and returns the thread.
    pub fn eval(&mut self, prog: &Program, code: &Vec<Instr>, depth: u32) -> (r: Result<
        VMThread,
        CompileError,
    >)
        ensures
            thread_view(r, final(self)@) == old(self)@.eval(*prog, code@, depth as nat),
        decreases depth, 4int, 0int, 0int, 0int, 0int,
    {
        let span = self.alloc_bytecode(code)?;
        let mut th = VMThread::new();
        th.enter(span, 0);
        let limit = self.step_limit;
        match self.run(prog, &mut th, limit, depth) {
            RunResult::Returned => Ok(th),
            RunResult::CompileFailed(e) => Err(e),
            _ => Err(CompileError::ConstEval),
        }
    }

    /// Evaluates a body without parameters and copies its value to the
    /// constant arena. Returns the offset of the value.
    pub fn evaluate(&mut self, prog: &Program, ir: &IRFunction, subs: &SubList, depth: u32) -> (r:
        Result<u32, CompileError>)
        ensures
            value_view(r, final(self)@) == old(self)@.evaluate(
                Env { prog: *prog, ir: *ir, subs: subs.list@ },
                depth as nat,
            ),
        decreases depth, 5int, 0int, 0int, 0int, 0int,
    {
        let code = BytecodeCompiler::compile(self, prog, ir, subs, depth)?;
        let th = self.eval(prog, &code, depth)?;
        let c = BytecodeCompiler::new();
        let ctx = Ctx { prog, ir, subs };
        let (_, l) = c.ty_layout(self, &ctx, ir.sig.output)?;
        let size = l.assert_size()?;
        match th.copy_result(0, size as usize) {
            Some(data) => self.alloc_constant(&data),
            None => Err(CompileError::ConstEval),
        }
    }

    /// The offset in the constant arena of the value of a constant for the
    /// given substitutions. The constant is evaluated on the first request.
    pub fn const_value(&mut self, prog: &Program, item: ItemRef, subs: &SubList, depth: u32) -> (r:
        Result<u32, CompileError>)
        ensures
            value_view(r, final(self)@) == old(self)@.const_value(
                *prog,
                item,
                subs.list@,
                depth as nat,
            ),
        decreases depth, 5int, 1int, 0int, 0int, 0int,
    {
        let it = prog.item(item)?;
        match &it.kind {
            ItemKind::Constant { .. } => {},
            _ => {
                return Err(CompileError::ItemMismatch);
            },
        }
        let l = self.types.intern_list(&subs.list)?;
        let key = (item.crate_id.0, item.item_id.0, l.0);
        match mono_get(&self.const_values, key) {
            Some(off) => Ok(off),
            None => {
                let (ir, ts) = prog.item_ir(&mut self.types, item, subs, depth)?;
                let off = self.evaluate(prog, &ir, &ts, depth)?;
                mono_insert(&mut self.const_values, key, off);
                Ok(off)
            },
        }
    }

    fn vtable_words(
        &mut self,
        prog: &Program,
        crate_id: CrateId,
        values: &Vec<Option<AssocValue>>,
        subs: &SubList,
    ) -> (r: Result<Vec<u64>, CompileError>)
        ensures
            words_view(r, final(self)@) == old(self)@.vtable_words(
                *prog,
                crate_id,
                values@,
                subs.list@,
                0,
                Seq::empty(),
            ),
    {
        let mut acc: Vec<u64> = Vec::new();
        let mut i: usize = 0;
        while i < values.len()
            invariant
                i <= values.len(),
                self@.vtable_words(*prog, crate_id, values@, subs.list@, i as int, acc@) == old(self)@.vtable_words(*prog, crate_id, values@, subs.list@, 0, Seq::empty()),
            decreases values.len() - i,
        {
            match &values[i] {
                Some(AssocValue::Item(fn_item)) => {
                    let item = ItemRef { crate_id, item_id: *fn_item };
                    let is_fn = match prog.item(item) {
                        Ok(it) => it.is_function(),
                        Err(_) => false,
                    };
                    if is_fn {
                        let f = self.func_mono(prog, item, subs)?;
                        acc.push(FUNC_BASE + f.0 as u64);
                    } else {
                        acc.push(0);
                    }
                },
                _ => {
                    acc.push(0);
                },
            }
            i += 1;
        }
        Ok(acc)
    }

    /// The offset in the constant arena of the vtable of a type for a
    /// trait. The table is built on the first request.
    pub fn find_vtable(&mut self, prog: &Program, trait_item: ItemRef, ty: Type, depth: u32) -> (r:
        Result<u32, CompileError>)
        ensures
            value_view(r, final(self)@) == old(self)@.find_vtable(
                *prog,
                trait_item,
                ty,
                depth as nat,
            ),
    {
        let key = (trait_item.crate_id.0, trait_item.item_id.0, ty.0);
        match mono_get(&self.vtables, key) {
            Some(off) => {
                return Ok(off);
            },
            None => {},
        }
        let mut list: Vec<Sub> = Vec::new();
        list.push(Sub::Type(ty));
        proof {
            assert(list@ =~= seq![Sub::Type(ty)]);
        }
        let for_tys = SubList { list };
        match prog.find_trait_impl(&mut self.types, trait_item, &for_tys, depth)? {
            Some((ImplChoice::Listed(i), ts)) => {
                let it = match prog.item(trait_item) {
                    Ok(it) => it,
                    Err(_) => {
                        return Err(CompileError::Unsupported);
                    },
                };
                match &it.kind {
                    ItemKind::Trait { impl_list, .. } => {
                        proof {
                            lemma_listed_in_range(
                                old(self)@.types,
                                *prog,
                                impl_list@,
                                for_tys.list@,
                                0,
                                depth as nat,
                            );
                        }
                        let imp = &impl_list[i as usize];
                        let words = self.vtable_words(prog, imp.crate_id, &imp.assoc_values, &ts)?;
                        let data = words_to_bytes(&words);
                        let off = self.alloc_constant(&data)?;
                        mono_insert(&mut self.vtables, key, off);
                        Ok(off)
                    },
                    _ => Err(CompileError::Unsupported),
                }
            },
            Some(_) => Err(CompileError::Unsupported),
            None => Err(CompileError::NoImpl),
        }
    }
}

impl BytecodeCompiler {
    fn param_slots(&mut self, vm: &mut VM, ctx: &Ctx) -> (r: Result<Vec<Slot>, CompileError>)
        ensures
            match r {
                Ok(v) => old(self).st(old(vm)@).param_slots(
                    ctx.env(),
                    ctx.ir.params@,
                    0,
                    Seq::empty(),
                ) == Ok::<(St, Seq<Slot>), CompileError>((final(self).st(final(vm)@), v@)),
                Err(e) => old(self).st(old(vm)@).param_slots(
                    ctx.env(),
                    ctx.ir.params@,
                    0,
                    Seq::empty(),
                ) == Err::<(St, Seq<Slot>), CompileError>(e),
            },
    {
        let mut acc: Vec<Slot> = Vec::new();
        let mut i: usize = 0;
        while i < ctx.ir.params.len()
            invariant
                i <= ctx.ir.params.len(),
                self.st(vm@).param_slots(ctx.env(), ctx.ir.params@, i as int, acc@) == old(self).st(old(vm)@).param_slots(ctx.env(), ctx.ir.params@, 0, Seq::empty()),
            decreases ctx.ir.params.len() - i,
        {
            let (_, l) = self.pattern_layout(vm, ctx, ctx.ir.params[i])?;
            let slot = self.alloc_slot(Ghost(vm@), l)?;
            acc.push(slot);
            i += 1;
        }
        Ok(acc)
    }

    fn closure_info(&self, vm: &mut VM, ctx: &Ctx, slots: &Vec<Slot>) -> (r: Result<
        Option<ClosureInfo>,
        CompileError,
    >)
        ensures
            done(r, self@, final(vm)@) == self.st(old(vm)@).closure_info(ctx.env(), slots@),
    {
        match ctx.ir.closure_kind {
            None => Ok(None),
            Some(kind) => {
                if ctx.ir.params.len() == 0 || slots.len() == 0 {
                    return Err(CompileError::BadPattern);
                }
                let (ty, _) = self.pattern_layout(vm, ctx, ctx.ir.params[0])?;
                match kind {
                    FnTrait::FnOnce => Ok(
                        Some(ClosureInfo { kind, self_slot: slots[0], self_ty: ty }),
                    ),
                    _ => match vm.types.kind(ty)? {
                        TypeKind::Ref(t, _) => Ok(
                            Some(ClosureInfo { kind, self_slot: slots[0], self_ty: t }),
                        ),
                        _ => Err(CompileError::Unsupported),
                    },
                }
            },
        }
    }

    fn bind_params(
        &mut self,
        vm: &mut VM,
        ctx: &Ctx,
        slots: &Vec<Slot>,
        bound: ExprId,
        depth: u32,
    ) -> (r: Result<(), CompileError>)
        ensures
            done_unit(r, final(self)@, final(vm)@) == old(self).st(old(vm)@).bind_params(
                ctx.env(),
                ctx.ir.params@,
                slots@,
                0,
                bound,
                depth as nat,
            ),
        decreases depth, 1int, 0int, 0int, 0int, ctx.ir.params.len(),
    {
        let mut i: usize = 0;
        while i < ctx.ir.params.len() && i < slots.len()
            invariant
                i <= ctx.ir.params.len(),
                self.st(vm@).bind_params(
                    ctx.env(),
                    ctx.ir.params@,
                    slots@,
                    i as int,
                    bound,
                    depth as nat,
                ) == old(self).st(old(vm)@).bind_params(
                    ctx.env(),
                    ctx.ir.params@,
                    slots@,
                    0,
                    bound,
                    depth as nat,
                ),
            decreases ctx.ir.params.len() - i,
        {
            self.match_pattern_internal(
                vm,
                ctx,
                ctx.ir.params[i],
                Place::Local(slots[i]),
                true,
                None,
                bound,
                depth,
            )?;
            i += 1;
        }
        Ok(())
    }

    /// Compiles a function body with the given substitutions to bytecode.
    ///
    /// Slot 0 of the frame is the return slot. The parameters get the
    /// slots after it, in order. The code ends in a `Return`, before which
    /// the value of the body has been written to slot 0.
    pub fn compile(vm: &mut VM, prog: &Program, ir: &IRFunction, subs: &SubList, depth: u32) -> (r:
        Result<Vec<Instr>, CompileError>)
        ensures
            code_view(r, final(vm)@) == old(vm)@.compile(
                Env { prog: *prog, ir: *ir, subs: subs.list@ },
                depth as nat,
            ),
        decreases depth, 1int, 1int, 0int, 0int, 0int,
    {
        let ctx = Ctx { prog, ir, subs };
        if ir.exprs.len() > u32::MAX as usize {
            return Err(CompileError::BadExpr);
        }
        let mut c = BytecodeCompiler::new();
        let (_, out) = c.ty_layout(vm, &ctx, ir.sig.output)?;
        let ret = c.stack.alloc_no_drop(out)?;
        if ret != Slot::new(0) {
            return Err(CompileError::BadCall);
        }
        let scope = c.push_scope(Ghost(vm@), "body")?;
        let slots = c.param_slots(vm, &ctx)?;
        let closure = c.closure_info(vm, &ctx, &slots)?;
        c.closure = closure;
        c.bind_params(vm, &ctx, &slots, ExprId(ir.exprs.len() as u32), depth)?;
        c.lower_expr(vm, &ctx, ir.root_expr, Some(Slot::new(0)), depth)?;
        c.pop_scope(Ghost(vm@), scope)?;
        c.out_bc.push(Instr::Return);
        Ok(c.out_bc)
    }

    /// Compiles one expression of a function on its own. Returns the
    /// bytecode and the place where it leaves the value.
    pub fn compile_promoted(vm: &mut VM, ctx: &Ctx, root_expr: ExprId, depth: u32) -> (r: Result<
        (Vec<Instr>, Place),
        CompileError,
    >)
        ensures
            promoted_view(r, final(vm)@) == old(vm)@.promoted_code(
                ctx.env(),
                root_expr,
                depth as nat,
            ),
        decreases depth, 1int, 0int, 0int, 0int, 0int,
    {
        let mut c = BytecodeCompiler::new();
        let place = c.expr_to_place(vm, ctx, root_expr, depth)?;
        c.out_bc.push(Instr::Return);
        Ok((c.out_bc, place))
    }

    /// Evaluates a promotable expression ahead of time. Returns the address
    /// of the value, and for a fat pointer its metadata.
    pub fn compile_promoted_const(vm: &mut VM, ctx: &Ctx, root_expr: ExprId, depth: u32) -> (r:
        Result<(u64, Option<u64>), CompileError>)
        ensures
            done(r, CompilerView::empty(), final(vm)@) == (St {
                c: CompilerView::empty(),
                vm: old(vm)@,
            }).const_promote(ctx.env(), root_expr, depth as nat),
        decreases depth, 6int, 1int, 0int, 0int, 0int,
    {
        let c = BytecodeCompiler::new();
        c.const_promote(vm, ctx, root_expr, depth)
    }

    pub(crate) fn const_promote(&self, vm: &mut VM, ctx: &Ctx, arg: ExprId, depth: u32) -> (r:
        Result<(u64, Option<u64>), CompileError>)
        ensures
            done(r, self@, final(vm)@) == self.st(old(vm)@).const_promote(
                ctx.env(),
                arg,
                depth as nat,
            ),
        decreases depth, 6int, 0int, 0int, 0int, 0int,
    {
        let (code, place) = Self::compile_promoted(vm, ctx, arg, depth)?;
        let th = vm.eval(ctx.prog, &code, depth)?;
        match place {
            Place::Local(slot) => {
                let (_, l) = self.expr_layout(vm, ctx, arg)?;
                let size = l.assert_size()?;
                match th.copy_result(slot.index(), size as usize) {
                    Some(data) => {
                        let off = vm.alloc_constant(&data)?;
                        Ok((CONST_BASE + off as u64, None))
                    },
                    None => Err(CompileError::ConstEval),
                }
            },
            Place::Ptr(slot, off, kind) => {
                if off != 0 {
                    return Err(CompileError::Unsupported);
                }
                match th.copy_ptr(slot) {
                    Some(p) => {
                        if kind.is_fat() {
                            match th.meta_ptr(slot) {
                                Some(m) => Ok((p, Some(m))),
                                None => Err(CompileError::ConstEval),
                            }
                        } else {
                            Ok((p, None))
                        }
                    },
                    None => Err(CompileError::ConstEval),
                }
            },
        }
    }

    pub(crate) fn const_block(&self, vm: &mut VM, ctx: &Ctx, ir: &IRFunction, depth: u32) -> (r:
        Result<u64, CompileError>)
        ensures
            done(r, self@, final(vm)@) == self.st(old(vm)@).const_block(
                ctx.env(),
                *ir,
                depth as nat,
            ),
        decreases depth, 6int, 0int, 0int, 0int, 0int,
    {
        let off = vm.evaluate(ctx.prog, ir, ctx.subs, depth)?;
        Ok(CONST_BASE + off as u64)
    }

    pub(crate) fn named_const(
        &self,
        vm: &mut VM,
        ctx: &Ctx,
        item: ItemRef,
        sl: ListId,
        depth: u32,
    ) -> (r: Result<u64, CompileError>)
        ensures
            done(r, self@, final(vm)@) == self.st(old(vm)@).named_const(
                ctx.env(),
                item,
                sl,
                depth as nat,
            ),
        decreases depth, 6int, 0int, 0int, 0int, 0int,
    {
        let list = vm.types.list(sl)?;
        let subs = vm.types.sub_entries(&list, &ctx.subs.list, u32::MAX)?;
        let off = vm.const_value(ctx.prog, item, &SubList { list: subs }, depth)?;
        Ok(CONST_BASE + off as u64)
    }

    pub(crate) fn static_value(&self, vm: &mut VM, ctx: &Ctx, item: ItemRef, depth: u32) -> (r:
        Result<u64, CompileError>)
        ensures
            done(r, self@, final(vm)@) == self.st(old(vm)@).static_value(
                ctx.env(),
                item,
                depth as nat,
            ),
        decreases depth, 6int, 0int, 0int, 0int, 0int,
    {
        let off = vm.const_value(ctx.prog, item, &SubList { list: Vec::new() }, depth)?;
        Ok(CONST_BASE + off as u64)
    }

    pub(crate) fn vtable(&self, vm: &mut VM, ctx: &Ctx, trait_item: ItemRef, ty: Type, depth: u32) -> (r:
        Result<u64, CompileError>)
        ensures
            done(r, self@, final(vm)@) == self.st(old(vm)@).vtable(
                ctx.env(),
                trait_item,
                ty,
                depth as nat,
            ),
    {
        let off = vm.find_vtable(ctx.prog, trait_item, ty, depth)?;
        Ok(CONST_BASE + off as u64)
    }
}

impl VMThread {
    /// The second word of the fat pointer held in a slot of the outermost frame.
    pub fn meta_ptr(&self, slot: Slot) -> (r: Option<u64>)
        ensures
            r == crate::machine::ptr_at(self@.stack, POINTER_SIZE, slot),
    {
        match crate::memory::load_val(&self.stack, POINTER_SIZE as u64 + slot.0 as u64, 8) {
            Some(v) => Some(v as u64),
            None => None,
        }
    }
}

} // verus!
