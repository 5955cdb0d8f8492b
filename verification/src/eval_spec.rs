//! Compilation of whole functions, and the evaluation of constants at
//! compile time, as functions of the machine's state.

use vstd::prelude::*;
use crate::error::CompileError;
use crate::ids::ItemRef;
use crate::instr::{FuncId, Instr, Slot};
use crate::ir::{ExprId, FnTrait, IRFunction, PatternId};
use crate::items::AssocValue;
use crate::lowering::{ClosureInfo, CompilerView, Env, St, R};
use crate::machine::{ptr_at, step, Frame, StepResult, ThreadView, VmError};
use crate::matcher::ImplChoice;
use crate::memory::{bytes_of, read_at};
use crate::program::Program;
use crate::stack::{Place, PointerKind, StackScope, StackView};
use crate::types::{Layout, ListId, Span, Sub, Type, TypeKind};
use crate::layout::LAYOUT_DEPTH;
use crate::abi::POINTER_SIZE;
use crate::vm::{Builtin, FunctionSource, VmView, CONST_BASE, FUNC_BASE, STACK_SIZE};

verus! {

/// How a run of a thread ended.
#[derive(Debug, Clone, Copy, PartialEq, Eq, Structural)]
pub enum RunResult {
    /// The outermost frame has returned.
    Returned,
    /// The step budget is used up.
    OutOfSteps,
    /// A native function was called; it is left to the caller to run it.
    Native(Builtin, u32),
    /// A floating-point instruction was reached; it is left to the caller.
    Float(Instr, u32),
    Fault(VmError),
    /// A function that was called could not be compiled.
    CompileFailed(CompileError),
}

impl CompilerView {
    pub open spec fn empty() -> CompilerView {
        CompilerView {
            out: Seq::empty(),
            stack: StackView::empty(),
            locals: Seq::empty(),
            loops: Seq::empty(),
            breaks: Seq::empty(),
            closure: None,
        }
    }
}

impl ThreadView {
    /// A thread with a zeroed stack and no frame.
    pub open spec fn fresh() -> ThreadView {
        ThreadView { stack: Seq::new(STACK_SIZE as nat, |i: int| 0u8), frames: Seq::empty() }
    }

    /// Entering a run of the bytecode arena with slot 0 at `base`.
    pub open spec fn enter(self, code: Span, base: u32) -> ThreadView {
        ThreadView {
            frames: self.frames.push(Frame { start: code.start, len: code.len, pc: 0, base }),
            ..self
        }
    }
}

/// The eight bytes of each of the words, one after the other.
pub open spec fn words_bytes(words: Seq<u64>, i: int, acc: Seq<u8>) -> Seq<u8>
    decreases words.len() - i,
{
    if i < 0 || i >= words.len() {
        acc
    } else {
        words_bytes(words, i + 1, acc + bytes_of(words[i] as u128, 8))
    }
}

impl St {
    /// A slot for each of the parameters from index `i` on.
    pub open spec fn param_slots(self, env: Env, params: Seq<PatternId>, i: int, acc: Seq<Slot>) -> R<
        Seq<Slot>,
    >
        decreases params.len() - i,
    {
        if i < 0 || i >= params.len() {
            Ok((self, acc))
        } else {
            match self.pattern_layout(env, params[i]) {
                Ok((s, (_, l))) => match s.alloc_slot(l) {
                    Ok((s1, slot)) => s1.param_slots(env, params, i + 1, acc.push(slot)),
                    Err(e) => Err(e),
                },
                Err(e) => Err(e),
            }
        }
    }

    /// What the body of a closure needs to know of the closure: the
    /// environment is the first parameter, or behind it.
    pub open spec fn closure_info(self, env: Env, slots: Seq<Slot>) -> R<Option<ClosureInfo>> {
        match env.ir.closure_kind {
            None => Ok((self, None)),
            Some(kind) => if env.ir.params@.len() == 0 || slots.len() == 0 {
                Err(CompileError::BadPattern)
            } else {
                match self.pattern_layout(env, env.ir.params@[0]) {
                    Ok((s, (ty, _))) => match kind {
                        FnTrait::FnOnce => Ok(
                            (s, Some(ClosureInfo { kind, self_slot: slots[0], self_ty: ty })),
                        ),
                        _ => match s.kind(ty) {
                            Ok(TypeKind::Ref(t, _)) => Ok(
                                (s, Some(ClosureInfo { kind, self_slot: slots[0], self_ty: t })),
                            ),
                            Ok(_) => Err(CompileError::Unsupported),
                            Err(e) => Err(e),
                        },
                    },
                    Err(e) => Err(e),
                }
            },
        }
    }

    /// Matching each parameter pattern from index `i` on against its slot.
    pub open spec fn bind_params(
        self,
        env: Env,
        params: Seq<PatternId>,
        slots: Seq<Slot>,
        i: int,
        bound: ExprId,
        depth: nat,
    ) -> Result<St, CompileError>
        decreases depth, 1int, 0int, 0int, 0int, params.len() - i,
    {
        if i < 0 || i >= params.len() || i >= slots.len() {
            Ok(self)
        } else {
            match self.match_pattern_internal(
                env,
                params[i],
                Place::Local(slots[i]),
                true,
                None,
                bound,
                depth,
            ) {
                Ok((s, _)) => s.bind_params(env, params, slots, i + 1, bound, depth),
                Err(e) => Err(e),
            }
        }
    }

    /// The address and metadata of a promoted constant: the expression is
    /// compiled on its own and run; a value is copied to the constant
    /// arena, a pointer taken as it is.
    pub open spec fn const_promote(self, env: Env, arg: ExprId, depth: nat) -> R<
        (u64, Option<u64>),
    >
        decreases depth, 6int, 0int, 0int, 0int, 0int,
    {
        match self.vm.promoted_code(env, arg, depth) {
            Ok((vm1, (code, place))) => match vm1.eval(env.prog, code, depth) {
                Ok((vm2, th)) => match place {
                    Place::Local(slot) => match (St { vm: vm2, ..self }).expr_layout(env, arg) {
                        Ok((s, (_, l))) => match l.size_spec() {
                            Ok(size) => match read_at(th.stack, slot.0 as int, size as int) {
                                Some(data) => match s.vm.alloc_constant(data) {
                                    (vm3, Ok(off)) => Ok(
                                        (St { vm: vm3, ..s }, ((CONST_BASE + off) as u64, None)),
                                    ),
                                    (_, Err(e)) => Err(e),
                                },
                                None => Err(CompileError::ConstEval),
                            },
                            Err(e) => Err(e),
                        },
                        Err(e) => Err(e),
                    },
                    Place::Ptr(slot, off, kind) => if off != 0 {
                        Err(CompileError::Unsupported)
                    } else {
                        match ptr_at(th.stack, 0, slot) {
                            Some(p) => if kind == PointerKind::Fat {
                                match ptr_at(th.stack, POINTER_SIZE, slot) {
                                    Some(m) => Ok((St { vm: vm2, ..self }, (p, Some(m)))),
                                    None => Err(CompileError::ConstEval),
                                }
                            } else {
                                Ok((St { vm: vm2, ..self }, (p, None)))
                            },
                            None => Err(CompileError::ConstEval),
                        }
                    },
                },
                Err(e) => Err(e),
            },
            Err(e) => Err(e),
        }
    }

    /// The address of the value of a constant block: the block is compiled
    /// with the function's substitutions and run.
    pub open spec fn const_block(self, env: Env, ir: IRFunction, depth: nat) -> R<u64>
        decreases depth, 6int, 0int, 0int, 0int, 0int,
    {
        match self.vm.evaluate(Env { prog: env.prog, ir, subs: env.subs }, depth) {
            Ok((vm, off)) => Ok((St { vm, ..self }, (CONST_BASE + off) as u64)),
            Err(e) => Err(e),
        }
    }

    /// The address of the value of a named constant, with the function's
    /// substitutions applied to the constant's.
    pub open spec fn named_const(self, env: Env, item: ItemRef, sl: ListId, depth: nat) -> R<u64>
        decreases depth, 6int, 0int, 0int, 0int, 0int,
    {
        if !self.vm.types.has_list(sl) {
            Err(CompileError::BadType)
        } else {
            match self.vm.types.sub_entries(
                self.vm.types.list(sl),
                env.subs,
                u32::MAX,
                0,
                Seq::empty(),
            ) {
                (tv, Ok(subs)) => match self.with_types(tv).vm.const_value(
                    env.prog,
                    item,
                    subs,
                    depth,
                ) {
                    Ok((vm, off)) => Ok((St { vm, ..self }, (CONST_BASE + off) as u64)),
                    Err(e) => Err(e),
                },
                (_, Err(e)) => Err(e),
            }
        }
    }

    /// The address of a static: that of its initial value, evaluated once.
    pub open spec fn static_value(self, env: Env, item: ItemRef, depth: nat) -> R<u64>
        decreases depth, 6int, 0int, 0int, 0int, 0int,
    {
        match self.vm.const_value(env.prog, item, Seq::empty(), depth) {
            Ok((vm, off)) => Ok((St { vm, ..self }, (CONST_BASE + off) as u64)),
            Err(e) => Err(e),
        }
    }

    /// The address of the vtable of a type for a trait.
    pub open spec fn vtable(self, env: Env, trait_item: ItemRef, ty: Type, depth: nat) -> R<u64> {
        match self.vm.find_vtable(env.prog, trait_item, ty, depth) {
            Ok((vm, off)) => Ok((St { vm, ..self }, (CONST_BASE + off) as u64)),
            Err(e) => Err(e),
        }
    }
}

impl VmView {
    /// Appending bytecode to the arena: the new state and the run.
    pub open spec fn alloc_bytecode(self, bc: Seq<Instr>) -> (VmView, Result<Span, CompileError>) {
        if self.code.len() + bc.len() > u32::MAX {
            (self, Err(CompileError::TableFull))
        } else {
            (
                VmView { code: self.code + bc, ..self },
                Ok(Span { start: self.code.len() as u32, len: bc.len() as u32 }),
            )
        }
    }

    /// The state in which the body of a function is lowered, and the scope
    /// that the body lives in: slot 0 is reserved for the result; the
    /// parameters have the slots after it, in order, and are matched
    /// against their patterns.
    pub open spec fn prologue(self, env: Env, depth: nat) -> R<StackScope>
        decreases depth, 1int, 1int, 0int, 0int, 0int,
    {
        let s0 = St { c: CompilerView::empty(), vm: self };
        if env.ir.exprs@.len() > u32::MAX {
            Err(CompileError::BadExpr)
        } else {
            match s0.ty_layout(env, env.ir.sig.output) {
                Ok((s1, (_, out))) => match s1.c.stack.alloc_no_drop(out) {
                    Ok((stack, ret)) => if ret != Slot(0) {
                        Err(CompileError::BadCall)
                    } else {
                        match s1.with_stack(stack).push_scope() {
                            Ok((s2, scope)) => match s2.param_slots(
                                env,
                                env.ir.params@,
                                0,
                                Seq::empty(),
                            ) {
                                Ok((s3, slots)) => match s3.closure_info(env, slots) {
                                    Ok((s4, closure)) => match (St {
                                        c: CompilerView { closure, ..s4.c },
                                        ..s4
                                    }).bind_params(
                                        env,
                                        env.ir.params@,
                                        slots,
                                        0,
                                        ExprId(env.ir.exprs@.len() as u32),
                                        depth,
                                    ) {
                                        Ok(s5) => Ok((s5, scope)),
                                        Err(e) => Err(e),
                                    },
                                    Err(e) => Err(e),
                                },
                                Err(e) => Err(e),
                            },
                            Err(e) => Err(e),
                        }
                    },
                    Err(e) => Err(e),
                },
                Err(e) => Err(e),
            }
        }
    }

    /// The bytecode of a function body with the given substitutions: after
    /// the prologue the root expression is lowered to slot 0, and a
    /// `Return` ends the code.
    pub open spec fn compile(self, env: Env, depth: nat) -> Result<
        (VmView, Seq<Instr>),
        CompileError,
    >
        decreases depth, 1int, 2int, 0int, 0int, 0int,
    {
        match self.prologue(env, depth) {
            Ok((s5, scope)) => match s5.lower_expr(env, env.ir.root_expr, Some(Slot(0)), depth) {
                Ok((s6, _)) => match s6.pop_scope(scope) {
                    Ok(s7) => Ok((s7.vm, s7.c.out.push(Instr::Return))),
                    Err(e) => Err(e),
                },
                Err(e) => Err(e),
            },
            Err(e) => Err(e),
        }
    }

    /// The bytecode that evaluates one expression of a function on its
    /// own, and the place where it leaves the value.
    pub open spec fn promoted_code(self, env: Env, root: ExprId, depth: nat) -> Result<
        (VmView, (Seq<Instr>, Place)),
        CompileError,
    >
        decreases depth, 1int, 0int, 0int, 0int, 0int,
    {
        match (St { c: CompilerView::empty(), vm: self }).expr_to_place(env, root, depth) {
            Ok((s, place)) => Ok((s.vm, (s.c.out.push(Instr::Return), place))),
            Err(e) => Err(e),
        }
    }

    /// Making sure that a function has bytecode: a function without is
    /// compiled from the body that its source gives for its substitutions.
    pub open spec fn ensure_compiled(self, prog: Program, f: FuncId, depth: nat) -> Result<
        VmView,
        CompileError,
    >
        decreases depth, 2int, 0int, 0int, 0int, 0int,
    {
        if !self.has_func(f) {
            Err(CompileError::ItemMismatch)
        } else if self.func(f).bytecode is Some {
            Ok(self)
        } else if !self.types.has_list(self.func(f).subs) {
            Err(CompileError::BadType)
        } else {
            let subs = self.types.list(self.func(f).subs);
            match (match self.func(f).source {
                FunctionSource::Item(item) => match self.types.item_ir(prog, item, subs, depth) {
                    (tv, Ok((ir, ts))) => Ok((VmView { types: tv, ..self }, (*ir, ts))),
                    (_, Err(e)) => Err(e),
                },
                FunctionSource::Closure(c) => if c >= prog.closures@.len() {
                    Err(CompileError::ItemMismatch)
                } else {
                    match prog.closures@[c as int].ir_base {
                        Some(ir) => Ok((self, (*ir, subs))),
                        None => Err(CompileError::MissingIr),
                    }
                },
            }) {
                Ok((vm1, (ir, ts))) => match vm1.compile(Env { prog, ir, subs: ts }, depth) {
                    Ok((vm2, bc)) => match vm2.set_bytecode(f, bc) {
                        (vm3, Ok(_)) => Ok(vm3),
                        (_, Err(e)) => Err(e),
                    },
                    Err(e) => Err(e),
                },
                Err(e) => Err(e),
            }
        }
    }

    /// Running a thread for at most `steps` instructions. A function that
    /// is called without bytecode is compiled on the way.
    pub open spec fn run(self, prog: Program, th: ThreadView, steps: nat, depth: nat) -> (
        VmView,
        ThreadView,
        RunResult,
    )
        decreases depth, 3int, 0int, 0int, 0int, steps,
    {
        if steps == 0 {
            (self, th, RunResult::OutOfSteps)
        } else {
            match step(self, th) {
                (th1, StepResult::Continue) => self.run(prog, th1, (steps - 1) as nat, depth),
                (th1, StepResult::NeedsCompile(f)) => match self.ensure_compiled(prog, f, depth) {
                    Ok(vm1) => vm1.run(prog, th1, (steps - 1) as nat, depth),
                    Err(e) => (self, th1, RunResult::CompileFailed(e)),
                },
                (th1, StepResult::Returned) => (self, th1, RunResult::Returned),
                (th1, StepResult::Native(b, base)) => (self, th1, RunResult::Native(b, base)),
                (th1, StepResult::Float(i, base)) => (self, th1, RunResult::Float(i, base)),
                (th1, StepResult::Fault(e)) => (self, th1, RunResult::Fault(e)),
            }
        }
    }

    /// Running bytecode to its `Return` on a new thread, within the step
    /// limit for constants. Anything but a return is a failure.
    pub open spec fn eval(self, prog: Program, code: Seq<Instr>, depth: nat) -> Result<
        (VmView, ThreadView),
        CompileError,
    >
        decreases depth, 4int, 0int, 0int, 0int, 0int,
    {
        match self.alloc_bytecode(code) {
            (vm1, Ok(span)) => match vm1.run(
                prog,
                ThreadView::fresh().enter(span, 0),
                vm1.step_limit as nat,
                depth,
            ) {
                (vm2, th, RunResult::Returned) => Ok((vm2, th)),
                (_, _, RunResult::CompileFailed(e)) => Err(e),
                _ => Err(CompileError::ConstEval),
            },
            (_, Err(e)) => Err(e),
        }
    }

    /// Evaluating a body without parameters: it is compiled and run, and
    /// the value in slot 0 copied to the constant arena. Yields the offset.
    pub open spec fn evaluate(self, env: Env, depth: nat) -> Result<(VmView, u32), CompileError>
        decreases depth, 5int, 0int, 0int, 0int, 0int,
    {
        match self.compile(env, depth) {
            Ok((vm1, code)) => match vm1.eval(env.prog, code, depth) {
                Ok((vm2, th)) => match (St { c: CompilerView::empty(), vm: vm2 }).ty_layout(
                    env,
                    env.ir.sig.output,
                ) {
                    Ok((s, (_, l))) => match l.size_spec() {
                        Ok(size) => match read_at(th.stack, 0, size as int) {
                            Some(data) => match s.vm.alloc_constant(data) {
                                (vm3, Ok(off)) => Ok((vm3, off)),
                                (_, Err(e)) => Err(e),
                            },
                            None => Err(CompileError::ConstEval),
                        },
                        Err(e) => Err(e),
                    },
                    Err(e) => Err(e),
                },
                Err(e) => Err(e),
            },
            Err(e) => Err(e),
        }
    }

    /// The offset of the value of a constant for the given substitutions:
    /// the cached one, or that of a new evaluation, which is cached.
    pub open spec fn const_value(self, prog: Program, item: ItemRef, subs: Seq<Sub>, depth: nat) -> Result<
        (VmView, u32),
        CompileError,
    >
        decreases depth, 5int, 1int, 0int, 0int, 0int,
    {
        if !prog.has_item(item) || !(prog.item_at(item).kind is Constant) {
            Err(CompileError::ItemMismatch)
        } else {
            match self.types.intern_list(subs) {
                (tv, Ok(l)) => {
                    let vm1 = VmView { types: tv, ..self };
                    let key = (item.crate_id.0, item.item_id.0, l.0);
                    if vm1.const_values.dom().contains(key) {
                        Ok((vm1, vm1.const_values[key]))
                    } else {
                        match tv.item_ir(prog, item, subs, depth) {
                            (tv2, Ok((ir, ts))) => match (VmView { types: tv2, ..vm1 }).evaluate(
                                Env { prog, ir: *ir, subs: ts },
                                depth,
                            ) {
                                Ok((vm2, off)) => Ok(
                                    (
                                        VmView {
                                            const_values: vm2.const_values.insert(key, off),
                                            ..vm2
                                        },
                                        off,
                                    ),
                                ),
                                Err(e) => Err(e),
                            },
                            (_, Err(e)) => Err(e),
                        }
                    }
                },
                (_, Err(e)) => Err(e),
            }
        }
    }

    /// The words of a vtable from member `i` on: the address of the
    /// monomorphic function for each member that is a function, zero for
    /// the others.
    pub open spec fn vtable_words(
        self,
        prog: Program,
        crate_id: crate::ids::CrateId,
        values: Seq<Option<AssocValue>>,
        subs: Seq<Sub>,
        i: int,
        acc: Seq<u64>,
    ) -> Result<(VmView, Seq<u64>), CompileError>
        decreases values.len() - i,
    {
        if i < 0 || i >= values.len() {
            Ok((self, acc))
        } else {
            match values[i] {
                Some(AssocValue::Item(fn_item)) => {
                    let item = ItemRef { crate_id, item_id: fn_item };
                    if prog.has_item(item) && prog.item_at(item).kind is Function {
                        match self.func_mono(prog, item, subs) {
                            (vm, Ok(f)) => vm.vtable_words(
                                prog,
                                crate_id,
                                values,
                                subs,
                                i + 1,
                                acc.push((FUNC_BASE + f.0) as u64),
                            ),
                            (_, Err(e)) => Err(e),
                        }
                    } else {
                        self.vtable_words(prog, crate_id, values, subs, i + 1, acc.push(0))
                    }
                },
                _ => self.vtable_words(prog, crate_id, values, subs, i + 1, acc.push(0)),
            }
        }
    }

    /// The offset of the vtable of a type for a trait: the cached one, or
    /// that of a new table with a word for each member of the
    /// implementation that resolution selects, which is cached.
    pub open spec fn find_vtable(self, prog: Program, trait_item: ItemRef, ty: Type, depth: nat) -> Result<
        (VmView, u32),
        CompileError,
    > {
        let key = (trait_item.crate_id.0, trait_item.item_id.0, ty.0);
        if self.vtables.dom().contains(key) {
            Ok((self, self.vtables[key]))
        } else {
            match self.types.find_trait_impl(prog, trait_item, seq![Sub::Type(ty)], depth) {
                (tv, Ok(Some((ImplChoice::Listed(i), ts)))) => {
                    let imp = prog.item_at(trait_item).impls()[i as int];
                    match (VmView { types: tv, ..self }).vtable_words(
                        prog,
                        imp.crate_id,
                        imp.assoc_values@,
                        ts,
                        0,
                        Seq::empty(),
                    ) {
                        Ok((vm1, words)) => match vm1.alloc_constant(
                            words_bytes(words, 0, Seq::empty()),
                        ) {
                            (vm2, Ok(off)) => Ok(
                                (VmView { vtables: vm2.vtables.insert(key, off), ..vm2 }, off),
                            ),
                            (_, Err(e)) => Err(e),
                        },
                        Err(e) => Err(e),
                    }
                },
                (_, Ok(Some(_))) => Err(CompileError::Unsupported),
                (_, Ok(None)) => Err(CompileError::NoImpl),
                (_, Err(e)) => Err(e),
            }
        }
    }
}

} // verus!
