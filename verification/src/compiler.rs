//! The bytecode compiler: lowers the expressions and patterns of a function
//! body to bytecode that works on the slots of a stack frame.

use vstd::prelude::*;
use crate::abi::POINTER_SIZE;
use crate::error::CompileError;
use crate::instr::{Instr, Slot, Width};
use crate::ir::{Expr, ExprId, ExprKind, IRFunction, Pattern, PatternId};
use crate::layout::LAYOUT_DEPTH;
use crate::lowering::{
    bool_layout, find_local, find_loop, shift, shift_place, word_layout, BreakInfo, ClosureInfo,
    CompilerView, Env, Local, LoopInfo, Patch, St, R,
};
use crate::program::Program;
use crate::select::{copy, copy_from_ptr, copy_to_ptr};
use crate::stack::{CompilerStack, Place, StackScope};
use crate::types::{Layout, SubList, Type, TypeKind};
use crate::vm::{VmView, VM};

verus! {

/// The state of one compilation: the bytecode so far, the slot stack, the
/// slots of the locals, and the loops that are open.
pub struct BytecodeCompiler {
    pub out_bc: Vec<Instr>,
    pub stack: CompilerStack,
    pub locals: Vec<Local>,
    pub loops: Vec<LoopInfo>,
    pub loop_breaks: Vec<BreakInfo>,
    pub closure: Option<ClosureInfo>,
}

impl View for BytecodeCompiler {
    type V = CompilerView;

    open spec fn view(&self) -> CompilerView {
        CompilerView {
            out: self.out_bc@,
            stack: self.stack@,
            locals: self.locals@,
            loops: self.loops@,
            breaks: self.loop_breaks@,
            closure: self.closure,
        }
    }
}

/// What is compiled: the program, the function body, and the substitutions.
pub struct Ctx<'a, 'vm> {
    pub prog: &'a Program<'vm>,
    pub ir: &'a IRFunction,
    pub subs: &'a SubList,
}

impl<'a, 'vm> Ctx<'a, 'vm> {
    pub open spec fn env(&self) -> Env<'vm> {
        Env { prog: *self.prog, ir: *self.ir, subs: self.subs.list@ }
    }
}

/// The outcome of a step of the compiler with the state that it left.
pub open spec fn done<T>(r: Result<T, CompileError>, c: CompilerView, vm: VmView) -> R<T> {
    match r {
        Ok(v) => Ok((St { c, vm }, v)),
        Err(e) => Err(e),
    }
}

pub open spec fn done_unit(r: Result<(), CompileError>, c: CompilerView, vm: VmView) -> Result<
    St,
    CompileError,
> {
    match r {
        Ok(_) => Ok(St { c, vm }),
        Err(e) => Err(e),
    }
}

pub fn word() -> (r: Layout)
    ensures
        r == word_layout(),
{
    Layout::new_scalar(POINTER_SIZE, POINTER_SIZE)
}

pub fn truth() -> (r: Layout)
    ensures
        r == bool_layout(),
{
    Layout::new_scalar(1, 1)
}

pub fn shift_slot(slot: Slot, n: u32) -> (r: Result<Slot, CompileError>)
    ensures
        r == shift(slot, n as int),
{
    if n > i32::MAX as u32 {
        return Err(CompileError::TooLarge);
    }
    match slot.offset_by(n as i32) {
        Some(s) => Ok(s),
        None => Err(CompileError::TooLarge),
    }
}

pub fn move_place(p: Place, n: i128) -> (r: Result<Place, CompileError>)
    ensures
        r == shift_place(p, n as int),
{
    if n > i32::MAX as i128 || n < i32::MIN as i128 {
        return Err(CompileError::TooLarge);
    }
    match p.offset_by(n as i32) {
        Some(q) => Ok(q),
        None => Err(CompileError::TooLarge),
    }
}

impl BytecodeCompiler {
    pub fn new() -> (r: Self)
        ensures
            r@.out.len() == 0,
            r@.stack == crate::stack::StackView::empty(),
            r@.locals.len() == 0,
            r@.loops.len() == 0,
            r@.breaks.len() == 0,
            r@.closure is None,
            r@ == CompilerView::empty(),
    {
        BytecodeCompiler {
            out_bc: Vec::new(),
            stack: CompilerStack::new(),
            locals: Vec::new(),
            loops: Vec::new(),
            loop_breaks: Vec::new(),
            closure: None,
        }
    }

    pub open spec fn st(&self, vm: VmView) -> St {
        St { c: self@, vm }
    }

    pub(crate) fn emit(&mut self, Ghost(vm): Ghost<VmView>, i: Instr)
        ensures
            final(self).st(vm) == old(self).st(vm).emit(i),
    {
        self.out_bc.push(i);
    }

    pub(crate) fn emit_opt(&mut self, Ghost(vm): Ghost<VmView>, i: Option<Instr>)
        ensures
            final(self).st(vm) == old(self).st(vm).emit_opt(i),
    {
        match i {
            Some(x) => self.emit(Ghost(vm), x),
            None => {},
        }
    }

    pub(crate) fn emit_some(&mut self, Ghost(vm): Ghost<VmView>, i: Option<Instr>) -> (r: Result<
        (),
        CompileError,
    >)
        ensures
            done_unit(r, final(self)@, vm) == old(self).st(vm).emit_some(i),
    {
        match i {
            Some(x) => {
                self.emit(Ghost(vm), x);
                Ok(())
            },
            None => Err(CompileError::BadOperand),
        }
    }

    pub(crate) fn emit_ok(
        &mut self,
        Ghost(vm): Ghost<VmView>,
        i: Result<Instr, CompileError>,
    ) -> (r: Result<(), CompileError>)
        ensures
            done_unit(r, final(self)@, vm) == old(self).st(vm).emit_ok(i),
    {
        match i {
            Ok(x) => {
                self.emit(Ghost(vm), x);
                Ok(())
            },
            Err(e) => Err(e),
        }
    }

    pub(crate) fn emit_word(&mut self, Ghost(vm): Ghost<VmView>, v: i128, slot: Slot)
        ensures
            final(self).st(vm) == old(self).st(vm).emit_word(v, slot),
    {
        self.emit(Ghost(vm), Instr::Const(Width::W64, slot, v));
    }

    pub(crate) fn alloc_slot(&mut self, Ghost(vm): Ghost<VmView>, l: Layout) -> (r: Result<
        Slot,
        CompileError,
    >)
        ensures
            done(r, final(self)@, vm) == old(self).st(vm).alloc_slot(l),
    {
        self.stack.alloc_slot(l)
    }

    pub(crate) fn dst_or_alloc(
        &mut self,
        Ghost(vm): Ghost<VmView>,
        dst: Option<Slot>,
        l: Layout,
    ) -> (r: Result<Slot, CompileError>)
        ensures
            done(r, final(self)@, vm) == old(self).st(vm).dst_or_alloc(dst, l),
    {
        match dst {
            Some(d) => Ok(d),
            None => self.alloc_slot(Ghost(vm), l),
        }
    }

    pub(crate) fn push_scope(&mut self, Ghost(vm): Ghost<VmView>, name: &'static str) -> (r: Result<
        StackScope,
        CompileError,
    >)
        ensures
            done(r, final(self)@, vm) == old(self).st(vm).push_scope(),
    {
        self.stack.push_scope(name)
    }

    pub(crate) fn pop_scope(&mut self, Ghost(vm): Ghost<VmView>, scope: StackScope) -> (r: Result<
        (),
        CompileError,
    >)
        ensures
            done_unit(r, final(self)@, vm) == old(self).st(vm).pop_scope(scope),
    {
        self.stack.pop_scope(scope)
    }

    /// A type with the function's substitutions applied, and its layout.
    pub(crate) fn ty_layout(&self, vm: &mut VM, ctx: &Ctx, ty: Type) -> (r: Result<
        (Type, Layout),
        CompileError,
    >)
        ensures
            done(r, self@, final(vm)@) == self.st(old(vm)@).ty_layout(ctx.env(), ty),
    {
        let t = vm.types.sub(ty, &ctx.subs.list)?;
        let l = vm.types.layout(ctx.prog, t, LAYOUT_DEPTH)?;
        Ok((t, l))
    }

    pub(crate) fn layout_of(&self, vm: &mut VM, ctx: &Ctx, ty: Type) -> (r: Result<
        Layout,
        CompileError,
    >)
        ensures
            done(r, self@, final(vm)@) == self.st(old(vm)@).layout_of(ctx.env(), ty),
    {
        vm.types.layout(ctx.prog, ty, LAYOUT_DEPTH)
    }

    pub(crate) fn expr_layout(&self, vm: &mut VM, ctx: &Ctx, id: ExprId) -> (r: Result<
        (Type, Layout),
        CompileError,
    >)
        ensures
            done(r, self@, final(vm)@) == self.st(old(vm)@).expr_layout(ctx.env(), id),
    {
        let e = ctx.ir.expr(id)?;
        self.ty_layout(vm, ctx, e.ty)
    }

    pub(crate) fn pattern_layout(&self, vm: &mut VM, ctx: &Ctx, id: PatternId) -> (r: Result<
        (Type, Layout),
        CompileError,
    >)
        ensures
            done(r, self@, final(vm)@) == self.st(old(vm)@).pattern_layout(ctx.env(), id),
    {
        let p = ctx.ir.pattern(id)?;
        self.ty_layout(vm, ctx, p.ty)
    }

    pub(crate) fn kind(&self, vm: &VM, ty: Type) -> (r: Result<TypeKind, CompileError>)
        ensures
            r == self.st(vm@).kind(ty),
    {
        vm.types.kind(ty)
    }

    pub(crate) fn expr_kind(&self, vm: &mut VM, ctx: &Ctx, id: ExprId) -> (r: Result<
        (TypeKind, Layout),
        CompileError,
    >)
        ensures
            done(r, self@, final(vm)@) == self.st(old(vm)@).expr_kind(ctx.env(), id),
    {
        let (ty, l) = self.expr_layout(vm, ctx, id)?;
        let k = vm.types.kind(ty)?;
        Ok((k, l))
    }

    pub(crate) fn dest(&mut self, vm: &mut VM, ctx: &Ctx, id: ExprId, dst: Option<Slot>) -> (r:
        Result<(Slot, Type, Layout), CompileError>)
        ensures
            done(r, final(self)@, final(vm)@) == old(self).st(old(vm)@).dest(ctx.env(), id, dst),
    {
        let (ty, l) = self.expr_layout(vm, ctx, id)?;
        let d = self.dst_or_alloc(Ghost(vm@), dst, l)?;
        Ok((d, ty, l))
    }

    /// Leaves a gap for a jump and returns its index.
    pub(crate) fn skip_instr(&mut self, Ghost(vm): Ghost<VmView>) -> (r: Result<u32, CompileError>)
        ensures
            done(r, final(self)@, vm) == old(self).st(vm).skip(),
    {
        let n: usize = self.out_bc.len();
        if n >= i32::MAX as usize {
            return Err(CompileError::TooLarge);
        }
        self.out_bc.push(Instr::Skipped);
        Ok(n as u32)
    }

    /// Fills the gap at `index` with a jump to the end of the bytecode so far.
    pub(crate) fn patch(&mut self, Ghost(vm): Ghost<VmView>, index: u32, p: Patch) -> (r: Result<
        (),
        CompileError,
    >)
        ensures
            done_unit(r, final(self)@, vm) == old(self).st(vm).patch(index, p),
    {
        let n: usize = self.out_bc.len();
        if index as usize >= n || n > i32::MAX as usize {
            return Err(CompileError::TooLarge);
        }
        let off: i32 = (n - index as usize) as i32;
        let instr = match p {
            Patch::Jump => Instr::Jump(off),
            Patch::JumpF(s) => Instr::JumpF(off, s),
            Patch::JumpT(s) => Instr::JumpT(off, s),
        };
        self.out_bc.set(index as usize, instr);
        Ok(())
    }

    pub(crate) fn patch_all(&mut self, Ghost(vm): Ghost<VmView>, gaps: &Vec<u32>, p: Patch) -> (r:
        Result<(), CompileError>)
        ensures
            done_unit(r, final(self)@, vm) == old(self).st(vm).patch_all(gaps@, p, 0),
    {
        let mut i: usize = 0;
        while i < gaps.len()
            invariant
                i <= gaps.len(),
                self.st(vm).patch_all(gaps@, p, i as int) == old(self).st(vm).patch_all(
                    gaps@,
                    p,
                    0,
                ),
            decreases gaps.len() - i,
        {
            self.patch(Ghost(vm), gaps[i], p)?;
            i += 1;
        }
        Ok(())
    }

    /// Appends a jump back to the instruction at `target`.
    pub(crate) fn jump_back(&mut self, Ghost(vm): Ghost<VmView>, target: u32) -> (r: Result<
        (),
        CompileError,
    >)
        ensures
            done_unit(r, final(self)@, vm) == old(self).st(vm).jump_back(target),
    {
        let n: usize = self.out_bc.len();
        if n > i32::MAX as usize || target as usize > n {
            return Err(CompileError::TooLarge);
        }
        let off: i32 = (target as i64 - n as i64) as i32;
        self.out_bc.push(Instr::Jump(off));
        Ok(())
    }

    /// Takes a trailing gap out again.
    pub(crate) fn trim_gap(&mut self, Ghost(vm): Ghost<VmView>, gaps: &mut Vec<u32>)
        ensures
            (final(self).st(vm), final(gaps)@) == old(self).st(vm).trim_gap(old(gaps)@),
    {
        let n: usize = gaps.len();
        if n > 0 && gaps[n - 1] as u64 + 1 == self.out_bc.len() as u64 {
            self.out_bc.pop();
            gaps.pop();
        }
    }

    pub(crate) fn close_gaps(
        &mut self,
        Ghost(vm): Ghost<VmView>,
        gaps: Vec<u32>,
        result: Option<Slot>,
        on_true: bool,
    ) -> (r: Result<(), CompileError>)
        ensures
            done_unit(r, final(self)@, vm) == old(self).st(vm).close_gaps(gaps@, result, on_true),
    {
        let mut gaps = gaps;
        self.trim_gap(Ghost(vm), &mut gaps);
        match result {
            Some(r) => self.patch_all(
                Ghost(vm),
                &gaps,
                if on_true {
                    Patch::JumpT(r)
                } else {
                    Patch::JumpF(r)
                },
            ),
            None => Ok(()),
        }
    }

    pub(crate) fn lookup_local(&self, id: u32) -> (r: Option<Slot>)
        ensures
            r == find_local(self@.locals, id, 0),
    {
        let mut i: usize = 0;
        while i < self.locals.len()
            invariant
                i <= self.locals.len(),
                find_local(self@.locals, id, i as int) == find_local(self@.locals, id, 0),
            decreases self.locals.len() - i,
        {
            if self.locals[i].id == id {
                return Some(self.locals[i].slot);
            }
            i += 1;
        }
        None
    }

    /// The slot that a local is bound to.
    pub fn find_local(&self, Ghost(vm): Ghost<VmView>, local: u32) -> (r: Result<
        Slot,
        CompileError,
    >)
        ensures
            r == self.st(vm).find_local(local),
    {
        match self.lookup_local(local) {
            Some(s) => Ok(s),
            None => Err(CompileError::MissingLocal),
        }
    }

    pub(crate) fn find_or_alloc_local(
        &mut self,
        Ghost(vm): Ghost<VmView>,
        local: u32,
        l: Layout,
    ) -> (r: Result<Slot, CompileError>)
        ensures
            done(r, final(self)@, vm) == old(self).st(vm).find_or_alloc_local(local, l),
    {
        match self.lookup_local(local) {
            Some(s) => Ok(s),
            None => {
                let slot = self.alloc_slot(Ghost(vm), l)?;
                self.locals.push(Local { id: local, slot });
                Ok(slot)
            },
        }
    }

    pub(crate) fn alias_local(&mut self, Ghost(vm): Ghost<VmView>, local: u32, slot: Slot) -> (r:
        Result<(), CompileError>)
        ensures
            done_unit(r, final(self)@, vm) == old(self).st(vm).alias_local(local, slot),
    {
        match self.lookup_local(local) {
            Some(_) => Err(CompileError::LocalRedefined),
            None => {
                self.locals.push(Local { id: local, slot });
                Ok(())
            },
        }
    }

    pub(crate) fn find_loop(&self, id: crate::ir::LoopId) -> (r: Option<LoopInfo>)
        ensures
            r == find_loop(self@.loops, id, 0),
    {
        let mut i: usize = 0;
        while i < self.loops.len()
            invariant
                i <= self.loops.len(),
                find_loop(self@.loops, id, i as int) == find_loop(self@.loops, id, 0),
            decreases self.loops.len() - i,
        {
            if self.loops[i].loop_id == id {
                return Some(self.loops[i]);
            }
            i += 1;
        }
        None
    }

    pub(crate) fn deliver(
        &mut self,
        Ghost(vm): Ghost<VmView>,
        dst: Option<Slot>,
        from: Slot,
        size: u32,
    ) -> (r: Slot)
        ensures
            (final(self).st(vm), r) == old(self).st(vm).deliver(dst, from, size),
    {
        match dst {
            Some(d) => {
                self.emit_opt(Ghost(vm), copy(d, from, size));
                d
            },
            None => from,
        }
    }

    pub(crate) fn load_place(
        &mut self,
        Ghost(vm): Ghost<VmView>,
        place: Place,
        dst: Option<Slot>,
        l: Layout,
    ) -> (r: Result<Slot, CompileError>)
        ensures
            done(r, final(self)@, vm) == old(self).st(vm).load_place(place, dst, l),
    {
        let size = l.assert_size()?;
        match place {
            Place::Local(slot) => Ok(self.deliver(Ghost(vm), dst, slot, size)),
            Place::Ptr(p, off, _) => {
                let d = self.dst_or_alloc(Ghost(vm), dst, l)?;
                self.emit_opt(Ghost(vm), copy_from_ptr(d, p, size, off));
                Ok(d)
            },
        }
    }

    pub(crate) fn place_value(&mut self, Ghost(vm): Ghost<VmView>, place: Place, l: Layout) -> (r:
        Result<Slot, CompileError>)
        ensures
            done(r, final(self)@, vm) == old(self).st(vm).place_value(place, l),
    {
        self.load_place(Ghost(vm), place, None, l)
    }

    pub(crate) fn store_place(
        &mut self,
        Ghost(vm): Ghost<VmView>,
        place: Place,
        from: Slot,
        size: u32,
    )
        ensures
            final(self).st(vm) == old(self).st(vm).store_place(place, from, size),
    {
        match place {
            Place::Local(slot) => self.emit_opt(Ghost(vm), copy(slot, from, size)),
            Place::Ptr(p, off, _) => self.emit_opt(Ghost(vm), copy_to_ptr(p, from, size, off)),
        }
    }

    /// Whether an expression denotes a place.
    pub fn expr_is_place(ctx: &Ctx, id: ExprId) -> (r: Result<bool, CompileError>)
        ensures
            r == ctx.env().is_place(id),
        decreases id.0,
    {
        let e = ctx.ir.expr(id)?;
        match &e.kind {
            ExprKind::Dummy(v) => if v.0 < id.0 {
                Self::expr_is_place(ctx, *v)
            } else {
                Err(CompileError::BadExpr)
            },
            ExprKind::DeRef(_) | ExprKind::VarRef(_) | ExprKind::UpVar(_) | ExprKind::Field { .. }
            | ExprKind::Index { .. } | ExprKind::ConstBlock(_) | ExprKind::NamedConst(_, _)
            | ExprKind::Static(_) => Ok(true),
            _ => Ok(false),
        }
    }
}

} // verus!
