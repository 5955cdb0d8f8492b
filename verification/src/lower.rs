//! Lowering of expressions.

use vstd::prelude::*;
use crate::abi::POINTER_SIZE;
use crate::compiler::{done, done_unit, move_place, shift_slot, truth, word, BytecodeCompiler, Ctx};
use crate::error::CompileError;
use crate::instr::{Instr, Slot, Width};
use crate::ir::{
    BinaryOp, Block, ConstStatus, ExprId, ExprKind, FnTrait, LogicOp, LoopId, MatchArm,
    MatchGuard, PointerCast, Stmt, UnaryOp, UpVar,
};
use crate::items::ItemKind;
use crate::lower_spec::{changed_index, field_given, or_dummy, ref_target, split_breaks};
use crate::lowering::{BreakInfo, LoopInfo, Patch, St};
use crate::select::{binary, cast, copy, copy_from_ptr, copy_to_ptr, literal, unary};
use crate::stack::{Place, PointerKind};
use crate::types::{ArrayLen, Layout, Mutability, Sub, SubList, Type, TypeContext, TypeKind};
use crate::vm::{VmView, CONST_BASE, FUNC_BASE, VM};

verus! {

fn dummy_or(dst: Option<Slot>) -> (r: Slot)
    ensures
        r == or_dummy(dst),
{
    match dst {
        Some(d) => d,
        None => Slot::dummy(),
    }
}

pub(crate) fn target_type(k: TypeKind) -> (r: Result<Type, CompileError>)
    ensures
        r == ref_target(k),
{
    match k {
        TypeKind::Ref(t, _) => Ok(t),
        TypeKind::Ptr(t, _) => Ok(t),
        _ => Err(CompileError::BadOperand),
    }
}

pub(crate) fn find_changed_index(a: &Vec<Sub>, b: &Vec<Sub>) -> (r: Result<usize, CompileError>)
    ensures
        match r {
            Ok(k) => changed_index(a@, b@, 0, None) == Ok::<int, CompileError>(k as int) && k
                < a.len() && k < b.len(),
            Err(e) => changed_index(a@, b@, 0, None) == Err::<int, CompileError>(e),
        },
{
    let mut found: Option<usize> = None;
    let mut i: usize = 0;
    while i < a.len() && i < b.len()
        invariant
            i <= a.len(),
            i <= b.len(),
            found matches Some(k) ==> k < i,
            changed_index(
                a@,
                b@,
                i as int,
                match found {
                    Some(k) => Some(k as int),
                    None => None,
                },
            ) == changed_index(a@, b@, 0, None),
        decreases a.len() - i,
    {
        if a[i] != b[i] {
            if found.is_some() {
                return Err(CompileError::Unsupported);
            }
            found = Some(i);
        }
        i += 1;
    }
    match found {
        Some(k) => Ok(k),
        None => Err(CompileError::Unsupported),
    }
}

pub(crate) fn field_is_given(fields: &Vec<(u32, ExprId)>, n: u32) -> (r: bool)
    ensures
        r == field_given(fields@, n, 0),
{
    let mut i: usize = 0;
    while i < fields.len()
        invariant
            i <= fields.len(),
            field_given(fields@, n, i as int) == field_given(fields@, n, 0),
        decreases fields.len() - i,
    {
        if fields[i].0 == n {
            return true;
        }
        i += 1;
    }
    false
}

impl BytecodeCompiler {
    /// Lowers an expression. The value is written to `dst_slot` if one is
    /// given, and that slot returned; else the slot that holds the value is
    /// returned, which may be the slot of a local.
    pub fn lower_expr(
        &mut self,
        vm: &mut VM,
        ctx: &Ctx,
        id: ExprId,
        dst_slot: Option<Slot>,
        depth: u32,
    ) -> (r: Result<Slot, CompileError>)
        ensures
            dst_slot is Some && r is Ok ==> r->Ok_0 == dst_slot->Some_0,
            done(r, final(self)@, final(vm)@) == old(self).st(old(vm)@).lower_expr(
                ctx.env(),
                id,
                dst_slot,
                depth as nat,
            ),
        decreases depth, 0int, id.0, 5int, 0int,
    {
        if Self::expr_is_place(ctx, id)? {
            let place = self.place_of(vm, ctx, id, depth)?;
            let (_, l) = self.expr_layout(vm, ctx, id)?;
            self.load_place(Ghost(vm@), place, dst_slot, l)
        } else {
            self.lower_value(vm, ctx, id, dst_slot, depth)
        }
    }

    /// The place of an expression: its own if it denotes one, else the slot
    /// that its value was lowered to.
    pub fn expr_to_place(&mut self, vm: &mut VM, ctx: &Ctx, id: ExprId, depth: u32) -> (r: Result<
        Place,
        CompileError,
    >)
        ensures
            done(r, final(self)@, final(vm)@) == old(self).st(old(vm)@).expr_to_place(
                ctx.env(),
                id,
                depth as nat,
            ),
        decreases depth, 0int, id.0, 6int, 0int,
    {
        if Self::expr_is_place(ctx, id)? {
            self.place_of(vm, ctx, id, depth)
        } else {
            let slot = self.lower_expr(vm, ctx, id, None, depth)?;
            Ok(Place::Local(slot))
        }
    }

    fn lower_value(
        &mut self,
        vm: &mut VM,
        ctx: &Ctx,
        id: ExprId,
        dst: Option<Slot>,
        depth: u32,
    ) -> (r: Result<Slot, CompileError>)
        ensures
            dst is Some && r is Ok ==> r->Ok_0 == dst->Some_0,
            done(r, final(self)@, final(vm)@) == old(self).st(old(vm)@).lower_value(
                ctx.env(),
                id,
                dst,
                depth as nat,
            ),
        decreases depth, 0int, id.0, 4int, 0int,
    {
        let e = ctx.ir.expr(id)?;
        match &e.kind {
            ExprKind::Dummy(v) => if v.0 < id.0 {
                self.lower_expr(vm, ctx, *v, dst, depth)
            } else {
                Err(CompileError::BadExpr)
            },
            ExprKind::Block(b) => self.lower_block(vm, ctx, id, b, dst, depth),
            ExprKind::LiteralValue(n) => {
                let (d, _, l) = self.dest(vm, ctx, id, dst)?;
                self.emit_ok(Ghost(vm@), literal(*n, l.size, d))?;
                Ok(d)
            },
            ExprKind::LiteralVoid => Ok(dummy_or(dst)),
            ExprKind::LiteralBytes(bytes) => self.lower_bytes(vm, ctx, id, bytes, dst),
            ExprKind::Unary(op, arg) => self.lower_unary(vm, ctx, id, *op, *arg, dst, depth),
            ExprKind::Cast(src) => self.lower_cast(vm, ctx, id, *src, dst, depth),
            ExprKind::Binary(op, lhs, rhs) => self.lower_binary(
                vm,
                ctx,
                id,
                *op,
                *lhs,
                *rhs,
                dst,
                depth,
            ),
            ExprKind::Assign(lhs, rhs) => self.lower_assign(vm, ctx, id, *lhs, *rhs, dst, depth),
            ExprKind::AssignOp(op, lhs, rhs) => self.lower_assign_op(
                vm,
                ctx,
                id,
                *op,
                *lhs,
                *rhs,
                dst,
                depth,
            ),
            ExprKind::Call { func, args } => self.lower_call(vm, ctx, id, *func, args, dst, depth),
            ExprKind::If { cond, then, else_opt } => self.lower_if(
                vm,
                ctx,
                id,
                *cond,
                *then,
                *else_opt,
                dst,
                depth,
            ),
            ExprKind::LogicOp(op, lhs, rhs) => self.lower_logic(
                vm,
                ctx,
                id,
                *op,
                *lhs,
                *rhs,
                dst,
                depth,
            ),
            ExprKind::Loop(body, loop_id) => self.lower_loop(vm, ctx, id, body, *loop_id, dst, depth),
            ExprKind::Break { loop_id, value } => self.lower_break(
                vm,
                ctx,
                id,
                *loop_id,
                *value,
                dst,
                depth,
            ),
            ExprKind::Continue { loop_id } => match self.find_loop(*loop_id) {
                Some(info) => {
                    self.jump_back(Ghost(vm@), info.start_index)?;
                    Ok(dummy_or(dst))
                },
                None => Err(CompileError::NoLoop),
            },
            ExprKind::Return(value) => self.lower_return(vm, ctx, id, *value, dst, depth),
            ExprKind::Ref(arg, m) => self.lower_ref(vm, ctx, id, *arg, *m, dst, depth),
            ExprKind::PointerCast(src, c) => self.lower_pointer_cast(
                vm,
                ctx,
                id,
                *src,
                *c,
                dst,
                depth,
            ),
            ExprKind::Tuple(fields) => {
                let (d, _, l) = self.dest(vm, ctx, id, dst)?;
                self.lower_fields(vm, ctx, id, fields, l, d, depth)?;
                Ok(d)
            },
            ExprKind::Array(fields) => self.lower_array(vm, ctx, id, fields, dst, depth),
            ExprKind::ArrayRepeat(arg, len) => self.lower_array_repeat(
                vm,
                ctx,
                id,
                *arg,
                *len,
                dst,
                depth,
            ),
            ExprKind::Adt { variant, fields, rest } => self.lower_adt(
                vm,
                ctx,
                id,
                *variant,
                fields,
                *rest,
                dst,
                depth,
            ),
            ExprKind::Let { pattern, init } => {
                let (d, _, _) = self.dest(vm, ctx, id, dst)?;
                self.match_pattern_expr(vm, ctx, *pattern, Some(*init), Some(d), id, depth)?;
                Ok(d)
            },
            ExprKind::Match { arg, arms } => self.lower_match(vm, ctx, id, *arg, arms, dst, depth),
            ExprKind::ConstParam(n) => {
                let (d, _, l) = self.dest(vm, ctx, id, dst)?;
                if (*n as usize) < ctx.subs.list.len() {
                    match ctx.subs.list[*n as usize] {
                        Sub::Const(v) => {
                            self.emit_ok(Ghost(vm@), literal(v, l.size, d))?;
                            Ok(d)
                        },
                        _ => Err(CompileError::MissingSub),
                    }
                } else {
                    Err(CompileError::MissingSub)
                }
            },
            _ => Err(CompileError::BadExpr),
        }
    }

    fn lower_bytes(
        &mut self,
        vm: &mut VM,
        ctx: &Ctx,
        id: ExprId,
        bytes: &Vec<u8>,
        dst: Option<Slot>,
    ) -> (r: Result<Slot, CompileError>)
        ensures
            dst is Some && r is Ok ==> r->Ok_0 == dst->Some_0,
            done(r, final(self)@, final(vm)@) == old(self).st(old(vm)@).lower_bytes(
                ctx.env(),
                id,
                bytes@,
                dst,
            ),
    {
        let (d, _, _) = self.dest(vm, ctx, id, dst)?;
        let off = vm.alloc_constant(bytes)?;
        let d2 = shift_slot(d, POINTER_SIZE)?;
        self.emit_word(Ghost(vm@), (CONST_BASE + off as u64) as i128, d);
        self.emit_word(Ghost(vm@), bytes.len() as i128, d2);
        Ok(d)
    }

    fn lower_unary(
        &mut self,
        vm: &mut VM,
        ctx: &Ctx,
        id: ExprId,
        op: UnaryOp,
        arg: ExprId,
        dst: Option<Slot>,
        depth: u32,
    ) -> (r: Result<Slot, CompileError>)
        ensures
            dst is Some && r is Ok ==> r->Ok_0 == dst->Some_0,
            done(r, final(self)@, final(vm)@) == old(self).st(old(vm)@).lower_unary(
                ctx.env(),
                id,
                op,
                arg,
                dst,
                depth as nat,
            ),
        decreases depth, 0int, id.0, 3int, 0int,
    {
        if arg.0 >= id.0 {
            return Err(CompileError::BadExpr);
        }
        let (d, _, _) = self.dest(vm, ctx, id, dst)?;
        let a = self.lower_expr(vm, ctx, arg, None, depth)?;
        let (k, _) = self.expr_kind(vm, ctx, arg)?;
        self.emit_ok(Ghost(vm@), unary(op, k, d, a))?;
        Ok(d)
    }

    fn lower_cast(
        &mut self,
        vm: &mut VM,
        ctx: &Ctx,
        id: ExprId,
        src: ExprId,
        dst: Option<Slot>,
        depth: u32,
    ) -> (r: Result<Slot, CompileError>)
        ensures
            dst is Some && r is Ok ==> r->Ok_0 == dst->Some_0,
            done(r, final(self)@, final(vm)@) == old(self).st(old(vm)@).lower_cast(
                ctx.env(),
                id,
                src,
                dst,
                depth as nat,
            ),
        decreases depth, 0int, id.0, 3int, 0int,
    {
        if src.0 >= id.0 {
            return Err(CompileError::BadExpr);
        }
        let (d, dst_ty, l) = self.dest(vm, ctx, id, dst)?;
        let a = self.lower_expr(vm, ctx, src, None, depth)?;
        let (src_ty, _) = self.expr_layout(vm, ctx, src)?;
        if src_ty == dst_ty {
            self.emit_some(Ghost(vm@), copy(d, a, l.size))?;
            Ok(d)
        } else {
            match (vm.types.kind(src_ty), vm.types.kind(dst_ty)) {
                (Ok(ks), Ok(kd)) => {
                    self.emit_ok(Ghost(vm@), cast(ks, kd, d, a))?;
                    Ok(d)
                },
                _ => Err(CompileError::BadType),
            }
        }
    }

    fn lower_binary(
        &mut self,
        vm: &mut VM,
        ctx: &Ctx,
        id: ExprId,
        op: BinaryOp,
        lhs: ExprId,
        rhs: ExprId,
        dst: Option<Slot>,
        depth: u32,
    ) -> (r: Result<Slot, CompileError>)
        ensures
            dst is Some && r is Ok ==> r->Ok_0 == dst->Some_0,
            done(r, final(self)@, final(vm)@) == old(self).st(old(vm)@).lower_binary(
                ctx.env(),
                id,
                op,
                lhs,
                rhs,
                dst,
                depth as nat,
            ),
        decreases depth, 0int, id.0, 3int, 0int,
    {
        if lhs.0 >= id.0 || rhs.0 >= id.0 {
            return Err(CompileError::BadExpr);
        }
        let (d, _, _) = self.dest(vm, ctx, id, dst)?;
        let a = self.lower_expr(vm, ctx, lhs, None, depth)?;
        let b = self.lower_expr(vm, ctx, rhs, None, depth)?;
        let (k, _) = self.expr_kind(vm, ctx, lhs)?;
        let (ctor, swap) = binary(op, k)?;
        if swap {
            self.emit(Ghost(vm@), ctor.make(d, b, a));
        } else {
            self.emit(Ghost(vm@), ctor.make(d, a, b));
        }
        Ok(d)
    }

    fn lower_assign(
        &mut self,
        vm: &mut VM,
        ctx: &Ctx,
        id: ExprId,
        lhs: ExprId,
        rhs: ExprId,
        dst: Option<Slot>,
        depth: u32,
    ) -> (r: Result<Slot, CompileError>)
        ensures
            dst is Some && r is Ok ==> r->Ok_0 == dst->Some_0,
            done(r, final(self)@, final(vm)@) == old(self).st(old(vm)@).lower_assign(
                ctx.env(),
                id,
                lhs,
                rhs,
                dst,
                depth as nat,
            ),
        decreases depth, 0int, id.0, 3int, 0int,
    {
        if lhs.0 >= id.0 || rhs.0 >= id.0 {
            return Err(CompileError::BadExpr);
        }
        let r = self.lower_expr(vm, ctx, rhs, None, depth)?;
        let (_, l) = self.expr_layout(vm, ctx, lhs)?;
        let size = l.assert_size()?;
        let place = self.expr_to_place(vm, ctx, lhs, depth)?;
        self.store_place(Ghost(vm@), place, r, size);
        Ok(dummy_or(dst))
    }

    fn lower_assign_op(
        &mut self,
        vm: &mut VM,
        ctx: &Ctx,
        id: ExprId,
        op: BinaryOp,
        lhs: ExprId,
        rhs: ExprId,
        dst: Option<Slot>,
        depth: u32,
    ) -> (r: Result<Slot, CompileError>)
        ensures
            dst is Some && r is Ok ==> r->Ok_0 == dst->Some_0,
            done(r, final(self)@, final(vm)@) == old(self).st(old(vm)@).lower_assign_op(
                ctx.env(),
                id,
                op,
                lhs,
                rhs,
                dst,
                depth as nat,
            ),
        decreases depth, 0int, id.0, 3int, 0int,
    {
        if lhs.0 >= id.0 || rhs.0 >= id.0 {
            return Err(CompileError::BadExpr);
        }
        let r = self.lower_expr(vm, ctx, rhs, None, depth)?;
        let (k, l) = self.expr_kind(vm, ctx, lhs)?;
        let (ctor, swap) = binary(op, k)?;
        let size = l.assert_size()?;
        if swap {
            return Err(CompileError::Unsupported);
        }
        match self.expr_to_place(vm, ctx, lhs, depth)? {
            Place::Local(slot) => {
                self.emit(Ghost(vm@), ctor.make(slot, slot, r));
                Ok(dummy_or(dst))
            },
            Place::Ptr(p, off, _) => {
                let tmp = self.alloc_slot(Ghost(vm@), l)?;
                self.emit_some(Ghost(vm@), copy_from_ptr(tmp, p, size, off))?;
                self.emit(Ghost(vm@), ctor.make(tmp, tmp, r));
                self.emit_some(Ghost(vm@), copy_to_ptr(p, tmp, size, off))?;
                Ok(dummy_or(dst))
            },
        }
    }

    fn lower_args(
        &mut self,
        vm: &mut VM,
        ctx: &Ctx,
        id: ExprId,
        args: &Vec<ExprId>,
        first: Option<Slot>,
        depth: u32,
    ) -> (r: Result<Vec<Slot>, CompileError>)
        ensures
            match r {
                Ok(v) => old(self).st(old(vm)@).lower_args(
                    ctx.env(),
                    id,
                    args@,
                    first,
                    0,
                    Seq::empty(),
                    depth as nat,
                ) == Ok::<(St, Seq<Slot>), CompileError>((final(self).st(final(vm)@), v@)),
                Err(e) => old(self).st(old(vm)@).lower_args(
                    ctx.env(),
                    id,
                    args@,
                    first,
                    0,
                    Seq::empty(),
                    depth as nat,
                ) == Err::<(St, Seq<Slot>), CompileError>(e),
            },
        decreases depth, 0int, id.0, 2int, args.len(),
    {
        let mut acc: Vec<Slot> = Vec::new();
        let mut i: usize = 0;
        while i < args.len()
            invariant
                i <= args.len(),
                self.st(vm@).lower_args(
                    ctx.env(),
                    id,
                    args@,
                    first,
                    i as int,
                    acc@,
                    depth as nat,
                ) == old(self).st(old(vm)@).lower_args(
                    ctx.env(),
                    id,
                    args@,
                    first,
                    0,
                    Seq::empty(),
                    depth as nat,
                ),
            decreases args.len() - i,
        {
            if i == 0 && first.is_some() {
                acc.push(first.unwrap());
            } else {
                if args[i].0 >= id.0 {
                    return Err(CompileError::BadExpr);
                }
                let slot = self.lower_expr(vm, ctx, args[i], None, depth)?;
                acc.push(slot);
            }
            i += 1;
        }
        Ok(acc)
    }

    fn place_args(
        &mut self,
        vm: &mut VM,
        ctx: &Ctx,
        args: &Vec<ExprId>,
        first: Option<Slot>,
        src: &Vec<Slot>,
    ) -> (r: Result<(), CompileError>)
        ensures
            done_unit(r, final(self)@, final(vm)@) == old(self).st(old(vm)@).place_args(
                ctx.env(),
                args@,
                first,
                src@,
                0,
            ),
    {
        let mut i: usize = 0;
        while i < args.len() && i < src.len()
            invariant
                i <= args.len(),
                self.st(vm@).place_args(ctx.env(), args@, first, src@, i as int) == old(self).st(
                    old(vm)@,
                ).place_args(ctx.env(), args@, first, src@, 0),
            decreases args.len() - i,
        {
            let l = if i == 0 && first.is_some() {
                word()
            } else {
                let (_, l) = self.expr_layout(vm, ctx, args[i])?;
                l
            };
            let slot = self.alloc_slot(Ghost(vm@), l)?;
            self.emit_opt(Ghost(vm@), copy(slot, src[i], l.size));
            i += 1;
        }
        Ok(())
    }

    /// Builds a call frame and returns its base: the arguments are
    /// evaluated, the return slot is allocated at a 16-byte boundary and the
    /// argument slots after it, and the arguments are copied there.
    /// `override_arg_0`, if given, is passed as a thin pointer in place of
    /// the first argument.
    pub fn build_call(
        &mut self,
        vm: &mut VM,
        ctx: &Ctx,
        id: ExprId,
        res: Layout,
        args: &Vec<ExprId>,
        override_arg_0: Option<Slot>,
        depth: u32,
    ) -> (r: Result<Slot, CompileError>)
        ensures
            done(r, final(self)@, final(vm)@) == old(self).st(old(vm)@).build_call(
                ctx.env(),
                id,
                res,
                args@,
                override_arg_0,
                depth as nat,
            ),
        decreases depth, 0int, id.0, 3int, 0int,
    {
        let src = self.lower_args(vm, ctx, id, args, override_arg_0, depth)?;
        let base = self.stack.align_for_call()?;
        let ret = self.alloc_slot(Ghost(vm@), res)?;
        if ret != base {
            return Err(CompileError::BadCall);
        }
        self.place_args(vm, ctx, args, override_arg_0, &src)?;
        Ok(ret)
    }

    fn lower_call(
        &mut self,
        vm: &mut VM,
        ctx: &Ctx,
        id: ExprId,
        func: ExprId,
        args: &Vec<ExprId>,
        dst: Option<Slot>,
        depth: u32,
    ) -> (r: Result<Slot, CompileError>)
        ensures
            dst is Some && r is Ok ==> r->Ok_0 == dst->Some_0,
            done(r, final(self)@, final(vm)@) == old(self).st(old(vm)@).lower_call(
                ctx.env(),
                id,
                func,
                args@,
                dst,
                depth as nat,
            ),
        decreases depth, 0int, id.0, 3int, 2int,
    {
        if func.0 >= id.0 {
            return Err(CompileError::BadExpr);
        }
        let (_, l) = self.expr_layout(vm, ctx, id)?;
        let fk = self.expr_kind(vm, ctx, func);
        let sz = l.assert_size();
        match (fk, sz) {
            (Ok((TypeKind::FunctionDef(item, sl), _)), Ok(size)) => {
                if !vm.types.has_list(sl) {
                    return Err(CompileError::BadCall);
                }
                let it = match ctx.prog.item(item) {
                    Ok(it) => it,
                    Err(_) => {
                        return Err(CompileError::BadCall);
                    },
                };
                match &it.kind {
                    ItemKind::Function { extern_name: Some(_), .. } => {
                        return Err(CompileError::Intrinsic);
                    },
                    _ => {},
                }
                let subs = SubList { list: vm.types.list(sl)? };
                match ctx.prog.is_function_dyn(&vm.types, item, &subs) {
                    Some(index) => {
                        let ret = self.lower_virtual(vm, ctx, id, l, args, index, depth)?;
                        Ok(self.deliver(Ghost(vm@), dst, ret, size))
                    },
                    None => {
                        let ret = self.build_call(vm, ctx, id, l, args, None, depth)?;
                        let f = vm.func_mono(ctx.prog, item, &subs)?;
                        self.emit(Ghost(vm@), Instr::Call(ret, f));
                        Ok(self.deliver(Ghost(vm@), dst, ret, size))
                    },
                }
            },
            (Ok((TypeKind::FunctionPointer(_, _), _)), Ok(size)) => {
                let ret = self.build_call(vm, ctx, id, l, args, None, depth)?;
                let f = self.lower_expr(vm, ctx, func, None, depth)?;
                self.emit(Ghost(vm@), Instr::CallPtr { frame: ret, func_ptr: f });
                Ok(self.deliver(Ghost(vm@), dst, ret, size))
            },
            (Ok(_), Ok(_)) => Err(CompileError::BadCall),
            (Err(e), _) => Err(e),
            (_, Err(e)) => Err(e),
        }
    }

    fn lower_virtual(
        &mut self,
        vm: &mut VM,
        ctx: &Ctx,
        id: ExprId,
        res: Layout,
        args: &Vec<ExprId>,
        index: u32,
        depth: u32,
    ) -> (r: Result<Slot, CompileError>)
        ensures
            done(r, final(self)@, final(vm)@) == old(self).st(old(vm)@).lower_virtual(
                ctx.env(),
                id,
                res,
                args@,
                index,
                depth as nat,
            ),
        decreases depth, 0int, id.0, 3int, 1int,
    {
        if args.len() == 0 || args[0].0 >= id.0 {
            return Err(CompileError::BadCall);
        }
        let (_, al) = self.expr_layout(vm, ctx, args[0])?;
        match al.assert_size() {
            Ok(s) => if s != 2 * POINTER_SIZE {
                return Err(CompileError::BadCall);
            },
            Err(_) => {
                return Err(CompileError::BadCall);
            },
        }
        let receiver = self.lower_expr(vm, ctx, args[0], None, depth)?;
        let vt = shift_slot(receiver, POINTER_SIZE);
        let fp = self.alloc_slot(Ghost(vm@), word());
        match (vt, fp) {
            (Ok(vt), Ok(fp)) => {
                self.emit(Ghost(vm@), Instr::VTableFunc(fp, vt, index));
                let ret = self.build_call(vm, ctx, id, res, args, Some(receiver), depth)?;
                self.emit(Ghost(vm@), Instr::CallPtr { frame: ret, func_ptr: fp });
                Ok(ret)
            },
            (Err(e), _) => Err(e),
            (_, Err(e)) => Err(e),
        }
    }

    fn lower_if(
        &mut self,
        vm: &mut VM,
        ctx: &Ctx,
        id: ExprId,
        cond: ExprId,
        then: ExprId,
        else_opt: Option<ExprId>,
        dst: Option<Slot>,
        depth: u32,
    ) -> (r: Result<Slot, CompileError>)
        ensures
            dst is Some && r is Ok ==> r->Ok_0 == dst->Some_0,
            done(r, final(self)@, final(vm)@) == old(self).st(old(vm)@).lower_if(
                ctx.env(),
                id,
                cond,
                then,
                else_opt,
                dst,
                depth as nat,
            ),
        decreases depth, 0int, id.0, 3int, 0int,
    {
        if cond.0 >= id.0 || then.0 >= id.0 {
            return Err(CompileError::BadExpr);
        }
        let c = self.lower_expr(vm, ctx, cond, None, depth)?;
        let j1 = self.skip_instr(Ghost(vm@))?;
        match else_opt {
            Some(els) => {
                if els.0 >= id.0 {
                    return Err(CompileError::BadExpr);
                }
                let (d, _, _) = self.dest(vm, ctx, id, dst)?;
                self.lower_expr(vm, ctx, then, Some(d), depth)?;
                let j2 = self.skip_instr(Ghost(vm@))?;
                self.patch(Ghost(vm@), j1, Patch::JumpF(c))?;
                self.lower_expr(vm, ctx, els, Some(d), depth)?;
                self.patch(Ghost(vm@), j2, Patch::Jump)?;
                Ok(d)
            },
            None => {
                let res = self.lower_expr(vm, ctx, then, dst, depth)?;
                self.patch(Ghost(vm@), j1, Patch::JumpF(c))?;
                Ok(res)
            },
        }
    }

    fn lower_logic(
        &mut self,
        vm: &mut VM,
        ctx: &Ctx,
        id: ExprId,
        op: LogicOp,
        lhs: ExprId,
        rhs: ExprId,
        dst: Option<Slot>,
        depth: u32,
    ) -> (r: Result<Slot, CompileError>)
        ensures
            dst is Some && r is Ok ==> r->Ok_0 == dst->Some_0,
            done(r, final(self)@, final(vm)@) == old(self).st(old(vm)@).lower_logic(
                ctx.env(),
                id,
                op,
                lhs,
                rhs,
                dst,
                depth as nat,
            ),
        decreases depth, 0int, id.0, 3int, 0int,
    {
        if lhs.0 >= id.0 || rhs.0 >= id.0 {
            return Err(CompileError::BadExpr);
        }
        let (d, _, _) = self.dest(vm, ctx, id, dst)?;
        self.lower_expr(vm, ctx, lhs, Some(d), depth)?;
        let j = self.skip_instr(Ghost(vm@))?;
        self.lower_expr(vm, ctx, rhs, Some(d), depth)?;
        let p = match op {
            LogicOp::And => Patch::JumpF(d),
            LogicOp::Or => Patch::JumpT(d),
        };
        self.patch(Ghost(vm@), j, p)?;
        Ok(d)
    }

    fn take_breaks(&mut self, Ghost(vm): Ghost<VmView>, loop_id: LoopId) -> (mine: Vec<u32>)
        ensures
            (mine@, final(self)@.breaks) == split_breaks(
                old(self)@.breaks,
                loop_id,
                0,
                Seq::empty(),
                Seq::empty(),
            ),
            final(self)@ == (crate::lowering::CompilerView {
                breaks: final(self)@.breaks,
                ..old(self)@
            }),
    {
        let mut mine: Vec<u32> = Vec::new();
        let mut rest: Vec<BreakInfo> = Vec::new();
        let mut i: usize = 0;
        while i < self.loop_breaks.len()
            invariant
                i <= self.loop_breaks.len(),
                self@ == old(self)@,
                split_breaks(self@.breaks, loop_id, i as int, mine@, rest@) == split_breaks(
                    old(self)@.breaks,
                    loop_id,
                    0,
                    Seq::empty(),
                    Seq::empty(),
                ),
            decreases self.loop_breaks.len() - i,
        {
            let b = self.loop_breaks[i];
            if b.loop_id == loop_id {
                mine.push(b.break_index);
            } else {
                rest.push(b);
            }
            i += 1;
        }
        self.loop_breaks = rest;
        mine
    }

    fn lower_loop(
        &mut self,
        vm: &mut VM,
        ctx: &Ctx,
        id: ExprId,
        body: &Block,
        loop_id: LoopId,
        dst: Option<Slot>,
        depth: u32,
    ) -> (r: Result<Slot, CompileError>)
        ensures
            dst is Some && r is Ok ==> r->Ok_0 == dst->Some_0,
            done(r, final(self)@, final(vm)@) == old(self).st(old(vm)@).lower_loop(
                ctx.env(),
                id,
                *body,
                loop_id,
                dst,
                depth as nat,
            ),
        decreases depth, 0int, id.0, 3int, 0int,
    {
        let (d, _, _) = self.dest(vm, ctx, id, dst)?;
        if self.out_bc.len() > u32::MAX as usize {
            return Err(CompileError::TooLarge);
        }
        let start: u32 = self.out_bc.len() as u32;
        self.loops.push(LoopInfo { loop_id, result_slot: d, start_index: start });
        let count: usize = self.loops.len();
        self.lower_block(vm, ctx, id, body, Some(Slot::dummy()), depth)?;
        if self.loops.len() != count {
            return Err(CompileError::NoLoop);
        }
        self.loops.pop();
        self.jump_back(Ghost(vm@), start)?;
        let mine = self.take_breaks(Ghost(vm@), loop_id);
        self.patch_all(Ghost(vm@), &mine, Patch::Jump)?;
        Ok(d)
    }

    fn lower_break(
        &mut self,
        vm: &mut VM,
        ctx: &Ctx,
        id: ExprId,
        loop_id: LoopId,
        value: Option<ExprId>,
        dst: Option<Slot>,
        depth: u32,
    ) -> (r: Result<Slot, CompileError>)
        ensures
            dst is Some && r is Ok ==> r->Ok_0 == dst->Some_0,
            done(r, final(self)@, final(vm)@) == old(self).st(old(vm)@).lower_break(
                ctx.env(),
                id,
                loop_id,
                value,
                dst,
                depth as nat,
            ),
        decreases depth, 0int, id.0, 3int, 0int,
    {
        match value {
            Some(v) => {
                if v.0 >= id.0 {
                    return Err(CompileError::BadExpr);
                }
                match self.find_loop(loop_id) {
                    Some(info) => {
                        self.lower_expr(vm, ctx, v, Some(info.result_slot), depth)?;
                    },
                    None => {
                        return Err(CompileError::NoLoop);
                    },
                }
            },
            None => {},
        }
        let j = self.skip_instr(Ghost(vm@))?;
        self.loop_breaks.push(BreakInfo { loop_id, break_index: j });
        Ok(dummy_or(dst))
    }

    fn lower_return(
        &mut self,
        vm: &mut VM,
        ctx: &Ctx,
        id: ExprId,
        value: Option<ExprId>,
        dst: Option<Slot>,
        depth: u32,
    ) -> (r: Result<Slot, CompileError>)
        ensures
            dst is Some && r is Ok ==> r->Ok_0 == dst->Some_0,
            done(r, final(self)@, final(vm)@) == old(self).st(old(vm)@).lower_return(
                ctx.env(),
                id,
                value,
                dst,
                depth as nat,
            ),
        decreases depth, 0int, id.0, 3int, 0int,
    {
        match value {
            Some(v) => {
                if v.0 >= id.0 {
                    return Err(CompileError::BadExpr);
                }
                self.lower_expr(vm, ctx, v, Some(Slot::new(0)), depth)?;
            },
            None => {},
        }
        self.emit(Ghost(vm@), Instr::Return);
        Ok(dummy_or(dst))
    }

    fn lower_fields(
        &mut self,
        vm: &mut VM,
        ctx: &Ctx,
        id: ExprId,
        fields: &Vec<ExprId>,
        l: Layout,
        d: Slot,
        depth: u32,
    ) -> (r: Result<(), CompileError>)
        ensures
            done(r, final(self)@, final(vm)@) == old(self).st(old(vm)@).lower_fields(
                ctx.env(),
                id,
                fields@,
                l,
                d,
                0,
                depth as nat,
            ),
        decreases depth, 0int, id.0, 2int, fields.len(),
    {
        let mut i: usize = 0;
        while i < fields.len()
            invariant
                i <= fields.len(),
                self.st(vm@).lower_fields(ctx.env(), id, fields@, l, d, i as int, depth as nat)
                    == old(self).st(old(vm)@).lower_fields(
                    ctx.env(),
                    id,
                    fields@,
                    l,
                    d,
                    0,
                    depth as nat,
                ),
            decreases fields.len() - i,
        {
            if fields[i].0 >= id.0 || i > u32::MAX as usize {
                return Err(CompileError::BadExpr);
            }
            let off = vm.types.field_offset(&l, 0, i as u32)?;
            let slot = shift_slot(d, off)?;
            self.lower_expr(vm, ctx, fields[i], Some(slot), depth)?;
            i += 1;
        }
        Ok(())
    }

    fn lower_elems(
        &mut self,
        vm: &mut VM,
        ctx: &Ctx,
        id: ExprId,
        fields: &Vec<ExprId>,
        size: u32,
        d: Slot,
        depth: u32,
    ) -> (r: Result<(), CompileError>)
        ensures
            done(r, final(self)@, final(vm)@) == old(self).st(old(vm)@).lower_elems(
                ctx.env(),
                id,
                fields@,
                size,
                d,
                0,
                depth as nat,
            ),
        decreases depth, 0int, id.0, 2int, fields.len(),
    {
        let mut i: usize = 0;
        while i < fields.len()
            invariant
                i <= fields.len(),
                self.st(vm@).lower_elems(ctx.env(), id, fields@, size, d, i as int, depth as nat)
                    == old(self).st(old(vm)@).lower_elems(
                    ctx.env(),
                    id,
                    fields@,
                    size,
                    d,
                    0,
                    depth as nat,
                ),
            decreases fields.len() - i,
        {
            if fields[i].0 >= id.0 {
                return Err(CompileError::BadExpr);
            }
            let slot = elem_slot(d, i, size)?;
            self.lower_expr(vm, ctx, fields[i], Some(slot), depth)?;
            i += 1;
        }
        Ok(())
    }

    fn lower_array(
        &mut self,
        vm: &mut VM,
        ctx: &Ctx,
        id: ExprId,
        fields: &Vec<ExprId>,
        dst: Option<Slot>,
        depth: u32,
    ) -> (r: Result<Slot, CompileError>)
        ensures
            dst is Some && r is Ok ==> r->Ok_0 == dst->Some_0,
            done(r, final(self)@, final(vm)@) == old(self).st(old(vm)@).lower_array(
                ctx.env(),
                id,
                fields@,
                dst,
                depth as nat,
            ),
        decreases depth, 0int, id.0, 3int, 0int,
    {
        match self.expr_kind(vm, ctx, id)? {
            (TypeKind::Array(elem, _), l) => {
                let el = self.layout_of(vm, ctx, elem)?;
                let sz = el.assert_size();
                let d = self.dst_or_alloc(Ghost(vm@), dst, l);
                match (sz, d) {
                    (Ok(size), Ok(d)) => {
                        self.lower_elems(vm, ctx, id, fields, size, d, depth)?;
                        Ok(d)
                    },
                    (Err(e), _) => Err(e),
                    (_, Err(e)) => Err(e),
                }
            },
            _ => Err(CompileError::BadExpr),
        }
    }

    fn lower_array_repeat(
        &mut self,
        vm: &mut VM,
        ctx: &Ctx,
        id: ExprId,
        arg: ExprId,
        len: ArrayLen,
        dst: Option<Slot>,
        depth: u32,
    ) -> (r: Result<Slot, CompileError>)
        ensures
            dst is Some && r is Ok ==> r->Ok_0 == dst->Some_0,
            done(r, final(self)@, final(vm)@) == old(self).st(old(vm)@).lower_array_repeat(
                ctx.env(),
                id,
                arg,
                len,
                dst,
                depth as nat,
            ),
        decreases depth, 0int, id.0, 3int, 0int,
    {
        if arg.0 >= id.0 {
            return Err(CompileError::BadExpr);
        }
        match TypeContext::sub_len(len, &ctx.subs.list)? {
            ArrayLen::Known(count) => {
                let (_, al) = self.expr_layout(vm, ctx, arg)?;
                let sz = al.assert_size();
                let d = self.dest(vm, ctx, id, dst);
                match (sz, d) {
                    (Ok(size), Ok((d, _, _))) => {
                        self.lower_expr(vm, ctx, arg, Some(d), depth)?;
                        self.emit(Ghost(vm@), Instr::ArrayRepeat { base: d, size, count });
                        Ok(d)
                    },
                    (Err(e), _) => Err(e),
                    (_, Err(e)) => Err(e),
                }
            },
            _ => Err(CompileError::NotConcrete),
        }
    }

    fn lower_stmts(
        &mut self,
        vm: &mut VM,
        ctx: &Ctx,
        id: ExprId,
        stmts: &Vec<Stmt>,
        depth: u32,
    ) -> (r: Result<(), CompileError>)
        ensures
            done(r, final(self)@, final(vm)@) == old(self).st(old(vm)@).lower_stmts(
                ctx.env(),
                id,
                stmts@,
                0,
                depth as nat,
            ),
        decreases depth, 0int, id.0, 2int, stmts.len(),
    {
        let mut i: usize = 0;
        while i < stmts.len()
            invariant
                i <= stmts.len(),
                self.st(vm@).lower_stmts(ctx.env(), id, stmts@, i as int, depth as nat) == old(self).st(old(vm)@).lower_stmts(ctx.env(), id, stmts@, 0, depth as nat),
            decreases stmts.len() - i,
        {
            match stmts[i] {
                Stmt::Let { pattern, init, else_block } => {
                    if else_block.is_some() {
                        return Err(CompileError::Unsupported);
                    }
                    self.match_pattern_expr(vm, ctx, pattern, init, None, id, depth)?;
                },
                Stmt::Expr(e) => {
                    if e.0 >= id.0 {
                        return Err(CompileError::BadExpr);
                    }
                    let scope = self.push_scope(Ghost(vm@), "stmt")?;
                    self.lower_expr(vm, ctx, e, None, depth)?;
                    self.pop_scope(Ghost(vm@), scope)?;
                },
            }
            i += 1;
        }
        Ok(())
    }

    /// Lowers a block. The slot of the result is allocated before the
    /// block's scope is entered.
    pub fn lower_block(
        &mut self,
        vm: &mut VM,
        ctx: &Ctx,
        id: ExprId,
        block: &Block,
        dst_slot: Option<Slot>,
        depth: u32,
    ) -> (r: Result<Slot, CompileError>)
        ensures
            dst_slot is Some && r is Ok ==> r->Ok_0 == dst_slot->Some_0,
            done(r, final(self)@, final(vm)@) == old(self).st(old(vm)@).lower_block(
                ctx.env(),
                id,
                *block,
                dst_slot,
                depth as nat,
            ),
        decreases depth, 0int, id.0, 2int, block.stmts.len() + 1,
    {
        let d = match (dst_slot, block.result) {
            (Some(d), _) => d,
            (None, Some(r)) => {
                let (_, l) = self.expr_layout(vm, ctx, r)?;
                self.alloc_slot(Ghost(vm@), l)?
            },
            (None, None) => Slot::dummy(),
        };
        let scope = self.push_scope(Ghost(vm@), "block")?;
        self.lower_stmts(vm, ctx, id, &block.stmts, depth)?;
        match block.result {
            Some(r) => {
                if r.0 >= id.0 {
                    return Err(CompileError::BadExpr);
                }
                self.lower_expr(vm, ctx, r, Some(d), depth)?;
            },
            None => {},
        }
        self.pop_scope(Ghost(vm@), scope)?;
        Ok(d)
    }
}

/// The byte offset of element `i`, where it fits a jump or pointer offset.
pub fn elem_offset(i: usize, size: u32) -> (r: Option<i32>)
    ensures
        r == (if i * size > i32::MAX {
            None
        } else {
            Some((i * size) as i32)
        }),
{
    if i > u32::MAX as usize {
        if size == 0 {
            assert(i * size == 0) by (nonlinear_arith)
                requires
                    size == 0,
            ;
            return Some(0);
        }
        assert(i * size > i32::MAX) by (nonlinear_arith)
            requires
                i > u32::MAX,
                size >= 1,
        ;
        return None;
    }
    assert(i * size <= 0xffff_ffff * 0xffff_ffff) by (nonlinear_arith)
        requires
            i <= 0xffff_ffff,
            size <= 0xffff_ffff,
    ;
    let off: u64 = i as u64 * size as u64;
    if off > i32::MAX as u64 {
        None
    } else {
        Some(off as i32)
    }
}

/// The slot of element `i` of an array at `d`.
pub fn elem_slot(d: Slot, i: usize, size: u32) -> (r: Result<Slot, CompileError>)
    ensures
        r == crate::lowering::shift(d, i * size),
{
    if i > u32::MAX as usize {
        assert(i * size > i32::MAX || size == 0) by (nonlinear_arith)
            requires
                i > u32::MAX,
                size >= 0,
        ;
        if size == 0 {
            assert(i * size == 0) by (nonlinear_arith)
                requires
                    size == 0,
            ;
            return Ok(d);
        }
        return Err(CompileError::TooLarge);
    }
    assert(i * size <= 0xffff_ffff * 0xffff_ffff) by (nonlinear_arith)
        requires
            i <= 0xffff_ffff,
            size <= 0xffff_ffff,
    ;
    let off: u64 = i as u64 * size as u64;
    if off > i32::MAX as u64 {
        return Err(CompileError::TooLarge);
    }
    shift_slot(d, off as u32)
}

} // verus!
