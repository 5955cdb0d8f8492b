//! Lowering of references, casts between pointers, struct and enum values,
//! matches, and place expressions.

use vstd::prelude::*;
use crate::abi::POINTER_SIZE;
use crate::compiler::{done, done_unit, move_place, shift_slot, truth, word, BytecodeCompiler, Ctx};
use crate::error::CompileError;
use crate::ids::ItemRef;
use crate::instr::{Instr, Slot, Width};
use crate::ir::{
    ConstStatus, ExprId, ExprKind, FnTrait, IRFunction, MatchArm, MatchGuard, PointerCast, UpVar,
};
use crate::lowering::{Patch, St};
use crate::select::{copy, copy_from_ptr};
use crate::stack::{Place, PointerKind};
use crate::types::{ArrayLen, Layout, ListId, Mutability, Sub, SubList, Type, TypeKind};
use crate::vm::{VmView, FUNC_BASE, VM};

verus! {

impl BytecodeCompiler {
    pub(crate) fn lower_ref(
        &mut self,
        vm: &mut VM,
        ctx: &Ctx,
        id: ExprId,
        arg: ExprId,
        m: Mutability,
        dst: Option<Slot>,
        depth: u32,
    ) -> (r: Result<Slot, CompileError>)
        ensures
            dst is Some && r is Ok ==> r->Ok_0 == dst->Some_0,
            done(r, final(self)@, final(vm)@) == old(self).st(old(vm)@).lower_ref(
                ctx.env(),
                id,
                arg,
                m,
                dst,
                depth as nat,
            ),
        decreases depth, 0int, id.0, 3int, 0int,
    {
        if arg.0 >= id.0 {
            return Err(CompileError::BadExpr);
        }
        let ae = match ctx.ir.expr(arg) {
            Ok(e) => e,
            Err(_) => {
                return Err(CompileError::BadExpr);
            },
        };
        if m == Mutability::Const && ae.const_status == ConstStatus::CanPromote {
            if depth == 0 {
                return Err(CompileError::DepthExceeded);
            }
            let (ptr, meta) = self.const_promote(vm, ctx, arg, depth - 1)?;
            let (d, _, _) = self.dest(vm, ctx, id, dst)?;
            match meta {
                Some(mv) => {
                    let d2 = shift_slot(d, POINTER_SIZE)?;
                    self.emit_word(Ghost(vm@), ptr as i128, d);
                    self.emit_word(Ghost(vm@), mv as i128, d2);
                    Ok(d)
                },
                None => {
                    self.emit_word(Ghost(vm@), ptr as i128, d);
                    Ok(d)
                },
            }
        } else {
            match self.expr_to_place(vm, ctx, arg, depth)? {
                Place::Local(src) => {
                    let (d, _, _) = self.dest(vm, ctx, id, dst)?;
                    self.emit(Ghost(vm@), Instr::SlotAddr(d, src));
                    Ok(d)
                },
                Place::Ptr(src, off, kind) => self.ref_behind(
                    vm,
                    ctx,
                    id,
                    arg,
                    m == Mutability::Mut && ae.const_alloc,
                    src,
                    off,
                    kind,
                    dst,
                ),
            }
        }
    }

    fn ref_behind(
        &mut self,
        vm: &mut VM,
        ctx: &Ctx,
        id: ExprId,
        arg: ExprId,
        copy_alloc: bool,
        src: Slot,
        off: i32,
        kind: PointerKind,
        dst: Option<Slot>,
    ) -> (r: Result<Slot, CompileError>)
        ensures
            dst is Some && r is Ok ==> r->Ok_0 == dst->Some_0,
            done(r, final(self)@, final(vm)@) == old(self).st(old(vm)@).ref_behind(
                ctx.env(),
                id,
                arg,
                copy_alloc,
                src,
                off,
                kind,
                dst,
            ),
    {
        let (_, l) = self.expr_layout(vm, ctx, id)?;
        let sz = l.assert_size();
        let al = self.expr_layout(vm, ctx, arg);
        match (sz, al) {
            (Ok(size), Ok((_, al))) => {
                let fat = size == 2 * POINTER_SIZE;
                if copy_alloc {
                    if fat {
                        return Err(CompileError::Unsupported);
                    }
                    let asz = al.assert_size();
                    let cp = self.alloc_slot(Ghost(vm@), al);
                    match (asz, cp) {
                        (Ok(asize), Ok(cp)) => {
                            self.emit_opt(Ghost(vm@), copy_from_ptr(cp, src, asize, off));
                            let d = self.dst_or_alloc(Ghost(vm@), dst, l)?;
                            self.emit(Ghost(vm@), Instr::SlotAddr(d, cp));
                            Ok(d)
                        },
                        (Err(e), _) => Err(e),
                        (_, Err(e)) => Err(e),
                    }
                } else if fat && kind != PointerKind::Fat {
                    Err(CompileError::Unsupported)
                } else if off != 0 {
                    let d = self.dst_or_alloc(Ghost(vm@), dst, l)?;
                    self.emit(Ghost(vm@), Instr::PointerOffset2(d, src, off));
                    if fat {
                        match (shift_slot(d, POINTER_SIZE), shift_slot(src, POINTER_SIZE)) {
                            (Ok(d2), Ok(src2)) => {
                                self.emit(Ghost(vm@), Instr::MovSS(POINTER_SIZE, d2, src2));
                                Ok(d)
                            },
                            _ => Err(CompileError::TooLarge),
                        }
                    } else {
                        Ok(d)
                    }
                } else {
                    match dst {
                        Some(d) => {
                            self.emit_some(Ghost(vm@), copy(d, src, size))?;
                            Ok(d)
                        },
                        None => Ok(src),
                    }
                }
            },
            (Err(e), _) => Err(e),
            (_, Err(e)) => Err(e),
        }
    }

    fn unsize_pair(&self, vm: &VM, src: Type, dst: Type) -> (r: Result<(Type, Type), CompileError>)
        ensures
            r == self.st(vm@).unsize_pair(src, dst),
    {
        match (vm.types.kind(src), vm.types.kind(dst)) {
            (Ok(TypeKind::Adt(a, la)), Ok(TypeKind::Adt(b, lb))) => {
                if a != b || !vm.types.has_list(la) || !vm.types.has_list(lb) {
                    return Err(CompileError::Unsupported);
                }
                let xa = vm.types.list(la)?;
                let xb = vm.types.list(lb)?;
                let k = crate::lower::find_changed_index(&xa, &xb)?;
                match (xa[k], xb[k]) {
                    (Sub::Type(x), Sub::Type(y)) => Ok((x, y)),
                    _ => Err(CompileError::Unsupported),
                }
            },
            (Ok(_), Ok(_)) => Ok((src, dst)),
            _ => Err(CompileError::BadType),
        }
    }

    fn unsize_meta(&mut self, vm: &mut VM, ctx: &Ctx, src: Type, dst: Type, depth: u32) -> (r:
        Result<Option<i128>, CompileError>)
        ensures
            done(r, final(self)@, final(vm)@) == old(self).st(old(vm)@).unsize_meta(
                ctx.env(),
                src,
                dst,
                depth as nat,
            ),
    {
        match (vm.types.kind(src), vm.types.kind(dst)) {
            (Ok(TypeKind::Array(_, ArrayLen::Known(n))), Ok(TypeKind::Slice(_))) => Ok(
                Some(n as i128),
            ),
            (Ok(ks), Ok(TypeKind::Dynamic { primary_trait, is_dyn_star })) => match primary_trait {
                Some(t) => {
                    if is_dyn_star {
                        return Err(CompileError::Unsupported);
                    }
                    match ks {
                        TypeKind::Dynamic { primary_trait: p2, is_dyn_star: d2 } => {
                            if d2 == is_dyn_star && p2 == primary_trait {
                                Ok(None)
                            } else {
                                Err(CompileError::Unsupported)
                            }
                        },
                        _ => {
                            if depth == 0 {
                                return Err(CompileError::DepthExceeded);
                            }
                            let addr = self.vtable(vm, ctx, t, src, depth - 1)?;
                            Ok(Some(addr as i128))
                        },
                    }
                },
                None => Err(CompileError::Unsupported),
            },
            (Ok(_), Ok(_)) => Err(CompileError::Unsupported),
            _ => Err(CompileError::BadType),
        }
    }

    pub(crate) fn lower_pointer_cast(
        &mut self,
        vm: &mut VM,
        ctx: &Ctx,
        id: ExprId,
        src: ExprId,
        cast: PointerCast,
        dst: Option<Slot>,
        depth: u32,
    ) -> (r: Result<Slot, CompileError>)
        ensures
            dst is Some && r is Ok ==> r->Ok_0 == dst->Some_0,
            done(r, final(self)@, final(vm)@) == old(self).st(old(vm)@).lower_pointer_cast(
                ctx.env(),
                id,
                src,
                cast,
                dst,
                depth as nat,
            ),
        decreases depth, 0int, id.0, 3int, 0int,
    {
        if src.0 >= id.0 {
            return Err(CompileError::BadExpr);
        }
        match cast {
            PointerCast::UnSize => self.lower_unsize(vm, ctx, id, src, dst, depth),
            PointerCast::MutToConstPointer => {
                let (d, _, l) = self.dest(vm, ctx, id, dst)?;
                let a = self.lower_expr(vm, ctx, src, None, depth)?;
                self.emit_some(Ghost(vm@), copy(d, a, l.size))?;
                Ok(d)
            },
            PointerCast::ReifyFnPointer => self.lower_reify(vm, ctx, id, src, dst),
            PointerCast::ClosureFnPointer => self.lower_closure_ptr(vm, ctx, id, src, dst),
            _ => Err(CompileError::Unsupported),
        }
    }

    fn lower_reify(
        &mut self,
        vm: &mut VM,
        ctx: &Ctx,
        id: ExprId,
        src: ExprId,
        dst: Option<Slot>,
    ) -> (r: Result<Slot, CompileError>)
        ensures
            dst is Some && r is Ok ==> r->Ok_0 == dst->Some_0,
            done(r, final(self)@, final(vm)@) == old(self).st(old(vm)@).lower_reify(
                ctx.env(),
                id,
                src,
                dst,
            ),
    {
        match self.expr_kind(vm, ctx, src)? {
            (TypeKind::FunctionDef(item, sl), _) => {
                if !vm.types.has_list(sl) {
                    return Err(CompileError::BadType);
                }
                let subs = SubList { list: vm.types.list(sl)? };
                let (d, _, _) = self.dest(vm, ctx, id, dst)?;
                let f = vm.func_mono(ctx.prog, item, &subs)?;
                self.emit_word(Ghost(vm@), (FUNC_BASE + f.0 as u64) as i128, d);
                Ok(d)
            },
            _ => Err(CompileError::BadOperand),
        }
    }

    fn lower_closure_ptr(
        &mut self,
        vm: &mut VM,
        ctx: &Ctx,
        id: ExprId,
        src: ExprId,
        dst: Option<Slot>,
    ) -> (r: Result<Slot, CompileError>)
        ensures
            dst is Some && r is Ok ==> r->Ok_0 == dst->Some_0,
            done(r, final(self)@, final(vm)@) == old(self).st(old(vm)@).lower_closure_ptr(
                ctx.env(),
                id,
                src,
                dst,
            ),
    {
        match self.expr_kind(vm, ctx, src)? {
            (TypeKind::Closure(c, _, sl), _) => {
                if !vm.types.has_list(sl) {
                    return Err(CompileError::BadType);
                }
                let subs = SubList { list: vm.types.list(sl)? };
                let (d, _, _) = self.dest(vm, ctx, id, dst)?;
                let f = vm.closure_mono(ctx.prog, c, &subs)?;
                self.emit_word(Ghost(vm@), (FUNC_BASE + f.0 as u64) as i128, d);
                Ok(d)
            },
            _ => Err(CompileError::BadOperand),
        }
    }

    fn lower_unsize(
        &mut self,
        vm: &mut VM,
        ctx: &Ctx,
        id: ExprId,
        src: ExprId,
        dst: Option<Slot>,
        depth: u32,
    ) -> (r: Result<Slot, CompileError>)
        ensures
            dst is Some && r is Ok ==> r->Ok_0 == dst->Some_0,
            done(r, final(self)@, final(vm)@) == old(self).st(old(vm)@).lower_unsize(
                ctx.env(),
                id,
                src,
                dst,
                depth as nat,
            ),
        decreases depth, 0int, id.0, 2int, 0int,
    {
        if src.0 >= id.0 {
            return Err(CompileError::BadExpr);
        }
        let (kd, l) = self.expr_kind(vm, ctx, id)?;
        match l.assert_size() {
            Ok(s) => if s != 2 * POINTER_SIZE {
                return Err(CompileError::BadOperand);
            },
            Err(_) => {
                return Err(CompileError::BadOperand);
            },
        }
        let (ks, _) = self.expr_kind(vm, ctx, src)?;
        match (crate::lower::target_type(ks), crate::lower::target_type(kd)) {
            (Ok(st), Ok(dt)) => {
                let (a, b) = self.unsize_pair(vm, st, dt)?;
                let meta = self.unsize_meta(vm, ctx, a, b, depth)?;
                let d = self.dst_or_alloc(Ghost(vm@), dst, l)?;
                let a_slot = self.lower_expr(vm, ctx, src, None, depth)?;
                match meta {
                    None => {
                        self.emit(Ghost(vm@), Instr::MovSS(2 * POINTER_SIZE, d, a_slot));
                        Ok(d)
                    },
                    Some(mv) => {
                        let d2 = shift_slot(d, POINTER_SIZE)?;
                        self.emit(Ghost(vm@), Instr::MovSS(POINTER_SIZE, d, a_slot));
                        self.emit_word(Ghost(vm@), mv, d2);
                        Ok(d)
                    },
                }
            },
            (Err(e), _) => Err(e),
            (_, Err(e)) => Err(e),
        }
    }

    fn lower_adt_fields(
        &mut self,
        vm: &mut VM,
        ctx: &Ctx,
        id: ExprId,
        variant: u32,
        fields: &Vec<(u32, ExprId)>,
        l: Layout,
        d: Slot,
        depth: u32,
    ) -> (r: Result<(), CompileError>)
        ensures
            done(r, final(self)@, final(vm)@) == old(self).st(old(vm)@).lower_adt_fields(
                ctx.env(),
                id,
                variant,
                fields@,
                l,
                d,
                0,
                depth as nat,
            ),
        decreases depth, 0int, id.0, 2int, fields.len(),
    {
        let mut i: usize = 0;
        while i < fields.len()
            invariant
                i <= fields.len(),
                self.st(vm@).lower_adt_fields(
                    ctx.env(),
                    id,
                    variant,
                    fields@,
                    l,
                    d,
                    i as int,
                    depth as nat,
                ) == old(self).st(old(vm)@).lower_adt_fields(
                    ctx.env(),
                    id,
                    variant,
                    fields@,
                    l,
                    d,
                    0,
                    depth as nat,
                ),
            decreases fields.len() - i,
        {
            let (n, e) = fields[i];
            if e.0 >= id.0 {
                return Err(CompileError::BadExpr);
            }
            let off = vm.types.field_offset(&l, variant, n)?;
            let slot = shift_slot(d, off)?;
            self.lower_expr(vm, ctx, e, Some(slot), depth)?;
            i += 1;
        }
        Ok(())
    }

    fn copy_rest(
        &mut self,
        vm: &mut VM,
        ctx: &Ctx,
        variant: u32,
        given: &Vec<(u32, ExprId)>,
        field_tys: &Vec<Type>,
        adt_subs: &Vec<Sub>,
        l: Layout,
        d: Slot,
        rest: Slot,
    ) -> (r: Result<(), CompileError>)
        ensures
            done_unit(r, final(self)@, final(vm)@) == old(self).st(old(vm)@).copy_rest(
                ctx.env(),
                variant,
                given@,
                field_tys@,
                adt_subs@,
                l,
                d,
                rest,
                0,
            ),
    {
        let mut n: usize = 0;
        while n < field_tys.len()
            invariant
                n <= field_tys.len(),
                self.st(vm@).copy_rest(
                    ctx.env(),
                    variant,
                    given@,
                    field_tys@,
                    adt_subs@,
                    l,
                    d,
                    rest,
                    n as int,
                ) == old(self).st(old(vm)@).copy_rest(
                    ctx.env(),
                    variant,
                    given@,
                    field_tys@,
                    adt_subs@,
                    l,
                    d,
                    rest,
                    0,
                ),
            decreases field_tys.len() - n,
        {
            if n > u32::MAX as usize {
                return Err(CompileError::TooLarge);
            }
            if !crate::lower::field_is_given(given, n as u32) {
                let ft = vm.types.sub(field_tys[n], adt_subs)?;
                let fl = self.layout_of(vm, ctx, ft)?;
                let sz = fl.assert_size();
                let off = vm.types.field_offset(&l, variant, n as u32);
                match (sz, off) {
                    (Ok(size), Ok(off)) => match (shift_slot(d, off), shift_slot(rest, off)) {
                        (Ok(to), Ok(from)) => {
                            self.emit_opt(Ghost(vm@), copy(to, from, size));
                        },
                        _ => {
                            return Err(CompileError::TooLarge);
                        },
                    },
                    (Err(e), _) => {
                        return Err(e);
                    },
                    (_, Err(e)) => {
                        return Err(e);
                    },
                }
            }
            n += 1;
        }
        Ok(())
    }

    pub(crate) fn lower_adt(
        &mut self,
        vm: &mut VM,
        ctx: &Ctx,
        id: ExprId,
        variant: u32,
        fields: &Vec<(u32, ExprId)>,
        rest: Option<ExprId>,
        dst: Option<Slot>,
        depth: u32,
    ) -> (r: Result<Slot, CompileError>)
        ensures
            dst is Some && r is Ok ==> r->Ok_0 == dst->Some_0,
            done(r, final(self)@, final(vm)@) == old(self).st(old(vm)@).lower_adt(
                ctx.env(),
                id,
                variant,
                fields@,
                rest,
                dst,
                depth as nat,
            ),
        decreases depth, 0int, id.0, 3int, 0int,
    {
        let (d, ty, l) = self.dest(vm, ctx, id, dst)?;
        match (l.get_discriminant_width(), l.discriminant_value(variant)) {
            (Some(w), Some(v)) => {
                self.emit(Ghost(vm@), Instr::Const(w, d, v));
            },
            _ => {},
        }
        self.lower_adt_fields(vm, ctx, id, variant, fields, l, d, depth)?;
        match rest {
            None => Ok(d),
            Some(r) => {
                if r.0 >= id.0 {
                    return Err(CompileError::BadExpr);
                }
                let (rt, _) = self.expr_layout(vm, ctx, r)?;
                if rt != ty {
                    return Err(CompileError::BadExpr);
                }
                let rs = self.lower_expr(vm, ctx, r, None, depth)?;
                match vm.types.kind(ty)? {
                    TypeKind::Adt(item, sl) => {
                        let info = ctx.prog.adt_info(item);
                        let ok = vm.types.has_list(sl);
                        match (info, ok) {
                            (Ok(info), true) => {
                                if variant as usize >= info.variant_fields.len() {
                                    return Err(CompileError::BadExpr);
                                }
                                let subs = vm.types.list(sl)?;
                                self.copy_rest(
                                    vm,
                                    ctx,
                                    variant,
                                    fields,
                                    &info.variant_fields[variant as usize],
                                    &subs,
                                    l,
                                    d,
                                    rs,
                                )?;
                                Ok(d)
                            },
                            (Err(e), _) => Err(e),
                            _ => Err(CompileError::BadType),
                        }
                    },
                    _ => Err(CompileError::BadExpr),
                }
            },
        }
    }

    fn lower_arms(
        &mut self,
        vm: &mut VM,
        ctx: &Ctx,
        id: ExprId,
        arms: &Vec<MatchArm>,
        source: Place,
        result: Slot,
        d: Slot,
        depth: u32,
    ) -> (r: Result<Vec<u32>, CompileError>)
        ensures
            match r {
                Ok(v) => old(self).st(old(vm)@).lower_arms(
                    ctx.env(),
                    id,
                    arms@,
                    source,
                    result,
                    d,
                    0,
                    Seq::empty(),
                    depth as nat,
                ) == Ok::<(St, Seq<u32>), CompileError>((final(self).st(final(vm)@), v@)),
                Err(e) => old(self).st(old(vm)@).lower_arms(
                    ctx.env(),
                    id,
                    arms@,
                    source,
                    result,
                    d,
                    0,
                    Seq::empty(),
                    depth as nat,
                ) == Err::<(St, Seq<u32>), CompileError>(e),
            },
        decreases depth, 0int, id.0, 2int, arms.len(),
    {
        let mut gaps: Vec<u32> = Vec::new();
        let mut i: usize = 0;
        while i < arms.len()
            invariant
                i <= arms.len(),
                self.st(vm@).lower_arms(
                    ctx.env(),
                    id,
                    arms@,
                    source,
                    result,
                    d,
                    i as int,
                    gaps@,
                    depth as nat,
                ) == old(self).st(old(vm)@).lower_arms(
                    ctx.env(),
                    id,
                    arms@,
                    source,
                    result,
                    d,
                    0,
                    Seq::empty(),
                    depth as nat,
                ),
            decreases arms.len() - i,
        {
            let arm = arms[i];
            if arm.body.0 >= id.0 {
                return Err(CompileError::BadExpr);
            }
            self.match_pattern_place(vm, ctx, arm.pattern, source, Some(result), id, depth)?;
            let check = self.skip_instr(Ghost(vm@))?;
            let guard = match arm.guard {
                MatchGuard::Unguarded => None,
                MatchGuard::If(g) => {
                    if g.0 >= id.0 {
                        return Err(CompileError::BadExpr);
                    }
                    self.lower_expr(vm, ctx, g, Some(result), depth)?;
                    Some(self.skip_instr(Ghost(vm@))?)
                },
                MatchGuard::IfLet => {
                    return Err(CompileError::Unsupported);
                },
            };
            self.lower_expr(vm, ctx, arm.body, Some(d), depth)?;
            let gap = self.skip_instr(Ghost(vm@))?;
            self.patch(Ghost(vm@), check, Patch::JumpF(result))?;
            match guard {
                Some(j) => {
                    self.patch(Ghost(vm@), j, Patch::JumpF(result))?;
                },
                None => {},
            }
            gaps.push(gap);
            i += 1;
        }
        Ok(gaps)
    }

    pub(crate) fn lower_match(
        &mut self,
        vm: &mut VM,
        ctx: &Ctx,
        id: ExprId,
        arg: ExprId,
        arms: &Vec<MatchArm>,
        dst: Option<Slot>,
        depth: u32,
    ) -> (r: Result<Slot, CompileError>)
        ensures
            dst is Some && r is Ok ==> r->Ok_0 == dst->Some_0,
            done(r, final(self)@, final(vm)@) == old(self).st(old(vm)@).lower_match(
                ctx.env(),
                id,
                arg,
                arms@,
                dst,
                depth as nat,
            ),
        decreases depth, 0int, id.0, 3int, 0int,
    {
        if arg.0 >= id.0 {
            return Err(CompileError::BadExpr);
        }
        let (d, _, _) = self.dest(vm, ctx, id, dst)?;
        let result = self.alloc_slot(Ghost(vm@), truth())?;
        let source = self.expr_to_place(vm, ctx, arg, depth)?;
        let gaps = self.lower_arms(vm, ctx, id, arms, source, result, d, depth)?;
        self.patch_all(Ghost(vm@), &gaps, Patch::Jump)?;
        Ok(d)
    }

    fn const_place(&mut self, Ghost(vm): Ghost<VmView>, addr: u64) -> (r: Result<
        Place,
        CompileError,
    >)
        ensures
            done(r, final(self)@, vm) == old(self).st(vm).const_place(addr),
    {
        let slot = self.alloc_slot(Ghost(vm), word())?;
        self.emit_word(Ghost(vm), addr as i128, slot);
        Ok(Place::Ptr(slot, 0, PointerKind::Thin))
    }

    fn upvar_place(&mut self, vm: &mut VM, ctx: &Ctx, upvar: UpVar) -> (r: Result<
        Place,
        CompileError,
    >)
        ensures
            done(r, final(self)@, final(vm)@) == old(self).st(old(vm)@).upvar_place(
                ctx.env(),
                upvar,
            ),
    {
        let c = match self.closure {
            Some(c) => c,
            None => {
                return Err(CompileError::Unsupported);
            },
        };
        let l = self.layout_of(vm, ctx, c.self_ty)?;
        let off = vm.types.field_offset(&l, 0, upvar.index)?;
        if off > i32::MAX as u32 {
            return Err(CompileError::TooLarge);
        }
        match c.kind {
            FnTrait::FnOnce => {
                let slot = shift_slot(c.self_slot, off)?;
                if upvar.is_ref {
                    Ok(Place::Ptr(slot, 0, PointerKind::Thin))
                } else {
                    Ok(Place::Local(slot))
                }
            },
            _ => {
                if upvar.is_ref {
                    let r = self.alloc_slot(Ghost(vm@), word())?;
                    self.emit(Ghost(vm@), Instr::MovPS(POINTER_SIZE, r, c.self_slot, off as i32));
                    Ok(Place::Ptr(r, 0, PointerKind::Thin))
                } else {
                    Ok(Place::Ptr(c.self_slot, off as i32, PointerKind::Thin))
                }
            },
        }
    }

    fn index_place(
        &mut self,
        vm: &mut VM,
        ctx: &Ctx,
        id: ExprId,
        lhs: ExprId,
        index: ExprId,
        depth: u32,
    ) -> (r: Result<Place, CompileError>)
        ensures
            done(r, final(self)@, final(vm)@) == old(self).st(old(vm)@).index_place(
                ctx.env(),
                id,
                lhs,
                index,
                depth as nat,
            ),
        decreases depth, 0int, id.0, 3int, 0int,
    {
        if lhs.0 >= id.0 || index.0 >= id.0 {
            return Err(CompileError::BadExpr);
        }
        let (_, il) = self.expr_layout(vm, ctx, index)?;
        match il.assert_size() {
            Ok(s) => if s != POINTER_SIZE {
                return Err(CompileError::BadOperand);
            },
            Err(_) => {
                return Err(CompileError::BadOperand);
            },
        }
        let slot = self.alloc_slot(Ghost(vm@), il)?;
        self.lower_expr(vm, ctx, index, Some(slot), depth)?;
        match self.expr_kind(vm, ctx, lhs)? {
            (TypeKind::Array(elem, ArrayLen::Known(n)), _) => {
                let el = self.layout_of(vm, ctx, elem)?;
                let size = el.assert_size()?;
                self.emit(
                    Ghost(vm@),
                    Instr::IndexCalc { arg_out: slot, elem_size: size, elem_count: n },
                );
                match self.expr_to_place(vm, ctx, lhs, depth)? {
                    Place::Local(b) => {
                        self.emit(
                            Ghost(vm@),
                            Instr::SlotAddrOffset { out: slot, arg: b, offset: slot },
                        );
                        Ok(Place::Ptr(slot, 0, PointerKind::Thin))
                    },
                    Place::Ptr(p, off, _) => {
                        self.emit(Ghost(vm@), Instr::PointerOffset3(slot, p, off));
                        Ok(Place::Ptr(slot, 0, PointerKind::Thin))
                    },
                }
            },
            (TypeKind::Slice(elem), _) => {
                let el = self.layout_of(vm, ctx, elem)?;
                let size = el.assert_size()?;
                match self.expr_to_place(vm, ctx, lhs, depth)? {
                    Place::Ptr(p, off, kind) => {
                        if off != 0 || kind != PointerKind::Fat {
                            return Err(CompileError::BadOperand);
                        }
                        let count = shift_slot(p, POINTER_SIZE)?;
                        self.emit(
                            Ghost(vm@),
                            Instr::IndexCalcDyn { arg_out: slot, elem_size: size, elem_count: count },
                        );
                        self.emit(Ghost(vm@), Instr::PointerOffset3(slot, p, 0));
                        Ok(Place::Ptr(slot, 0, PointerKind::Thin))
                    },
                    _ => Err(CompileError::BadOperand),
                }
            },
            _ => Err(CompileError::BadOperand),
        }
    }

    pub(crate) fn place_of(&mut self, vm: &mut VM, ctx: &Ctx, id: ExprId, depth: u32) -> (r:
        Result<Place, CompileError>)
        ensures
            done(r, final(self)@, final(vm)@) == old(self).st(old(vm)@).place_of(
                ctx.env(),
                id,
                depth as nat,
            ),
        decreases depth, 0int, id.0, 4int, 0int,
    {
        let e = ctx.ir.expr(id)?;
        match &e.kind {
            ExprKind::Dummy(v) => if v.0 < id.0 {
                self.expr_to_place(vm, ctx, *v, depth)
            } else {
                Err(CompileError::BadExpr)
            },
            ExprKind::DeRef(arg) => {
                if arg.0 >= id.0 {
                    return Err(CompileError::BadExpr);
                }
                let (ty, _) = self.expr_layout(vm, ctx, id)?;
                let thin = vm.types.is_sized(ctx.prog, ty, crate::layout::SIZED_DEPTH);
                let addr = self.lower_expr(vm, ctx, *arg, None, depth)?;
                Ok(
                    Place::Ptr(
                        addr,
                        0,
                        if thin {
                            PointerKind::Thin
                        } else {
                            PointerKind::Fat
                        },
                    ),
                )
            },
            ExprKind::VarRef(local) => {
                let slot = self.find_local(Ghost(vm@), *local)?;
                Ok(Place::Local(slot))
            },
            ExprKind::UpVar(upvar) => self.upvar_place(vm, ctx, *upvar),
            ExprKind::Field { lhs, variant, field } => {
                if lhs.0 >= id.0 {
                    return Err(CompileError::BadExpr);
                }
                if *variant != 0 {
                    return Err(CompileError::Unsupported);
                }
                let (_, l) = self.expr_layout(vm, ctx, *lhs)?;
                let off = vm.types.field_offset(&l, *variant, *field)?;
                let p = self.expr_to_place(vm, ctx, *lhs, depth)?;
                move_place(p, off as i128)
            },
            ExprKind::Index { lhs, index } => self.index_place(vm, ctx, id, *lhs, *index, depth),
            ExprKind::ConstBlock(ir) => {
                if depth == 0 {
                    return Err(CompileError::DepthExceeded);
                }
                let addr = self.const_block(vm, ctx, ir, depth - 1)?;
                self.const_place(Ghost(vm@), addr)
            },
            ExprKind::NamedConst(item, sl) => {
                if depth == 0 {
                    return Err(CompileError::DepthExceeded);
                }
                let addr = self.named_const(vm, ctx, *item, *sl, depth - 1)?;
                self.const_place(Ghost(vm@), addr)
            },
            ExprKind::Static(item) => {
                if depth == 0 {
                    return Err(CompileError::DepthExceeded);
                }
                let addr = self.static_value(vm, ctx, *item, depth - 1)?;
                self.const_place(Ghost(vm@), addr)
            },
            _ => Err(CompileError::BadExpr),
        }
    }
}

} // verus!
