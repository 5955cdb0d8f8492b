//! Lowering of patterns.

use vstd::prelude::*;
use crate::abi::POINTER_SIZE;
use crate::compiler::{done, done_unit, move_place, shift_slot, word, BytecodeCompiler, Ctx};
use crate::error::CompileError;
use crate::ids::ItemRef;
use crate::instr::{Instr, IntBinary, Slot, Width};
use crate::ir::{BinaryOp, BindingMode, ExprId, FieldPattern, IRFunction, PatternId, PatternKind};
use crate::lowering::{Patch, St};
use crate::pattern_spec::{elem_items, struct_items, PatItem};
use crate::select::{binary, copy, copy_from_ptr, literal, BinaryCtor};
use crate::stack::{Place, PointerKind};
use crate::types::{ArrayLen, Layout, ListId, Type, TypeContext, TypeKind};
use crate::vm::{VmView, CONST_BASE, VM};

verus! {

pub open spec fn items_view(r: Result<Vec<PatItem>, CompileError>) -> Result<
    Seq<PatItem>,
    CompileError,
> {
    match r {
        Ok(v) => Ok(v@),
        Err(e) => Err(e),
    }
}

/// The outcome of matching a sequence: the flag and the gaps with the state.
pub open spec fn seq_view(
    r: Result<bool, CompileError>,
    gaps: Seq<u32>,
    c: crate::lowering::CompilerView,
    vm: VmView,
) -> crate::lowering::R<(bool, Seq<u32>)> {
    match r {
        Ok(flag) => Ok((St { c, vm }, (flag, gaps))),
        Err(e) => Err(e),
    }
}

fn field_items(
    types: &TypeContext,
    l: &Layout,
    variant: u32,
    fields: &Vec<FieldPattern>,
    source: Place,
) -> (r: Result<Vec<PatItem>, CompileError>)
    ensures
        items_view(r) == struct_items(types@, *l, variant, fields@, source, 0, Seq::empty()),
{
    let mut acc: Vec<PatItem> = Vec::new();
    let mut i: usize = 0;
    while i < fields.len()
        invariant
            i <= fields.len(),
            struct_items(types@, *l, variant, fields@, source, i as int, acc@) == struct_items(
                types@,
                *l,
                variant,
                fields@,
                source,
                0,
                Seq::empty(),
            ),
        decreases fields.len() - i,
    {
        let off = types.field_offset(l, variant, fields[i].field)?;
        let place = move_place(source, off as i128)?;
        acc.push(PatItem { pattern: fields[i].pattern, place });
        i += 1;
    }
    Ok(acc)
}

fn element_items(pats: &Vec<PatternId>, first: i64, size: u32, source: Place, acc: &mut Vec<PatItem>) -> (r:
    Result<(), CompileError>)
    requires
        -0x1_0000_0000 <= first <= 0x1_0000_0000,
        pats.len() <= u32::MAX,
    ensures
        match r {
            Ok(_) => elem_items(pats@, first as int, size, source, 0, old(acc)@) == Ok::<
                Seq<PatItem>,
                CompileError,
            >(final(acc)@),
            Err(e) => elem_items(pats@, first as int, size, source, 0, old(acc)@) == Err::<
                Seq<PatItem>,
                CompileError,
            >(e),
        },
{
    let mut i: usize = 0;
    while i < pats.len()
        invariant
            i <= pats.len(),
            pats.len() <= u32::MAX,
            -0x1_0000_0000 <= first <= 0x1_0000_0000,
            elem_items(pats@, first as int, size, source, i as int, acc@) == elem_items(
                pats@,
                first as int,
                size,
                source,
                0,
                old(acc)@,
            ),
        decreases pats.len() - i,
    {
        let k: i128 = first as i128 + i as i128;
        assert(-0x2_0000_0000 * 0xffff_ffff <= k * size <= 0x2_0000_0000 * 0xffff_ffff)
            by (nonlinear_arith)
            requires
                -0x2_0000_0000 <= k <= 0x2_0000_0000,
                0 <= size <= 0xffff_ffff,
        ;
        let off: i128 = k * size as i128;
        let place = move_place(source, off)?;
        acc.push(PatItem { pattern: pats[i], place });
        i += 1;
    }
    Ok(())
}

impl BytecodeCompiler {
    fn confirm(&mut self, Ghost(vm): Ghost<VmView>, result: Option<Slot>, refutable: bool)
        ensures
            final(self).st(vm) == old(self).st(vm).confirm(result, refutable),
    {
        match result {
            Some(r) => if !refutable {
                self.emit(Ghost(vm), Instr::Const(Width::W8, r, 1));
            },
            None => {},
        }
    }

    /// Matches a pattern against a place, without aliasing. If a result
    /// slot is given, it holds the outcome afterwards.
    pub fn match_pattern_place(
        &mut self,
        vm: &mut VM,
        ctx: &Ctx,
        pat_id: PatternId,
        source: Place,
        match_result_slot: Option<Slot>,
        bound: ExprId,
        depth: u32,
    ) -> (r: Result<(), CompileError>)
        ensures
            done(r, final(self)@, final(vm)@) == old(self).st(old(vm)@).match_pattern_place(
                ctx.env(),
                pat_id,
                source,
                match_result_slot,
                bound,
                depth as nat,
            ),
        decreases depth, 0int, bound.0, 1int, 0int,
    {
        let refutable = self.match_pattern_internal(
            vm,
            ctx,
            pat_id,
            source,
            false,
            match_result_slot,
            bound,
            depth,
        )?;
        self.confirm(Ghost(vm@), match_result_slot, refutable);
        Ok(())
    }

    /// Matches a pattern against the value of an expression, or, without
    /// one, against a new slot of the pattern's type. The expression is
    /// lowered here.
    pub fn match_pattern_expr(
        &mut self,
        vm: &mut VM,
        ctx: &Ctx,
        pat_id: PatternId,
        init_id: Option<ExprId>,
        match_result_slot: Option<Slot>,
        bound: ExprId,
        depth: u32,
    ) -> (r: Result<(), CompileError>)
        ensures
            done(r, final(self)@, final(vm)@) == old(self).st(old(vm)@).match_pattern_expr(
                ctx.env(),
                pat_id,
                init_id,
                match_result_slot,
                bound,
                depth as nat,
            ),
        decreases depth, 0int, bound.0, 1int, 0int,
    {
        let (source, can_alias) = match init_id {
            Some(e) => {
                if e.0 >= bound.0 {
                    return Err(CompileError::BadExpr);
                }
                let is_place = Self::expr_is_place(ctx, e);
                let place = self.expr_to_place(vm, ctx, e, depth);
                match (is_place, place) {
                    (Ok(is_place), Ok(place)) => (place, !is_place),
                    (Err(e), _) => {
                        return Err(e);
                    },
                    (_, Err(e)) => {
                        return Err(e);
                    },
                }
            },
            None => {
                let (_, l) = self.pattern_layout(vm, ctx, pat_id)?;
                let slot = self.alloc_slot(Ghost(vm@), l)?;
                (Place::Local(slot), true)
            },
        };
        let refutable = self.match_pattern_internal(
            vm,
            ctx,
            pat_id,
            source,
            can_alias,
            match_result_slot,
            bound,
            depth,
        )?;
        self.confirm(Ghost(vm@), match_result_slot, refutable);
        Ok(())
    }

    fn match_seq(
        &mut self,
        vm: &mut VM,
        ctx: &Ctx,
        items: &Vec<PatItem>,
        can_alias: bool,
        result: Option<Slot>,
        flag0: bool,
        gaps: &mut Vec<u32>,
        pat: PatternId,
        bound: ExprId,
        depth: u32,
    ) -> (r: Result<bool, CompileError>)
        ensures
            seq_view(r, final(gaps)@, final(self)@, final(vm)@) == old(self).st(
                old(vm)@,
            ).match_seq(
                ctx.env(),
                items@,
                can_alias,
                result,
                0,
                flag0,
                old(gaps)@,
                pat,
                bound,
                depth as nat,
            ),
        decreases depth, 0int, bound.0, 0int, 3 * pat.0, items.len(),
    {
        let mut flag = flag0;
        let mut i: usize = 0;
        while i < items.len()
            invariant
                i <= items.len(),
                self.st(vm@).match_seq(
                    ctx.env(),
                    items@,
                    can_alias,
                    result,
                    i as int,
                    flag,
                    gaps@,
                    pat,
                    bound,
                    depth as nat,
                ) == old(self).st(old(vm)@).match_seq(
                    ctx.env(),
                    items@,
                    can_alias,
                    result,
                    0,
                    flag0,
                    old(gaps)@,
                    pat,
                    bound,
                    depth as nat,
                ),
            decreases items.len() - i,
        {
            let it = items[i];
            if it.pattern.0 >= pat.0 {
                return Err(CompileError::BadPattern);
            }
            let refutable = self.match_pattern_internal(
                vm,
                ctx,
                it.pattern,
                it.place,
                can_alias,
                result,
                bound,
                depth,
            )?;
            if refutable && result.is_some() {
                let j = self.skip_instr(Ghost(vm@))?;
                gaps.push(j);
                flag = true;
            } else {
                flag = flag || refutable;
            }
            i += 1;
        }
        Ok(flag)
    }

    fn match_options(
        &mut self,
        vm: &mut VM,
        ctx: &Ctx,
        options: &Vec<PatternId>,
        source: Place,
        r: Slot,
        gaps: &mut Vec<u32>,
        pat: PatternId,
        bound: ExprId,
        depth: u32,
    ) -> (res: Result<bool, CompileError>)
        ensures
            seq_view(res, final(gaps)@, final(self)@, final(vm)@) == old(self).st(
                old(vm)@,
            ).match_options(
                ctx.env(),
                options@,
                source,
                r,
                0,
                old(gaps)@,
                pat,
                bound,
                depth as nat,
            ),
        decreases depth, 0int, bound.0, 0int, 3 * pat.0, options.len(),
    {
        let mut i: usize = 0;
        while i < options.len()
            invariant
                i <= options.len(),
                self.st(vm@).match_options(
                    ctx.env(),
                    options@,
                    source,
                    r,
                    i as int,
                    gaps@,
                    pat,
                    bound,
                    depth as nat,
                ) == old(self).st(old(vm)@).match_options(
                    ctx.env(),
                    options@,
                    source,
                    r,
                    0,
                    old(gaps)@,
                    pat,
                    bound,
                    depth as nat,
                ),
            decreases options.len() - i,
        {
            if options[i].0 >= pat.0 {
                return Err(CompileError::BadPattern);
            }
            let refutable = self.match_pattern_internal(
                vm,
                ctx,
                options[i],
                source,
                false,
                Some(r),
                bound,
                depth,
            )?;
            if refutable {
                let j = self.skip_instr(Ghost(vm@))?;
                gaps.push(j);
            } else if gaps.len() > 0 {
                self.emit(Ghost(vm@), Instr::Const(Width::W8, r, 1));
                return Ok(true);
            } else {
                return Ok(false);
            }
            i += 1;
        }
        Ok(true)
    }

    fn match_literal(
        &mut self,
        Ghost(vm): Ghost<VmView>,
        n: i128,
        l: Layout,
        ctor: BinaryCtor,
        source: Place,
        result: Option<Slot>,
    ) -> (r: Result<bool, CompileError>)
        ensures
            done(r, final(self)@, vm) == old(self).st(vm).match_literal(n, l, ctor, source, result),
    {
        let r = match result {
            Some(r) => r,
            None => {
                return Err(CompileError::MissingResult);
            },
        };
        let val = self.place_value(Ghost(vm), source, l)?;
        let lit = self.alloc_slot(Ghost(vm), l)?;
        self.emit_ok(Ghost(vm), literal(n, l.size, lit))?;
        self.emit(Ghost(vm), ctor.make(r, val, lit));
        Ok(true)
    }

    fn bind_local(
        &mut self,
        Ghost(vm): Ghost<VmView>,
        local: u32,
        mode: BindingMode,
        has_sub: bool,
        source: Place,
        can_alias: bool,
        l: Layout,
    ) -> (r: Result<(), CompileError>)
        ensures
            done_unit(r, final(self)@, vm) == old(self).st(vm).bind_local(
                local,
                mode,
                has_sub,
                source,
                can_alias,
                l,
            ),
    {
        let size = l.assert_size()?;
        match (mode, source) {
            (BindingMode::Value, Place::Local(src)) => {
                if !can_alias || has_sub {
                    let var = self.find_or_alloc_local(Ghost(vm), local, l)?;
                    self.emit_opt(Ghost(vm), copy(var, src, size));
                    Ok(())
                } else {
                    self.alias_local(Ghost(vm), local, src)
                }
            },
            (BindingMode::Value, Place::Ptr(p, off, kind)) => {
                if kind != PointerKind::Thin {
                    return Err(CompileError::Unsupported);
                }
                let var = self.find_or_alloc_local(Ghost(vm), local, l)?;
                self.emit_opt(Ghost(vm), copy_from_ptr(var, p, size, off));
                Ok(())
            },
            (BindingMode::Ref, Place::Local(src)) => {
                let var = self.find_or_alloc_local(Ghost(vm), local, l)?;
                self.emit(Ghost(vm), Instr::SlotAddr(var, src));
                Ok(())
            },
            (BindingMode::Ref, Place::Ptr(p, off, _)) => {
                if size != POINTER_SIZE {
                    return Err(CompileError::Unsupported);
                }
                let var = self.find_or_alloc_local(Ghost(vm), local, l)?;
                self.emit(Ghost(vm), Instr::PointerOffset2(var, p, off));
                Ok(())
            },
        }
    }

    /// Matches a pattern against a place. With `can_alias`, a local may
    /// be bound to the source slot itself; without, values are copied from
    /// the source.
    ///
    /// Returns whether the pattern is refutable. If it is not, nothing is
    /// written to the result slot, and the match is to be taken as
    /// successful.
    pub fn match_pattern_internal(
        &mut self,
        vm: &mut VM,
        ctx: &Ctx,
        pat_id: PatternId,
        source: Place,
        can_alias: bool,
        match_result_slot: Option<Slot>,
        bound: ExprId,
        depth: u32,
    ) -> (r: Result<bool, CompileError>)
        ensures
            done(r, final(self)@, final(vm)@) == old(self).st(old(vm)@).match_pattern_internal(
                ctx.env(),
                pat_id,
                source,
                can_alias,
                match_result_slot,
                bound,
                depth as nat,
            ),
        decreases depth, 0int, bound.0, 0int, 3 * pat_id.0 + 2, 0int,
    {
        let pat = ctx.ir.pattern(pat_id)?;
        match &pat.kind {
            PatternKind::Hole => Ok(false),
            PatternKind::Error => Err(CompileError::BadPattern),
            PatternKind::LocalBinding { local_id, mode, sub_pattern } => self.match_binding(
                vm,
                ctx,
                pat_id,
                *local_id,
                *mode,
                *sub_pattern,
                source,
                can_alias,
                match_result_slot,
                bound,
                depth,
            ),
            PatternKind::Struct { fields } => self.match_struct(
                vm,
                ctx,
                pat_id,
                fields,
                source,
                can_alias,
                match_result_slot,
                bound,
                depth,
            ),
            PatternKind::Enum { fields, variant_index } => self.match_enum(
                vm,
                ctx,
                pat_id,
                fields,
                *variant_index,
                source,
                can_alias,
                match_result_slot,
                bound,
                depth,
            ),
            PatternKind::Or { options } => self.match_or(
                vm,
                ctx,
                pat_id,
                options,
                source,
                match_result_slot,
                bound,
                depth,
            ),
            PatternKind::DeRef { sub_pattern } => self.match_deref(
                vm,
                ctx,
                pat_id,
                *sub_pattern,
                source,
                match_result_slot,
                bound,
                depth,
            ),
            PatternKind::LiteralValue(n) => self.match_value(
                vm,
                ctx,
                pat_id,
                *n,
                source,
                match_result_slot,
            ),
            PatternKind::NamedConst(item, sl) => self.match_const(
                vm,
                ctx,
                pat_id,
                *item,
                *sl,
                source,
                match_result_slot,
                depth,
            ),
            PatternKind::LiteralBytes(bytes) => self.match_bytes(
                vm,
                ctx,
                pat_id,
                bytes,
                source,
                match_result_slot,
            ),
            PatternKind::Range { start, end, end_is_inclusive } => self.match_range(
                vm,
                ctx,
                pat_id,
                *start,
                *end,
                *end_is_inclusive,
                source,
                match_result_slot,
                bound,
                depth,
            ),
            PatternKind::Slice { start, mid, end } => self.match_slice(
                vm,
                ctx,
                pat_id,
                start,
                *mid,
                end,
                source,
                can_alias,
                match_result_slot,
                bound,
                depth,
            ),
        }
    }

    fn match_binding(
        &mut self,
        vm: &mut VM,
        ctx: &Ctx,
        pat: PatternId,
        local_id: u32,
        mode: BindingMode,
        sub_pattern: Option<PatternId>,
        source: Place,
        can_alias: bool,
        result: Option<Slot>,
        bound: ExprId,
        depth: u32,
    ) -> (r: Result<bool, CompileError>)
        ensures
            done(r, final(self)@, final(vm)@) == old(self).st(old(vm)@).match_binding(
                ctx.env(),
                pat,
                local_id,
                mode,
                sub_pattern,
                source,
                can_alias,
                result,
                bound,
                depth as nat,
            ),
        decreases depth, 0int, bound.0, 0int, 3 * pat.0 + 1, 0int,
    {
        let (_, l) = self.pattern_layout(vm, ctx, pat)?;
        self.bind_local(Ghost(vm@), local_id, mode, sub_pattern.is_some(), source, can_alias, l)?;
        match sub_pattern {
            Some(q) => {
                if q.0 >= pat.0 {
                    return Err(CompileError::BadPattern);
                }
                self.match_pattern_internal(vm, ctx, q, source, false, result, bound, depth)
            },
            None => Ok(false),
        }
    }

    fn match_struct(
        &mut self,
        vm: &mut VM,
        ctx: &Ctx,
        pat: PatternId,
        fields: &Vec<FieldPattern>,
        source: Place,
        can_alias: bool,
        result: Option<Slot>,
        bound: ExprId,
        depth: u32,
    ) -> (r: Result<bool, CompileError>)
        ensures
            done(r, final(self)@, final(vm)@) == old(self).st(old(vm)@).match_struct(
                ctx.env(),
                pat,
                fields@,
                source,
                can_alias,
                result,
                bound,
                depth as nat,
            ),
        decreases depth, 0int, bound.0, 0int, 3 * pat.0 + 1, 0int,
    {
        let (_, l) = self.pattern_layout(vm, ctx, pat)?;
        let items = field_items(&vm.types, &l, 0, fields, source)?;
        let mut gaps: Vec<u32> = Vec::new();
        let flag = self.match_seq(
            vm,
            ctx,
            &items,
            can_alias,
            result,
            false,
            &mut gaps,
            pat,
            bound,
            depth,
        )?;
        self.close_gaps(Ghost(vm@), gaps, result, false)?;
        Ok(flag)
    }

    fn match_or(
        &mut self,
        vm: &mut VM,
        ctx: &Ctx,
        pat: PatternId,
        options: &Vec<PatternId>,
        source: Place,
        result: Option<Slot>,
        bound: ExprId,
        depth: u32,
    ) -> (r: Result<bool, CompileError>)
        ensures
            done(r, final(self)@, final(vm)@) == old(self).st(old(vm)@).match_or(
                ctx.env(),
                pat,
                options@,
                source,
                result,
                bound,
                depth as nat,
            ),
        decreases depth, 0int, bound.0, 0int, 3 * pat.0 + 1, 0int,
    {
        let r = match result {
            Some(r) => r,
            None => {
                return Err(CompileError::MissingResult);
            },
        };
        if options.len() < 2 {
            return Err(CompileError::BadPattern);
        }
        let mut gaps: Vec<u32> = Vec::new();
        let flag = self.match_options(vm, ctx, options, source, r, &mut gaps, pat, bound, depth)?;
        self.close_gaps(Ghost(vm@), gaps, result, true)?;
        Ok(flag)
    }

    fn match_value(
        &mut self,
        vm: &mut VM,
        ctx: &Ctx,
        pat: PatternId,
        n: i128,
        source: Place,
        result: Option<Slot>,
    ) -> (r: Result<bool, CompileError>)
        ensures
            done(r, final(self)@, final(vm)@) == old(self).st(old(vm)@).match_value(
                ctx.env(),
                pat,
                n,
                source,
                result,
            ),
    {
        let (ty, l) = self.pattern_layout(vm, ctx, pat)?;
        let k = vm.types.kind(ty)?;
        let (ctor, _) = binary(BinaryOp::Eq, k)?;
        self.match_literal(Ghost(vm@), n, l, ctor, source, result)
    }

    fn match_enum(
        &mut self,
        vm: &mut VM,
        ctx: &Ctx,
        pat: PatternId,
        fields: &Vec<FieldPattern>,
        variant: u32,
        source: Place,
        can_alias: bool,
        result: Option<Slot>,
        bound: ExprId,
        depth: u32,
    ) -> (r: Result<bool, CompileError>)
        ensures
            done(r, final(self)@, final(vm)@) == old(self).st(old(vm)@).match_enum(
                ctx.env(),
                pat,
                fields@,
                variant,
                source,
                can_alias,
                result,
                bound,
                depth as nat,
            ),
        decreases depth, 0int, bound.0, 0int, 3 * pat.0 + 1, 0int,
    {
        let (_, l) = self.pattern_layout(vm, ctx, pat)?;
        match (l.get_discriminant_width(), l.discriminant_value(variant)) {
            (Some(w), Some(v)) => {
                self.match_literal(
                    Ghost(vm@),
                    v,
                    Layout::new_scalar(w.bytes(), w.bytes()),
                    BinaryCtor::Int(w, IntBinary::Eq),
                    source,
                    result,
                )?;
                let j = self.skip_instr(Ghost(vm@))?;
                let items = field_items(&vm.types, &l, variant, fields, source)?;
                let mut gaps: Vec<u32> = Vec::new();
                gaps.push(j);
                proof {
                    assert(gaps@ =~= seq![j]);
                }
                self.match_seq(
                    vm,
                    ctx,
                    &items,
                    can_alias,
                    result,
                    true,
                    &mut gaps,
                    pat,
                    bound,
                    depth,
                )?;
                self.close_gaps(Ghost(vm@), gaps, result, false)?;
                Ok(true)
            },
            _ => Err(CompileError::NoDiscriminant),
        }
    }

    fn match_deref(
        &mut self,
        vm: &mut VM,
        ctx: &Ctx,
        pat: PatternId,
        sub: PatternId,
        source: Place,
        result: Option<Slot>,
        bound: ExprId,
        depth: u32,
    ) -> (r: Result<bool, CompileError>)
        ensures
            done(r, final(self)@, final(vm)@) == old(self).st(old(vm)@).match_deref(
                ctx.env(),
                pat,
                sub,
                source,
                result,
                bound,
                depth as nat,
            ),
        decreases depth, 0int, bound.0, 0int, 3 * pat.0 + 1, 0int,
    {
        if sub.0 >= pat.0 {
            return Err(CompileError::BadPattern);
        }
        let (_, l) = self.pattern_layout(vm, ctx, pat)?;
        let (sub_ty, _) = self.pattern_layout(vm, ctx, sub)?;
        let k = vm.types.kind(sub_ty);
        let sz = l.assert_size();
        match (k, sz) {
            (Ok(k), Ok(size)) => {
                let kind = if vm.types.is_sized(ctx.prog, sub_ty, crate::layout::SIZED_DEPTH) {
                    PointerKind::Thin
                } else {
                    PointerKind::Fat
                };
                match source {
                    Place::Local(slot) => self.match_pattern_internal(
                        vm,
                        ctx,
                        sub,
                        Place::Ptr(slot, 0, kind),
                        false,
                        result,
                        bound,
                        depth,
                    ),
                    Place::Ptr(p, off, _) => {
                        let slot = self.alloc_slot(Ghost(vm@), l)?;
                        self.emit_opt(Ghost(vm@), copy_from_ptr(slot, p, size, off));
                        self.match_pattern_internal(
                            vm,
                            ctx,
                            sub,
                            Place::Ptr(slot, 0, kind),
                            false,
                            result,
                            bound,
                            depth,
                        )
                    },
                }
            },
            (Err(e), _) => Err(e),
            (_, Err(e)) => Err(e),
        }
    }

    fn match_const(
        &mut self,
        vm: &mut VM,
        ctx: &Ctx,
        pat: PatternId,
        item: ItemRef,
        sl: ListId,
        source: Place,
        result: Option<Slot>,
        depth: u32,
    ) -> (r: Result<bool, CompileError>)
        ensures
            done(r, final(self)@, final(vm)@) == old(self).st(old(vm)@).match_const(
                ctx.env(),
                pat,
                item,
                sl,
                source,
                result,
                depth as nat,
            ),
        decreases depth, 0int, 0int, 0int, 0int, 0int,
    {
        let r = match result {
            Some(r) => r,
            None => {
                return Err(CompileError::MissingResult);
            },
        };
        if depth == 0 {
            return Err(CompileError::DepthExceeded);
        }
        let (ty, l) = self.pattern_layout(vm, ctx, pat)?;
        let k = vm.types.kind(ty);
        let sz = l.assert_size();
        match (k, sz) {
            (Ok(k), Ok(size)) => {
                let (ctor, _) = binary(BinaryOp::Eq, k)?;
                let val = self.place_value(Ghost(vm@), source, l)?;
                let addr = self.named_const(vm, ctx, item, sl, depth - 1)?;
                let ptr = self.alloc_slot(Ghost(vm@), word())?;
                self.emit_word(Ghost(vm@), addr as i128, ptr);
                let tmp = self.alloc_slot(Ghost(vm@), l)?;
                self.emit_some(Ghost(vm@), copy_from_ptr(tmp, ptr, size, 0))?;
                self.emit(Ghost(vm@), ctor.make(r, tmp, val));
                Ok(true)
            },
            (Err(e), _) => Err(e),
            (_, Err(e)) => Err(e),
        }
    }

    fn match_bytes(
        &mut self,
        vm: &mut VM,
        ctx: &Ctx,
        pat: PatternId,
        bytes: &Vec<u8>,
        source: Place,
        result: Option<Slot>,
    ) -> (r: Result<bool, CompileError>)
        ensures
            done(r, final(self)@, final(vm)@) == old(self).st(old(vm)@).match_bytes(
                ctx.env(),
                pat,
                bytes@,
                source,
                result,
            ),
    {
        let r = match result {
            Some(r) => r,
            None => {
                return Err(CompileError::MissingResult);
            },
        };
        let (ty, l) = self.pattern_layout(vm, ctx, pat)?;
        match vm.types.kind(ty)? {
            TypeKind::Ref(t, _) => {
                let is_str = match vm.types.kind(t) {
                    Ok(TypeKind::StringSlice) => true,
                    _ => false,
                };
                let fat = match l.assert_size() {
                    Ok(s) => s == 2 * POINTER_SIZE,
                    Err(_) => false,
                };
                if !is_str || !fat {
                    return Err(CompileError::BadPattern);
                }
                let val = self.place_value(Ghost(vm@), source, l)?;
                let lit = self.alloc_slot(Ghost(vm@), l)?;
                let off = vm.alloc_constant(bytes);
                let lit2 = shift_slot(lit, POINTER_SIZE);
                match (off, lit2) {
                    (Ok(off), Ok(lit2)) => {
                        self.emit_word(Ghost(vm@), (CONST_BASE + off as u64) as i128, lit);
                        self.emit_word(Ghost(vm@), bytes.len() as i128, lit2);
                        self.emit(Ghost(vm@), Instr::MemCompare(r, val, lit));
                        Ok(true)
                    },
                    (Err(e), _) => Err(e),
                    (_, Err(e)) => Err(e),
                }
            },
            _ => Err(CompileError::BadPattern),
        }
    }

    fn match_range(
        &mut self,
        vm: &mut VM,
        ctx: &Ctx,
        pat: PatternId,
        start: Option<ExprId>,
        end: Option<ExprId>,
        inclusive: bool,
        source: Place,
        result: Option<Slot>,
        bound: ExprId,
        depth: u32,
    ) -> (r: Result<bool, CompileError>)
        ensures
            done(r, final(self)@, final(vm)@) == old(self).st(old(vm)@).match_range(
                ctx.env(),
                pat,
                start,
                end,
                inclusive,
                source,
                result,
                bound,
                depth as nat,
            ),
        decreases depth, 0int, bound.0, 0int, 3 * pat.0 + 1, 0int,
    {
        let r = match result {
            Some(r) => r,
            None => {
                return Err(CompileError::MissingResult);
            },
        };
        let (ty, l) = self.pattern_layout(vm, ctx, pat)?;
        let k = vm.types.kind(ty)?;
        let le = binary(BinaryOp::LtEq, k);
        let lt = binary(BinaryOp::Lt, k);
        let val = self.place_value(Ghost(vm@), source, l);
        let (le, lt, val) = match (le, lt, val) {
            (Ok((le, _)), Ok((lt, _)), Ok(val)) => (le, lt, val),
            (Err(e), _, _) => {
                return Err(e);
            },
            (_, Err(e), _) => {
                return Err(e);
            },
            (_, _, Err(e)) => {
                return Err(e);
            },
        };
        match end {
            Some(e) => {
                if e.0 >= bound.0 {
                    return Err(CompileError::BadExpr);
                }
                let ev = self.lower_expr(vm, ctx, e, None, depth)?;
                if inclusive {
                    self.emit(Ghost(vm@), le.make(r, val, ev));
                } else {
                    self.emit(Ghost(vm@), lt.make(r, val, ev));
                }
                match start {
                    None => Ok(true),
                    Some(b) => {
                        if b.0 >= bound.0 {
                            return Err(CompileError::BadExpr);
                        }
                        let j = self.skip_instr(Ghost(vm@))?;
                        let sv = self.lower_expr(vm, ctx, b, None, depth)?;
                        self.emit(Ghost(vm@), le.make(r, sv, val));
                        self.patch(Ghost(vm@), j, Patch::JumpF(r))?;
                        Ok(true)
                    },
                }
            },
            None => match start {
                Some(b) => {
                    if b.0 >= bound.0 {
                        return Err(CompileError::BadExpr);
                    }
                    let sv = self.lower_expr(vm, ctx, b, None, depth)?;
                    self.emit(Ghost(vm@), le.make(r, sv, val));
                    Ok(true)
                },
                None => Err(CompileError::BadPattern),
            },
        }
    }

    fn match_slice(
        &mut self,
        vm: &mut VM,
        ctx: &Ctx,
        pat: PatternId,
        start: &Vec<PatternId>,
        mid: Option<PatternId>,
        end: &Vec<PatternId>,
        source: Place,
        can_alias: bool,
        result: Option<Slot>,
        bound: ExprId,
        depth: u32,
    ) -> (r: Result<bool, CompileError>)
        ensures
            done(r, final(self)@, final(vm)@) == old(self).st(old(vm)@).match_slice(
                ctx.env(),
                pat,
                start@,
                mid,
                end@,
                source,
                can_alias,
                result,
                bound,
                depth as nat,
            ),
        decreases depth, 0int, bound.0, 0int, 3 * pat.0 + 1, 2int,
    {
        let (ty, _) = self.pattern_layout(vm, ctx, pat)?;
        match vm.types.kind(ty)? {
            TypeKind::Array(elem, ArrayLen::Known(n)) => {
                let el = self.layout_of(vm, ctx, elem)?;
                let size = el.assert_size()?;
                self.match_array(
                    vm,
                    ctx,
                    pat,
                    start,
                    mid,
                    end,
                    n,
                    size,
                    source,
                    can_alias,
                    result,
                    bound,
                    depth,
                )
            },
            TypeKind::Slice(elem) => {
                let el = self.layout_of(vm, ctx, elem)?;
                match (el.assert_size(), source) {
                    (Ok(size), Place::Ptr(base, off, kind)) => {
                        if off != 0 || kind != PointerKind::Fat {
                            return Err(CompileError::BadPattern);
                        }
                        self.match_dyn_slice(
                            vm,
                            ctx,
                            pat,
                            start,
                            mid,
                            end,
                            size,
                            base,
                            can_alias,
                            result,
                            bound,
                            depth,
                        )
                    },
                    (Ok(_), _) => Err(CompileError::BadPattern),
                    (Err(e), _) => Err(e),
                }
            },
            _ => Err(CompileError::BadPattern),
        }
    }

    fn match_array(
        &mut self,
        vm: &mut VM,
        ctx: &Ctx,
        pat: PatternId,
        start: &Vec<PatternId>,
        mid: Option<PatternId>,
        end: &Vec<PatternId>,
        n: u32,
        size: u32,
        source: Place,
        can_alias: bool,
        result: Option<Slot>,
        bound: ExprId,
        depth: u32,
    ) -> (r: Result<bool, CompileError>)
        ensures
            done(r, final(self)@, final(vm)@) == old(self).st(old(vm)@).match_array(
                ctx.env(),
                pat,
                start@,
                mid,
                end@,
                n,
                size,
                source,
                can_alias,
                result,
                bound,
                depth as nat,
            ),
        decreases depth, 0int, bound.0, 0int, 3 * pat.0 + 1, 0int,
    {
        if start.len() > u32::MAX as usize {
            return Err(CompileError::TooLarge);
        }
        if end.len() > n as usize {
            return Err(CompileError::BadPattern);
        }
        let mut a: Vec<PatItem> = Vec::new();
        let ra = element_items(start, 0, size, source, &mut a);
        let mut mids: Vec<PatternId> = Vec::new();
        match mid {
            Some(q) => {
                mids.push(q);
                proof {
                    assert(mids@ =~= seq![q]);
                }
            },
            None => {},
        }
        let mut b: Vec<PatItem> = Vec::new();
        let rb = element_items(&mids, start.len() as i64, size, source, &mut b);
        let mut c: Vec<PatItem> = Vec::new();
        let rc = element_items(end, n as i64 - end.len() as i64, size, source, &mut c);
        match (ra, rb, rc) {
            (Ok(_), Ok(_), Ok(_)) => {
                let mut items: Vec<PatItem> = a;
                items.append(&mut b);
                items.append(&mut c);
                let mut gaps: Vec<u32> = Vec::new();
                let flag = self.match_seq(
                    vm,
                    ctx,
                    &items,
                    can_alias,
                    result,
                    false,
                    &mut gaps,
                    pat,
                    bound,
                    depth,
                )?;
                self.close_gaps(Ghost(vm@), gaps, result, false)?;
                Ok(flag)
            },
            (Err(e), _, _) => Err(e),
            (_, Err(e), _) => Err(e),
            (_, _, Err(e)) => Err(e),
        }
    }

    fn bind_middle(
        &mut self,
        vm: &mut VM,
        ctx: &Ctx,
        mid: Option<PatternId>,
        pat: PatternId,
        base: Slot,
        lead: usize,
        taken: u64,
        size: u32,
    ) -> (r: Result<(), CompileError>)
        ensures
            done_unit(r, final(self)@, final(vm)@) == old(self).st(old(vm)@).bind_middle(
                ctx.env(),
                mid,
                pat,
                base,
                lead as int,
                taken as int,
                size,
            ),
    {
        let q = match mid {
            Some(q) => q,
            None => {
                return Ok(());
            },
        };
        if q.0 >= pat.0 {
            return Err(CompileError::BadPattern);
        }
        let p = match ctx.ir.pattern(q) {
            Ok(p) => p,
            Err(_) => {
                return Err(CompileError::BadPattern);
            },
        };
        match &p.kind {
            PatternKind::Hole => Ok(()),
            PatternKind::LocalBinding { local_id, mode, sub_pattern } => {
                if *mode != BindingMode::Ref || taken > i32::MAX as u64 {
                    return Err(CompileError::BadPattern);
                }
                let lead_bytes = match crate::lower::elem_offset(lead, size) {
                    Some(v) => v,
                    None => {
                        return Err(CompileError::BadPattern);
                    },
                };
                let (ty, l) = self.pattern_layout(vm, ctx, q)?;
                match vm.types.kind(ty)? {
                    TypeKind::Ref(t, _) => {
                        match vm.types.kind(t) {
                            Ok(TypeKind::Slice(_)) => {},
                            _ => {
                                return Err(CompileError::BadPattern);
                            },
                        }
                        let var = self.find_or_alloc_local(Ghost(vm@), *local_id, l)?;
                        match (shift_slot(var, POINTER_SIZE), shift_slot(base, POINTER_SIZE)) {
                            (Ok(var2), Ok(len_slot)) => {
                                self.emit(Ghost(vm@), Instr::PointerOffset2(var, base, lead_bytes));
                                self.emit(
                                    Ghost(vm@),
                                    Instr::PointerOffset2(var2, len_slot, -(taken as i32)),
                                );
                                Ok(())
                            },
                            _ => Err(CompileError::TooLarge),
                        }
                    },
                    _ => Err(CompileError::BadPattern),
                }
            },
            _ => Err(CompileError::BadPattern),
        }
    }

    fn slice_length_test(
        &mut self,
        Ghost(vm): Ghost<VmView>,
        taken: u64,
        exact: bool,
        base: Slot,
        result: Option<Slot>,
        gaps: &mut Vec<u32>,
    ) -> (r: Result<(), CompileError>)
        requires
            old(gaps)@.len() == 0,
        ensures
            match r {
                Ok(_) => old(self).st(vm).slice_length_test(taken as int, exact, base, result)
                    == Ok::<(St, Seq<u32>), CompileError>((final(self).st(vm), final(gaps)@)),
                Err(e) => old(self).st(vm).slice_length_test(taken as int, exact, base, result)
                    == Err::<(St, Seq<u32>), CompileError>(e),
            },
    {
        match (result, shift_slot(base, POINTER_SIZE)) {
            (Some(r), Ok(len_slot)) => {
                let check = self.alloc_slot(Ghost(vm), word())?;
                self.emit_word(Ghost(vm), taken as i128, check);
                self.emit(
                    Ghost(vm),
                    Instr::Binary(
                        Width::W64,
                        if exact {
                            IntBinary::Eq
                        } else {
                            IntBinary::ULtEq
                        },
                        r,
                        check,
                        len_slot,
                    ),
                );
                let j = self.skip_instr(Ghost(vm))?;
                gaps.push(j);
                proof {
                    assert(gaps@ =~= seq![j]);
                }
                Ok(())
            },
            (None, _) => Err(CompileError::MissingResult),
            (_, Err(e)) => Err(e),
        }
    }

    fn match_slice_end(
        &mut self,
        vm: &mut VM,
        ctx: &Ctx,
        pat: PatternId,
        end: &Vec<PatternId>,
        size: u32,
        base: Slot,
        can_alias: bool,
        result: Option<Slot>,
        flag: bool,
        gaps: &mut Vec<u32>,
        bound: ExprId,
        depth: u32,
    ) -> (r: Result<bool, CompileError>)
        requires
            end.len() <= u32::MAX,
        ensures
            seq_view(r, final(gaps)@, final(self)@, final(vm)@) == old(self).st(
                old(vm)@,
            ).match_slice_end(
                ctx.env(),
                pat,
                end@,
                size,
                base,
                can_alias,
                result,
                flag,
                old(gaps)@,
                bound,
                depth as nat,
            ),
        decreases depth, 0int, bound.0, 0int, 3 * pat.0 + 1, 0int,
    {
        if end.len() == 0 {
            return Ok(flag);
        }
        let end_slot = self.alloc_slot(Ghost(vm@), word())?;
        let mut c: Vec<PatItem> = Vec::new();
        element_items(
            end,
            -(end.len() as i64),
            size,
            Place::Ptr(end_slot, 0, PointerKind::Thin),
            &mut c,
        )?;
        self.emit(
            Ghost(vm@),
            Instr::IndexCalcEndPointer { out: end_slot, slice: base, elem_size: size },
        );
        self.match_seq(vm, ctx, &c, can_alias, result, flag, gaps, pat, bound, depth)
    }

    fn match_dyn_slice(
        &mut self,
        vm: &mut VM,
        ctx: &Ctx,
        pat: PatternId,
        start: &Vec<PatternId>,
        mid: Option<PatternId>,
        end: &Vec<PatternId>,
        size: u32,
        base: Slot,
        can_alias: bool,
        result: Option<Slot>,
        bound: ExprId,
        depth: u32,
    ) -> (r: Result<bool, CompileError>)
        ensures
            done(r, final(self)@, final(vm)@) == old(self).st(old(vm)@).match_dyn_slice(
                ctx.env(),
                pat,
                start@,
                mid,
                end@,
                size,
                base,
                can_alias,
                result,
                bound,
                depth as nat,
            ),
        decreases depth, 0int, bound.0, 0int, 3 * pat.0 + 1, 1int,
    {
        if start.len() > u32::MAX as usize || end.len() > u32::MAX as usize {
            return Err(CompileError::TooLarge);
        }
        let taken: u64 = start.len() as u64 + end.len() as u64;
        let flag = taken > 0 || mid.is_none();
        let mut gaps: Vec<u32> = Vec::new();
        if flag {
            self.slice_length_test(Ghost(vm@), taken, mid.is_none(), base, result, &mut gaps)?;
        }
        let mut a: Vec<PatItem> = Vec::new();
        element_items(start, 0, size, Place::Ptr(base, 0, PointerKind::Fat), &mut a)?;
        self.match_seq(vm, ctx, &a, can_alias, result, flag, &mut gaps, pat, bound, depth)?;
        self.bind_middle(vm, ctx, mid, pat, base, start.len(), taken, size)?;
        self.match_slice_end(
            vm,
            ctx,
            pat,
            end,
            size,
            base,
            can_alias,
            result,
            flag,
            &mut gaps,
            bound,
            depth,
        )?;
        self.close_gaps(Ghost(vm@), gaps, result, false)?;
        Ok(flag)
    }
}

} // verus!
