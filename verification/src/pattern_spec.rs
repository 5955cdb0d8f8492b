//! The lowering of patterns, as a function of the compiler's state.
//!
//! A pattern is matched against a place. A refutable pattern writes the
//! outcome to the result slot; an irrefutable one writes nothing there.

use vstd::prelude::*;
use crate::abi::POINTER_SIZE;
use crate::error::CompileError;
use crate::ids::ItemRef;
use crate::instr::{Instr, IntBinary, Slot, Width};
use crate::ir::{BinaryOp, BindingMode, ExprId, FieldPattern, PatternId, PatternKind};
use crate::lowering::{shift, shift_place, word_layout, Env, Patch, St, R};
use crate::select::{binary_spec, copy_from_ptr_spec, copy_spec, literal_spec, BinaryCtor};
use crate::stack::{Place, PointerKind};
use crate::types::{ArrayLen, Layout, ListId, Sub, Type, TypeKind, TypesView};
use crate::vm::CONST_BASE;

verus! {

/// A sub-pattern and the place that it is matched against.
#[derive(Debug, Clone, Copy, PartialEq, Eq, Structural)]
pub struct PatItem {
    pub pattern: PatternId,
    pub place: Place,
}

/// The field patterns of a struct or variant with their places, from index `i` on.
pub open spec fn struct_items(
    tv: TypesView,
    l: Layout,
    variant: u32,
    fields: Seq<FieldPattern>,
    source: Place,
    i: int,
    acc: Seq<PatItem>,
) -> Result<Seq<PatItem>, CompileError>
    decreases fields.len() - i,
{
    if i < 0 || i >= fields.len() {
        Ok(acc)
    } else {
        match tv.field_offset(l, variant, fields[i].field) {
            Ok(off) => match shift_place(source, off as int) {
                Ok(place) => struct_items(
                    tv,
                    l,
                    variant,
                    fields,
                    source,
                    i + 1,
                    acc.push(PatItem { pattern: fields[i].pattern, place }),
                ),
                Err(e) => Err(e),
            },
            Err(e) => Err(e),
        }
    }
}

/// The element patterns of an array or slice with their places, from index
/// `i` on: pattern `i` is matched `(first + i) * size` bytes into the source.
pub open spec fn elem_items(
    pats: Seq<PatternId>,
    first: int,
    size: u32,
    source: Place,
    i: int,
    acc: Seq<PatItem>,
) -> Result<Seq<PatItem>, CompileError>
    decreases pats.len() - i,
{
    if i < 0 || i >= pats.len() {
        Ok(acc)
    } else {
        match shift_place(source, (first + i) * size) {
            Ok(place) => elem_items(
                pats,
                first,
                size,
                source,
                i + 1,
                acc.push(PatItem { pattern: pats[i], place }),
            ),
            Err(e) => Err(e),
        }
    }
}

impl St {
    /// Where a pattern turned out irrefutable, the result is set to true.
    pub open spec fn confirm(self, result: Option<Slot>, refutable: bool) -> St {
        match result {
            Some(r) => if refutable {
                self
            } else {
                self.emit(Instr::Const(Width::W8, r, 1))
            },
            None => self,
        }
    }

    /// Matching a pattern against a place, without aliasing. The result
    /// slot holds the outcome afterwards.
    pub open spec fn match_pattern_place(
        self,
        env: Env,
        pat: PatternId,
        source: Place,
        result: Option<Slot>,
        bound: ExprId,
        depth: nat,
    ) -> R<()>
        decreases depth, 0int, bound.0, 1int, 0int,
    {
        match self.match_pattern_internal(env, pat, source, false, result, bound, depth) {
            Ok((s, refutable)) => Ok((s.confirm(result, refutable), ())),
            Err(e) => Err(e),
        }
    }

    /// Matching a pattern against the value of an expression, or, without
    /// one, against a new slot of the pattern's type.
    pub open spec fn match_pattern_expr(
        self,
        env: Env,
        pat: PatternId,
        init: Option<ExprId>,
        result: Option<Slot>,
        bound: ExprId,
        depth: nat,
    ) -> R<()>
        decreases depth, 0int, bound.0, 1int, 0int,
    {
        match (match init {
            Some(e) => if e.0 >= bound.0 {
                Err(CompileError::BadExpr)
            } else {
                match (env.is_place(e), self.expr_to_place(env, e, depth)) {
                    (Ok(is_place), Ok((s, place))) => Ok((s, (place, !is_place))),
                    (Err(e), _) => Err(e),
                    (_, Err(e)) => Err(e),
                }
            },
            None => match self.pattern_layout(env, pat) {
                Ok((s, (_, l))) => match s.alloc_slot(l) {
                    Ok((s1, slot)) => Ok((s1, (Place::Local(slot), true))),
                    Err(e) => Err(e),
                },
                Err(e) => Err(e),
            },
        }) {
            Ok((s, (source, can_alias))) => match s.match_pattern_internal(
                env,
                pat,
                source,
                can_alias,
                result,
                bound,
                depth,
            ) {
                Ok((s1, refutable)) => Ok((s1.confirm(result, refutable), ())),
                Err(e) => Err(e),
            },
            Err(e) => Err(e),
        }
    }

    /// Taking out a trailing gap and filling the others.
    pub open spec fn close_gaps(self, gaps: Seq<u32>, result: Option<Slot>, on_true: bool) -> Result<
        St,
        CompileError,
    > {
        let (s, g) = self.trim_gap(gaps);
        match result {
            Some(r) => s.patch_all(
                g,
                if on_true {
                    Patch::JumpT(r)
                } else {
                    Patch::JumpF(r)
                },
                0,
            ),
            None => Ok(s),
        }
    }

    /// Matching sub-patterns in sequence, from index `i` on: after each
    /// refutable one a gap is left for the jump that ends the match when it
    /// fails. Yields whether any was refutable, and the gaps.
    pub open spec fn match_seq(
        self,
        env: Env,
        items: Seq<PatItem>,
        can_alias: bool,
        result: Option<Slot>,
        i: int,
        flag: bool,
        gaps: Seq<u32>,
        pat: PatternId,
        bound: ExprId,
        depth: nat,
    ) -> R<(bool, Seq<u32>)>
        decreases depth, 0int, bound.0, 0int, 3 * pat.0, items.len() - i,
    {
        if i < 0 || i >= items.len() {
            Ok((self, (flag, gaps)))
        } else if items[i].pattern.0 >= pat.0 {
            Err(CompileError::BadPattern)
        } else {
            match self.match_pattern_internal(
                env,
                items[i].pattern,
                items[i].place,
                can_alias,
                result,
                bound,
                depth,
            ) {
                Ok((s, refutable)) => if refutable && result is Some {
                    match s.skip() {
                        Ok((s1, j)) => s1.match_seq(
                            env,
                            items,
                            can_alias,
                            result,
                            i + 1,
                            true,
                            gaps.push(j),
                            pat,
                            bound,
                            depth,
                        ),
                        Err(e) => Err(e),
                    }
                } else {
                    s.match_seq(
                        env,
                        items,
                        can_alias,
                        result,
                        i + 1,
                        flag || refutable,
                        gaps,
                        pat,
                        bound,
                        depth,
                    )
                },
                Err(e) => Err(e),
            }
        }
    }

    /// Trying the options of an or-pattern in order, from index `i` on:
    /// after each refutable one a gap is left for the jump that ends the
    /// match when it succeeds. An irrefutable option ends the sequence; the
    /// result is set to true there if an option before it could fail.
    pub open spec fn match_options(
        self,
        env: Env,
        options: Seq<PatternId>,
        source: Place,
        r: Slot,
        i: int,
        gaps: Seq<u32>,
        pat: PatternId,
        bound: ExprId,
        depth: nat,
    ) -> R<(bool, Seq<u32>)>
        decreases depth, 0int, bound.0, 0int, 3 * pat.0, options.len() - i,
    {
        if i < 0 || i >= options.len() {
            Ok((self, (true, gaps)))
        } else if options[i].0 >= pat.0 {
            Err(CompileError::BadPattern)
        } else {
            match self.match_pattern_internal(env, options[i], source, false, Some(r), bound, depth) {
                Ok((s, refutable)) => if refutable {
                    match s.skip() {
                        Ok((s1, j)) => s1.match_options(
                            env,
                            options,
                            source,
                            r,
                            i + 1,
                            gaps.push(j),
                            pat,
                            bound,
                            depth,
                        ),
                        Err(e) => Err(e),
                    }
                } else if gaps.len() > 0 {
                    Ok((s.emit(Instr::Const(Width::W8, r, 1)), (true, gaps)))
                } else {
                    Ok((s, (false, gaps)))
                },
                Err(e) => Err(e),
            }
        }
    }

    /// Comparing the value at a place with a literal: the outcome goes to
    /// the result slot.
    pub open spec fn match_literal(
        self,
        n: i128,
        l: Layout,
        ctor: BinaryCtor,
        source: Place,
        result: Option<Slot>,
    ) -> R<bool> {
        match result {
            None => Err(CompileError::MissingResult),
            Some(r) => match self.place_value(source, l) {
                Ok((s, val)) => match s.alloc_slot(l) {
                    Ok((s1, lit)) => match s1.emit_ok(literal_spec(n, l.size, lit)) {
                        Ok(s2) => Ok((s2.emit(ctor.make_spec(r, val, lit)), true)),
                        Err(e) => Err(e),
                    },
                    Err(e) => Err(e),
                },
                Err(e) => Err(e),
            },
        }
    }

    /// Binding a local: by value it aliases the source slot where that is
    /// allowed, else it gets a copy; by reference it gets the address.
    pub open spec fn bind_local(
        self,
        local: u32,
        mode: BindingMode,
        has_sub: bool,
        source: Place,
        can_alias: bool,
        l: Layout,
    ) -> Result<St, CompileError> {
        match l.size_spec() {
            Err(e) => Err(e),
            Ok(size) => match (mode, source) {
                (BindingMode::Value, Place::Local(src)) => if !can_alias || has_sub {
                    match self.find_or_alloc_local(local, l) {
                        Ok((s, var)) => Ok(s.emit_opt(copy_spec(var, src, size))),
                        Err(e) => Err(e),
                    }
                } else {
                    self.alias_local(local, src)
                },
                (BindingMode::Value, Place::Ptr(p, off, kind)) => if kind != PointerKind::Thin {
                    Err(CompileError::Unsupported)
                } else {
                    match self.find_or_alloc_local(local, l) {
                        Ok((s, var)) => Ok(s.emit_opt(copy_from_ptr_spec(var, p, size, off))),
                        Err(e) => Err(e),
                    }
                },
                (BindingMode::Ref, Place::Local(src)) => match self.find_or_alloc_local(local, l) {
                    Ok((s, var)) => Ok(s.emit(Instr::SlotAddr(var, src))),
                    Err(e) => Err(e),
                },
                (BindingMode::Ref, Place::Ptr(p, off, _)) => if size != POINTER_SIZE {
                    Err(CompileError::Unsupported)
                } else {
                    match self.find_or_alloc_local(local, l) {
                        Ok((s, var)) => Ok(s.emit(Instr::PointerOffset2(var, p, off))),
                        Err(e) => Err(e),
                    }
                },
            },
        }
    }

    /// Matching a pattern against a place. Yields whether the pattern is
    /// refutable. If it is not, nothing is written to the result slot, and
    /// the match is to be taken as successful.
    pub open spec fn match_pattern_internal(
        self,
        env: Env,
        pat: PatternId,
        source: Place,
        can_alias: bool,
        result: Option<Slot>,
        bound: ExprId,
        depth: nat,
    ) -> R<bool>
        decreases depth, 0int, bound.0, 0int, 3 * pat.0 + 2, 0int,
    {
        if !env.has_pattern(pat) {
            Err(CompileError::BadPattern)
        } else {
            match env.pattern(pat).kind {
                PatternKind::Hole => Ok((self, false)),
                PatternKind::Error => Err(CompileError::BadPattern),
                PatternKind::LocalBinding { local_id, mode, sub_pattern } => self.match_binding(
                    env,
                    pat,
                    local_id,
                    mode,
                    sub_pattern,
                    source,
                    can_alias,
                    result,
                    bound,
                    depth,
                ),
                PatternKind::Struct { fields } => self.match_struct(
                    env,
                    pat,
                    fields@,
                    source,
                    can_alias,
                    result,
                    bound,
                    depth,
                ),
                PatternKind::Enum { fields, variant_index } => self.match_enum(
                    env,
                    pat,
                    fields@,
                    variant_index,
                    source,
                    can_alias,
                    result,
                    bound,
                    depth,
                ),
                PatternKind::Or { options } => self.match_or(
                    env,
                    pat,
                    options@,
                    source,
                    result,
                    bound,
                    depth,
                ),
                PatternKind::DeRef { sub_pattern } => self.match_deref(
                    env,
                    pat,
                    sub_pattern,
                    source,
                    result,
                    bound,
                    depth,
                ),
                PatternKind::LiteralValue(n) => self.match_value(env, pat, n, source, result),
                PatternKind::NamedConst(item, sl) => self.match_const(
                    env,
                    pat,
                    item,
                    sl,
                    source,
                    result,
                    depth,
                ),
                PatternKind::LiteralBytes(bytes) => self.match_bytes(
                    env,
                    pat,
                    bytes@,
                    source,
                    result,
                ),
                PatternKind::Range { start, end, end_is_inclusive } => self.match_range(
                    env,
                    pat,
                    start,
                    end,
                    end_is_inclusive,
                    source,
                    result,
                    bound,
                    depth,
                ),
                PatternKind::Slice { start, mid, end } => self.match_slice(
                    env,
                    pat,
                    start@,
                    mid,
                    end@,
                    source,
                    can_alias,
                    result,
                    bound,
                    depth,
                ),
            }
        }
    }

    /// A binding: the local is bound, then the sub-pattern matched against
    /// the same place, without aliasing.
    pub open spec fn match_binding(
        self,
        env: Env,
        pat: PatternId,
        local_id: u32,
        mode: BindingMode,
        sub_pattern: Option<PatternId>,
        source: Place,
        can_alias: bool,
        result: Option<Slot>,
        bound: ExprId,
        depth: nat,
    ) -> R<bool>
        decreases depth, 0int, bound.0, 0int, 3 * pat.0 + 1, 0int,
    {
        match self.pattern_layout(env, pat) {
            Ok((s, (_, l))) => match s.bind_local(
                local_id,
                mode,
                sub_pattern is Some,
                source,
                can_alias,
                l,
            ) {
                Ok(s1) => match sub_pattern {
                    Some(q) => if q.0 >= pat.0 {
                        Err(CompileError::BadPattern)
                    } else {
                        s1.match_pattern_internal(env, q, source, false, result, bound, depth)
                    },
                    None => Ok((s1, false)),
                },
                Err(e) => Err(e),
            },
            Err(e) => Err(e),
        }
    }

    /// A struct pattern: each field pattern is matched at the field's offset.
    pub open spec fn match_struct(
        self,
        env: Env,
        pat: PatternId,
        fields: Seq<FieldPattern>,
        source: Place,
        can_alias: bool,
        result: Option<Slot>,
        bound: ExprId,
        depth: nat,
    ) -> R<bool>
        decreases depth, 0int, bound.0, 0int, 3 * pat.0 + 1, 0int,
    {
        match self.pattern_layout(env, pat) {
            Ok((s, (_, l))) => match struct_items(s.vm.types, l, 0, fields, source, 0, Seq::empty()) {
                Ok(items) => match s.match_seq(
                    env,
                    items,
                    can_alias,
                    result,
                    0,
                    false,
                    Seq::empty(),
                    pat,
                    bound,
                    depth,
                ) {
                    Ok((s1, (flag, gaps))) => match s1.close_gaps(gaps, result, false) {
                        Ok(s2) => Ok((s2, flag)),
                        Err(e) => Err(e),
                    },
                    Err(e) => Err(e),
                },
                Err(e) => Err(e),
            },
            Err(e) => Err(e),
        }
    }

    /// An or-pattern: the options are tried in order.
    pub open spec fn match_or(
        self,
        env: Env,
        pat: PatternId,
        options: Seq<PatternId>,
        source: Place,
        result: Option<Slot>,
        bound: ExprId,
        depth: nat,
    ) -> R<bool>
        decreases depth, 0int, bound.0, 0int, 3 * pat.0 + 1, 0int,
    {
        match result {
            None => Err(CompileError::MissingResult),
            Some(r) => if options.len() < 2 {
                Err(CompileError::BadPattern)
            } else {
                match self.match_options(env, options, source, r, 0, Seq::empty(), pat, bound, depth) {
                    Ok((s, (flag, gaps))) => match s.close_gaps(gaps, result, true) {
                        Ok(s1) => Ok((s1, flag)),
                        Err(e) => Err(e),
                    },
                    Err(e) => Err(e),
                }
            },
        }
    }

    /// A literal: the value is compared with it.
    pub open spec fn match_value(
        self,
        env: Env,
        pat: PatternId,
        n: i128,
        source: Place,
        result: Option<Slot>,
    ) -> R<bool> {
        match self.pattern_layout(env, pat) {
            Ok((s, (ty, l))) => match s.kind(ty) {
                Ok(k) => match binary_spec(BinaryOp::Eq, k) {
                    Ok((ctor, _)) => s.match_literal(n, l, ctor, source, result),
                    Err(e) => Err(e),
                },
                Err(e) => Err(e),
            },
            Err(e) => Err(e),
        }
    }

    /// An enum pattern: the discriminant is compared with the variant's
    /// value, then the fields are matched.
    pub open spec fn match_enum(
        self,
        env: Env,
        pat: PatternId,
        fields: Seq<FieldPattern>,
        variant: u32,
        source: Place,
        can_alias: bool,
        result: Option<Slot>,
        bound: ExprId,
        depth: nat,
    ) -> R<bool>
        decreases depth, 0int, bound.0, 0int, 3 * pat.0 + 1, 0int,
    {
        match self.pattern_layout(env, pat) {
            Ok((s, (_, l))) => match (l.discriminant_width(), l.discriminant_spec(variant)) {
                (Some(w), Some(v)) => match s.match_literal(
                    v,
                    Layout::scalar(w.bytes_spec(), w.bytes_spec()),
                    BinaryCtor::Int(w, IntBinary::Eq),
                    source,
                    result,
                ) {
                    Ok((s1, _)) => match s1.skip() {
                        Ok((s2, j)) => match struct_items(
                            s2.vm.types,
                            l,
                            variant,
                            fields,
                            source,
                            0,
                            Seq::empty(),
                        ) {
                            Ok(items) => match s2.match_seq(
                                env,
                                items,
                                can_alias,
                                result,
                                0,
                                true,
                                seq![j],
                                pat,
                                bound,
                                depth,
                            ) {
                                Ok((s3, (_, gaps))) => match s3.close_gaps(gaps, result, false) {
                                    Ok(s4) => Ok((s4, true)),
                                    Err(e) => Err(e),
                                },
                                Err(e) => Err(e),
                            },
                            Err(e) => Err(e),
                        },
                        Err(e) => Err(e),
                    },
                    Err(e) => Err(e),
                },
                _ => Err(CompileError::NoDiscriminant),
            },
            Err(e) => Err(e),
        }
    }

    /// A dereference pattern: the source is taken as a pointer.
    pub open spec fn match_deref(
        self,
        env: Env,
        pat: PatternId,
        sub: PatternId,
        source: Place,
        result: Option<Slot>,
        bound: ExprId,
        depth: nat,
    ) -> R<bool>
        decreases depth, 0int, bound.0, 0int, 3 * pat.0 + 1, 0int,
    {
        if sub.0 >= pat.0 {
            Err(CompileError::BadPattern)
        } else {
            match self.pattern_layout(env, pat) {
                Ok((s, (_, l))) => match s.pattern_layout(env, sub) {
                    Ok((s1, (sub_ty, _))) => match (s1.kind(sub_ty), l.size_spec()) {
                        (Ok(k), Ok(size)) => {
                            let kind = if s1.vm.types.sized(
                                env.prog,
                                sub_ty,
                                crate::layout::SIZED_DEPTH as nat,
                            ) {
                                PointerKind::Thin
                            } else {
                                PointerKind::Fat
                            };
                            match source {
                                Place::Local(slot) => s1.match_pattern_internal(
                                    env,
                                    sub,
                                    Place::Ptr(slot, 0, kind),
                                    false,
                                    result,
                                    bound,
                                    depth,
                                ),
                                Place::Ptr(p, off, _) => match s1.alloc_slot(l) {
                                    Ok((s2, slot)) => s2.emit_opt(
                                        copy_from_ptr_spec(slot, p, size, off),
                                    ).match_pattern_internal(
                                        env,
                                        sub,
                                        Place::Ptr(slot, 0, kind),
                                        false,
                                        result,
                                        bound,
                                        depth,
                                    ),
                                    Err(e) => Err(e),
                                },
                            }
                        },
                        (Err(e), _) => Err(e),
                        (_, Err(e)) => Err(e),
                    },
                    Err(e) => Err(e),
                },
                Err(e) => Err(e),
            }
        }
    }

    /// A named constant as a pattern: the constant is loaded through its
    /// address and compared with the value.
    pub open spec fn match_const(
        self,
        env: Env,
        pat: PatternId,
        item: ItemRef,
        sl: ListId,
        source: Place,
        result: Option<Slot>,
        depth: nat,
    ) -> R<bool>
        decreases depth, 0int, 0int, 0int, 0int, 0int,
    {
        match result {
            None => Err(CompileError::MissingResult),
            Some(r) => if depth == 0 {
                Err(CompileError::DepthExceeded)
            } else {
                match self.pattern_layout(env, pat) {
                    Ok((s, (ty, l))) => match (s.kind(ty), l.size_spec()) {
                        (Ok(k), Ok(size)) => match binary_spec(BinaryOp::Eq, k) {
                            Ok((ctor, _)) => match s.place_value(source, l) {
                                Ok((s1, val)) => match s1.named_const(
                                    env,
                                    item,
                                    sl,
                                    (depth - 1) as nat,
                                ) {
                                    Ok((s2, addr)) => match s2.alloc_slot(word_layout()) {
                                        Ok((s3, ptr)) => match s3.emit_word(
                                            addr as i128,
                                            ptr,
                                        ).alloc_slot(l) {
                                            Ok((s4, tmp)) => match s4.emit_some(
                                                copy_from_ptr_spec(tmp, ptr, size, 0),
                                            ) {
                                                Ok(s5) => Ok(
                                                    (s5.emit(ctor.make_spec(r, tmp, val)), true),
                                                ),
                                                Err(e) => Err(e),
                                            },
                                            Err(e) => Err(e),
                                        },
                                        Err(e) => Err(e),
                                    },
                                    Err(e) => Err(e),
                                },
                                Err(e) => Err(e),
                            },
                            Err(e) => Err(e),
                        },
                        (Err(e), _) => Err(e),
                        (_, Err(e)) => Err(e),
                    },
                    Err(e) => Err(e),
                }
            },
        }
    }

    /// A bytes literal as a pattern, for string slices: the byte runs of
    /// the value and of the literal are compared.
    pub open spec fn match_bytes(
        self,
        env: Env,
        pat: PatternId,
        bytes: Seq<u8>,
        source: Place,
        result: Option<Slot>,
    ) -> R<bool> {
        match result {
            None => Err(CompileError::MissingResult),
            Some(r) => match self.pattern_layout(env, pat) {
                Ok((s, (ty, l))) => match s.kind(ty) {
                    Ok(TypeKind::Ref(t, _)) => if !(s.kind(t) matches Ok(TypeKind::StringSlice))
                        || l.size_spec() != Ok::<u32, CompileError>((2 * POINTER_SIZE) as u32) {
                        Err(CompileError::BadPattern)
                    } else {
                        match s.place_value(source, l) {
                            Ok((s1, val)) => match s1.alloc_slot(l) {
                                Ok((s2, lit)) => match (
                                    s2.vm.alloc_constant(bytes),
                                    shift(lit, POINTER_SIZE as int),
                                ) {
                                    ((vm, Ok(off)), Ok(lit2)) => Ok(
                                        (
                                            St { vm, ..s2 }.emit_word(
                                                (CONST_BASE + off) as i128,
                                                lit,
                                            ).emit_word(bytes.len() as i128, lit2).emit(
                                                Instr::MemCompare(r, val, lit),
                                            ),
                                            true,
                                        ),
                                    ),
                                    ((_, Err(e)), _) => Err(e),
                                    (_, Err(e)) => Err(e),
                                },
                                Err(e) => Err(e),
                            },
                            Err(e) => Err(e),
                        }
                    },
                    Ok(_) => Err(CompileError::BadPattern),
                    Err(e) => Err(e),
                },
                Err(e) => Err(e),
            },
        }
    }

    /// The test of a range pattern: the value is compared with the end,
    /// then, if both bounds are given and the first test passed, with the
    /// start. The outcome is left in `r`.
    pub open spec fn range_test(
        self,
        env: Env,
        pat: PatternId,
        start: Option<ExprId>,
        end: Option<ExprId>,
        inclusive: bool,
        source: Place,
        r: Slot,
        bound: ExprId,
        depth: nat,
    ) -> Result<St, CompileError>
        decreases depth, 0int, bound.0, 0int, 3 * pat.0, 0int,
    {
        match self.pattern_layout(env, pat) {
            Ok((s, (ty, l))) => match s.kind(ty) {
                Ok(k) => match (
                    binary_spec(BinaryOp::LtEq, k),
                    binary_spec(BinaryOp::Lt, k),
                    s.place_value(source, l),
                ) {
                    (Ok((le, _)), Ok((lt, _)), Ok((s1, val))) => match end {
                        Some(e) => if e.0 >= bound.0 {
                            Err(CompileError::BadExpr)
                        } else {
                            match s1.lower_expr(env, e, None, depth) {
                                Ok((s2, ev)) => {
                                    let s3 = s2.emit(
                                        (if inclusive {
                                            le
                                        } else {
                                            lt
                                        }).make_spec(r, val, ev),
                                    );
                                    match start {
                                        None => Ok(s3),
                                        Some(b) => if b.0 >= bound.0 {
                                            Err(CompileError::BadExpr)
                                        } else {
                                            match s3.skip() {
                                                Ok((s4, j)) => match s4.lower_expr(
                                                    env,
                                                    b,
                                                    None,
                                                    depth,
                                                ) {
                                                    Ok((s5, sv)) => match s5.emit(
                                                        le.make_spec(r, sv, val),
                                                    ).patch(j, Patch::JumpF(r)) {
                                                        Ok(s6) => Ok(s6),
                                                        Err(e) => Err(e),
                                                    },
                                                    Err(e) => Err(e),
                                                },
                                                Err(e) => Err(e),
                                            }
                                        },
                                    }
                                },
                                Err(e) => Err(e),
                            }
                        },
                        None => match start {
                            Some(b) => if b.0 >= bound.0 {
                                Err(CompileError::BadExpr)
                            } else {
                                match s1.lower_expr(env, b, None, depth) {
                                    Ok((s2, sv)) => Ok(s2.emit(le.make_spec(r, sv, val))),
                                    Err(e) => Err(e),
                                }
                            },
                            None => Err(CompileError::BadPattern),
                        },
                    },
                    (Err(e), _, _) => Err(e),
                    (_, Err(e), _) => Err(e),
                    (_, _, Err(e)) => Err(e),
                },
                Err(e) => Err(e),
            },
            Err(e) => Err(e),
        }
    }

    /// A range pattern: a test, so it is refutable and needs a result slot.
    pub open spec fn match_range(
        self,
        env: Env,
        pat: PatternId,
        start: Option<ExprId>,
        end: Option<ExprId>,
        inclusive: bool,
        source: Place,
        result: Option<Slot>,
        bound: ExprId,
        depth: nat,
    ) -> R<bool>
        decreases depth, 0int, bound.0, 0int, 3 * pat.0 + 1, 0int,
    {
        match result {
            None => Err(CompileError::MissingResult),
            Some(r) => match self.range_test(
                env,
                pat,
                start,
                end,
                inclusive,
                source,
                r,
                bound,
                depth,
            ) {
                Ok(s) => Ok((s, true)),
                Err(e) => Err(e),
            },
        }
    }

    /// A slice pattern, on an array or on a slice.
    pub open spec fn match_slice(
        self,
        env: Env,
        pat: PatternId,
        start: Seq<PatternId>,
        mid: Option<PatternId>,
        end: Seq<PatternId>,
        source: Place,
        can_alias: bool,
        result: Option<Slot>,
        bound: ExprId,
        depth: nat,
    ) -> R<bool>
        decreases depth, 0int, bound.0, 0int, 3 * pat.0 + 1, 2int,
    {
        match self.pattern_layout(env, pat) {
            Ok((s, (ty, _))) => match s.kind(ty) {
                Ok(TypeKind::Array(elem, ArrayLen::Known(n))) => match s.layout_of(env, elem) {
                    Ok((s1, el)) => match el.size_spec() {
                        Ok(size) => s1.match_array(
                            env,
                            pat,
                            start,
                            mid,
                            end,
                            n,
                            size,
                            source,
                            can_alias,
                            result,
                            bound,
                            depth,
                        ),
                        Err(e) => Err(e),
                    },
                    Err(e) => Err(e),
                },
                Ok(TypeKind::Slice(elem)) => match s.layout_of(env, elem) {
                    Ok((s1, el)) => match (el.size_spec(), source) {
                        (Ok(size), Place::Ptr(base, off, kind)) => if off != 0 || kind
                            != PointerKind::Fat {
                            Err(CompileError::BadPattern)
                        } else {
                            s1.match_dyn_slice(
                                env,
                                pat,
                                start,
                                mid,
                                end,
                                size,
                                base,
                                can_alias,
                                result,
                                bound,
                                depth,
                            )
                        },
                        (Ok(_), _) => Err(CompileError::BadPattern),
                        (Err(e), _) => Err(e),
                    },
                    Err(e) => Err(e),
                },
                Ok(_) => Err(CompileError::BadPattern),
                Err(e) => Err(e),
            },
            Err(e) => Err(e),
        }
    }

    /// A slice pattern on an array: the leading patterns are matched from
    /// the front, the trailing ones so that the last meets the last
    /// element, the middle one at the element after the leading ones.
    pub open spec fn match_array(
        self,
        env: Env,
        pat: PatternId,
        start: Seq<PatternId>,
        mid: Option<PatternId>,
        end: Seq<PatternId>,
        n: u32,
        size: u32,
        source: Place,
        can_alias: bool,
        result: Option<Slot>,
        bound: ExprId,
        depth: nat,
    ) -> R<bool>
        decreases depth, 0int, bound.0, 0int, 3 * pat.0 + 1, 0int,
    {
        if start.len() > u32::MAX {
            Err(CompileError::TooLarge)
        } else if end.len() > n {
            Err(CompileError::BadPattern)
        } else {
            match (
                elem_items(start, 0, size, source, 0, Seq::empty()),
                elem_items(
                    match mid {
                        Some(q) => seq![q],
                        None => Seq::empty(),
                    },
                    start.len() as int,
                    size,
                    source,
                    0,
                    Seq::empty(),
                ),
                elem_items(end, n - end.len(), size, source, 0, Seq::empty()),
            ) {
                (Ok(a), Ok(b), Ok(c)) => match self.match_seq(
                    env,
                    a + b + c,
                    can_alias,
                    result,
                    0,
                    false,
                    Seq::empty(),
                    pat,
                    bound,
                    depth,
                ) {
                    Ok((s, (flag, gaps))) => match s.close_gaps(gaps, result, false) {
                        Ok(s1) => Ok((s1, flag)),
                        Err(e) => Err(e),
                    },
                    Err(e) => Err(e),
                },
                (Err(e), _, _) => Err(e),
                (_, Err(e), _) => Err(e),
                (_, _, Err(e)) => Err(e),
            }
        }
    }

    /// The middle of a slice pattern on a slice: a binding gets a new fat
    /// pointer, to the element after the leading ones and with the length
    /// less the elements that the other patterns take.
    pub open spec fn bind_middle(
        self,
        env: Env,
        mid: Option<PatternId>,
        pat: PatternId,
        base: Slot,
        lead: int,
        taken: int,
        size: u32,
    ) -> Result<St, CompileError> {
        match mid {
            None => Ok(self),
            Some(q) => if !env.has_pattern(q) || q.0 >= pat.0 {
                Err(CompileError::BadPattern)
            } else {
                match env.pattern(q).kind {
                    PatternKind::Hole => Ok(self),
                    PatternKind::LocalBinding { local_id, mode, sub_pattern } => if mode
                        != crate::ir::BindingMode::Ref || lead * size > i32::MAX || taken
                        > i32::MAX {
                        Err(CompileError::BadPattern)
                    } else {
                        match self.pattern_layout(env, q) {
                            Ok((s, (ty, l))) => match s.kind(ty) {
                                Ok(TypeKind::Ref(t, _)) => if !(s.kind(t) matches Ok(
                                    TypeKind::Slice(_),
                                )) {
                                    Err(CompileError::BadPattern)
                                } else {
                                    match s.find_or_alloc_local(local_id, l) {
                                        Ok((s1, var)) => match (
                                            shift(var, POINTER_SIZE as int),
                                            shift(base, POINTER_SIZE as int),
                                        ) {
                                            (Ok(var2), Ok(len_slot)) => Ok(
                                                s1.emit(
                                                    Instr::PointerOffset2(
                                                        var,
                                                        base,
                                                        (lead * size) as i32,
                                                    ),
                                                ).emit(
                                                    Instr::PointerOffset2(
                                                        var2,
                                                        len_slot,
                                                        (-taken) as i32,
                                                    ),
                                                ),
                                            ),
                                            _ => Err(CompileError::TooLarge),
                                        },
                                        Err(e) => Err(e),
                                    }
                                },
                                Ok(_) => Err(CompileError::BadPattern),
                                Err(e) => Err(e),
                            },
                            Err(e) => Err(e),
                        }
                    },
                    _ => Err(CompileError::BadPattern),
                }
            },
        }
    }

    /// The length test of a slice pattern: the number of elements that the
    /// patterns take is compared with the slice's length. Yields the gap
    /// for the jump that ends the match where the test fails.
    pub open spec fn slice_length_test(
        self,
        taken: int,
        exact: bool,
        base: Slot,
        result: Option<Slot>,
    ) -> R<Seq<u32>> {
        match (result, shift(base, POINTER_SIZE as int)) {
            (Some(r), Ok(len_slot)) => match self.alloc_slot(word_layout()) {
                Ok((s, check)) => match s.emit_word(taken as i128, check).emit(
                    Instr::Binary(
                        Width::W64,
                        if exact {
                            IntBinary::Eq
                        } else {
                            IntBinary::ULtEq
                        },
                        r,
                        check,
                        len_slot,
                    ),
                ).skip() {
                    Ok((s1, j)) => Ok((s1, seq![j])),
                    Err(e) => Err(e),
                },
                Err(e) => Err(e),
            },
            (None, _) => Err(CompileError::MissingResult),
            (_, Err(e)) => Err(e),
        }
    }

    /// The trailing patterns of a slice pattern on a slice: they are
    /// matched back from the address behind the last element.
    pub open spec fn match_slice_end(
        self,
        env: Env,
        pat: PatternId,
        end: Seq<PatternId>,
        size: u32,
        base: Slot,
        can_alias: bool,
        result: Option<Slot>,
        flag: bool,
        gaps: Seq<u32>,
        bound: ExprId,
        depth: nat,
    ) -> R<(bool, Seq<u32>)>
        decreases depth, 0int, bound.0, 0int, 3 * pat.0 + 1, 0int,
    {
        if end.len() == 0 {
            Ok((self, (flag, gaps)))
        } else {
            match self.alloc_slot(word_layout()) {
                Ok((s3, end_slot)) => match elem_items(
                    end,
                    -end.len(),
                    size,
                    Place::Ptr(end_slot, 0, PointerKind::Thin),
                    0,
                    Seq::empty(),
                ) {
                    Ok(c) => s3.emit(
                        Instr::IndexCalcEndPointer { out: end_slot, slice: base, elem_size: size },
                    ).match_seq(env, c, can_alias, result, 0, flag, gaps, pat, bound, depth),
                    Err(e) => Err(e),
                },
                Err(e) => Err(e),
            }
        }
    }

    /// A slice pattern on a slice: the length is tested first, for
    /// equality without a middle pattern, else for at least the number of
    /// the other patterns; the leading patterns are matched from the data
    /// pointer on, the trailing ones back from the end.
    pub open spec fn match_dyn_slice(
        self,
        env: Env,
        pat: PatternId,
        start: Seq<PatternId>,
        mid: Option<PatternId>,
        end: Seq<PatternId>,
        size: u32,
        base: Slot,
        can_alias: bool,
        result: Option<Slot>,
        bound: ExprId,
        depth: nat,
    ) -> R<bool>
        decreases depth, 0int, bound.0, 0int, 3 * pat.0 + 1, 1int,
    {
        let taken: int = (start.len() + end.len()) as int;
        let flag = taken > 0 || mid is None;
        if start.len() > u32::MAX || end.len() > u32::MAX {
            Err(CompileError::TooLarge)
        } else {
            match (if flag {
                self.slice_length_test(taken, mid is None, base, result)
            } else {
                Ok((self, Seq::empty()))
            }) {
                Ok((s, gaps)) => match elem_items(
                    start,
                    0,
                    size,
                    Place::Ptr(base, 0, PointerKind::Fat),
                    0,
                    Seq::empty(),
                ) {
                    Ok(a) => match s.match_seq(
                        env,
                        a,
                        can_alias,
                        result,
                        0,
                        flag,
                        gaps,
                        pat,
                        bound,
                        depth,
                    ) {
                        Ok((s1, (_, gaps1))) => match s1.bind_middle(
                            env,
                            mid,
                            pat,
                            base,
                            start.len() as int,
                            taken,
                            size,
                        ) {
                            Ok(s2) => match s2.match_slice_end(
                                env,
                                pat,
                                end,
                                size,
                                base,
                                can_alias,
                                result,
                                flag,
                                gaps1,
                                bound,
                                depth,
                            ) {
                                Ok((s4, (_, gaps2))) => match s4.close_gaps(gaps2, result, false) {
                                    Ok(s5) => Ok((s5, flag)),
                                    Err(e) => Err(e),
                                },
                                Err(e) => Err(e),
                            },
                            Err(e) => Err(e),
                        },
                        Err(e) => Err(e),
                    },
                    Err(e) => Err(e),
                },
                Err(e) => Err(e),
            }
        }
    }
}

} // verus!
