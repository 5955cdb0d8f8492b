//! Laws of the lowering of patterns and expressions.

use vstd::prelude::*;
use crate::error::CompileError;
use crate::instr::{Instr, Slot};
use crate::ir::{ExprId, ExprKind, PatternId, PatternKind};
use crate::lowering::{Env, St};
use crate::pattern_spec::PatItem;
use crate::program::Program;
use crate::stack::Place;
use crate::vm::VmView;

verus! {

/// A sequence of sub-patterns that is entered with the flag set never comes
/// out irrefutable.
pub proof fn lemma_seq_flag_stays(
    s: St,
    env: Env,
    items: Seq<PatItem>,
    can_alias: bool,
    result: Option<Slot>,
    i: int,
    gaps: Seq<u32>,
    pat: PatternId,
    bound: ExprId,
    depth: nat,
)
    ensures
        !(s.match_seq(env, items, can_alias, result, i, true, gaps, pat, bound, depth) matches Ok(
            (_, (false, _)),
        )),
    decreases items.len() - i,
{
    if 0 <= i < items.len() && items[i].pattern.0 < pat.0 {
        match s.match_pattern_internal(
            env,
            items[i].pattern,
            items[i].place,
            can_alias,
            result,
            bound,
            depth,
        ) {
            Ok((s1, refutable)) => {
                if refutable && result is Some {
                    match s1.skip() {
                        Ok((s2, j)) => {
                            lemma_seq_flag_stays(
                                s2,
                                env,
                                items,
                                can_alias,
                                result,
                                i + 1,
                                gaps.push(j),
                                pat,
                                bound,
                                depth,
                            );
                        },
                        Err(_) => {},
                    }
                } else {
                    lemma_seq_flag_stays(
                        s1,
                        env,
                        items,
                        can_alias,
                        result,
                        i + 1,
                        gaps,
                        pat,
                        bound,
                        depth,
                    );
                }
            },
            Err(_) => {},
        }
    }
}

/// A sequence of sub-patterns that comes out irrefutable leaves no gap, and
/// comes out the same whatever the result slot is.
pub proof fn lemma_seq_independent(
    s: St,
    env: Env,
    items: Seq<PatItem>,
    can_alias: bool,
    r: Slot,
    r2: Slot,
    i: int,
    pat: PatternId,
    bound: ExprId,
    depth: nat,
)
    requires
        s.match_seq(
            env,
            items,
            can_alias,
            Some(r),
            i,
            false,
            Seq::empty(),
            pat,
            bound,
            depth,
        ) matches Ok((_, (false, _))),
    ensures
        s.match_seq(env, items, can_alias, Some(r2), i, false, Seq::empty(), pat, bound, depth)
            == s.match_seq(
            env,
            items,
            can_alias,
            Some(r),
            i,
            false,
            Seq::empty(),
            pat,
            bound,
            depth,
        ),
        s.match_seq(
            env,
            items,
            can_alias,
            Some(r),
            i,
            false,
            Seq::empty(),
            pat,
            bound,
            depth,
        ) matches Ok((_, (_, gaps))) && gaps.len() == 0,
    decreases depth, 0int, bound.0, 0int, 3 * pat.0, items.len() - i,
{
    if 0 <= i < items.len() && items[i].pattern.0 < pat.0 {
        match s.match_pattern_internal(
            env,
            items[i].pattern,
            items[i].place,
            can_alias,
            Some(r),
            bound,
            depth,
        ) {
            Ok((s1, refutable)) => {
                if refutable {
                    match s1.skip() {
                        Ok((s2, j)) => {
                            lemma_seq_flag_stays(
                                s2,
                                env,
                                items,
                                can_alias,
                                Some(r),
                                i + 1,
                                Seq::<u32>::empty().push(j),
                                pat,
                                bound,
                                depth,
                            );
                        },
                        Err(_) => {},
                    }
                } else {
                    lemma_pattern_independent(
                        s,
                        env,
                        items[i].pattern,
                        items[i].place,
                        can_alias,
                        r,
                        r2,
                        bound,
                        depth,
                    );
                    lemma_seq_independent(
                        s1,
                        env,
                        items,
                        can_alias,
                        r,
                        r2,
                        i + 1,
                        pat,
                        bound,
                        depth,
                    );
                }
            },
            Err(_) => {},
        }
    }
}

/// Closing no gaps changes nothing, whatever the result slot is.
pub proof fn lemma_close_no_gaps(s: St, result: Option<Slot>, on_true: bool)
    ensures
        s.close_gaps(Seq::empty(), result, on_true) == Ok::<St, CompileError>(s),
{
    let (s1, g) = s.trim_gap(Seq::<u32>::empty());
    assert(g.len() == 0);
}

/// A pattern that turns out irrefutable makes no use of the result slot:
/// with any other result slot the same code is produced, and the same
/// state reached. The slot is neither written nor read.
pub proof fn lemma_pattern_independent(
    s: St,
    env: Env,
    pat: PatternId,
    source: Place,
    can_alias: bool,
    r: Slot,
    r2: Slot,
    bound: ExprId,
    depth: nat,
)
    requires
        s.match_pattern_internal(env, pat, source, can_alias, Some(r), bound, depth) matches Ok(
            (_, false),
        ),
    ensures
        s.match_pattern_internal(env, pat, source, can_alias, Some(r2), bound, depth)
            == s.match_pattern_internal(env, pat, source, can_alias, Some(r), bound, depth),
    decreases depth, 0int, bound.0, 0int, 3 * pat.0 + 2, 2int,
{
    let k = env.pattern(pat).kind;
    if k is LocalBinding {
        bridge_binding(s, env, pat, source, can_alias, r, r2, bound, depth);
    } else if k is Struct {
        bridge_struct(s, env, pat, source, can_alias, r, r2, bound, depth);
    } else if k is Or {
        bridge_or(s, env, pat, source, can_alias, r, r2, bound, depth);
    } else if k is DeRef {
        bridge_deref(s, env, pat, source, can_alias, r, r2, bound, depth);
    } else if k is Slice {
        bridge_slice(s, env, pat, source, can_alias, r, r2, bound, depth);
    } else if k is Hole {
        bridge_hole(s, env, pat, source, can_alias, r, r2, bound, depth);
    } else {
        bridge_refutable(s, env, pat, source, can_alias, r, bound, depth);
    }
}

proof fn bridge_hole(
    s: St,
    env: Env,
    pat: PatternId,
    source: Place,
    can_alias: bool,
    r: Slot,
    r2: Slot,
    bound: ExprId,
    depth: nat,
)
    requires
        env.pattern(pat).kind is Hole,
    ensures
        s.match_pattern_internal(env, pat, source, can_alias, Some(r2), bound, depth)
            == s.match_pattern_internal(env, pat, source, can_alias, Some(r), bound, depth),
{
}

/// The patterns that test a value are refutable.
proof fn bridge_refutable(
    s: St,
    env: Env,
    pat: PatternId,
    source: Place,
    can_alias: bool,
    r: Slot,
    bound: ExprId,
    depth: nat,
)
    requires
        !(env.pattern(pat).kind is LocalBinding),
        !(env.pattern(pat).kind is Struct),
        !(env.pattern(pat).kind is Or),
        !(env.pattern(pat).kind is DeRef),
        !(env.pattern(pat).kind is Slice),
        !(env.pattern(pat).kind is Hole),
    ensures
        !(s.match_pattern_internal(env, pat, source, can_alias, Some(r), bound, depth) matches Ok(
            (_, false),
        )),
{
    match env.pattern(pat).kind {
        PatternKind::Enum { fields, variant_index } => {
            lemma_enum_refutable(s, env, pat, fields@, variant_index, source, can_alias, r, bound, depth);
        },
        PatternKind::Range { start, end, end_is_inclusive } => {
            lemma_range_refutable(s, env, pat, start, end, end_is_inclusive, source, r, bound, depth);
        },
        PatternKind::NamedConst(item, sl) => {
            lemma_const_refutable(s, env, pat, item, sl, source, r, depth);
        },
        PatternKind::LiteralBytes(bytes) => {
            lemma_bytes_refutable(s, env, pat, bytes@, source, r);
        },
        PatternKind::LiteralValue(n) => {
            lemma_value_refutable(s, env, pat, n, source, r);
        },
        _ => {},
    }
}

proof fn bridge_binding(
    s: St,
    env: Env,
    pat: PatternId,
    source: Place,
    can_alias: bool,
    r: Slot,
    r2: Slot,
    bound: ExprId,
    depth: nat,
)
    requires
        env.pattern(pat).kind is LocalBinding,
        s.match_pattern_internal(env, pat, source, can_alias, Some(r), bound, depth) matches Ok(
            (_, false),
        ),
    ensures
        s.match_pattern_internal(env, pat, source, can_alias, Some(r2), bound, depth)
            == s.match_pattern_internal(env, pat, source, can_alias, Some(r), bound, depth),
    decreases depth, 0int, bound.0, 0int, 3 * pat.0 + 2, 1int,
{
    match env.pattern(pat).kind {
        PatternKind::LocalBinding { local_id, mode, sub_pattern } => {
            lemma_binding_independent(
                s,
                env,
                pat,
                local_id,
                mode,
                sub_pattern,
                source,
                can_alias,
                r,
                r2,
                bound,
                depth,
            );
        },
        _ => {},
    }
}

proof fn bridge_struct(
    s: St,
    env: Env,
    pat: PatternId,
    source: Place,
    can_alias: bool,
    r: Slot,
    r2: Slot,
    bound: ExprId,
    depth: nat,
)
    requires
        env.pattern(pat).kind is Struct,
        s.match_pattern_internal(env, pat, source, can_alias, Some(r), bound, depth) matches Ok(
            (_, false),
        ),
    ensures
        s.match_pattern_internal(env, pat, source, can_alias, Some(r2), bound, depth)
            == s.match_pattern_internal(env, pat, source, can_alias, Some(r), bound, depth),
    decreases depth, 0int, bound.0, 0int, 3 * pat.0 + 2, 1int,
{
    match env.pattern(pat).kind {
        PatternKind::Struct { fields } => {
            lemma_struct_independent(s, env, pat, fields@, source, can_alias, r, r2, bound, depth);
        },
        _ => {},
    }
}

proof fn bridge_or(
    s: St,
    env: Env,
    pat: PatternId,
    source: Place,
    can_alias: bool,
    r: Slot,
    r2: Slot,
    bound: ExprId,
    depth: nat,
)
    requires
        env.pattern(pat).kind is Or,
        s.match_pattern_internal(env, pat, source, can_alias, Some(r), bound, depth) matches Ok(
            (_, false),
        ),
    ensures
        s.match_pattern_internal(env, pat, source, can_alias, Some(r2), bound, depth)
            == s.match_pattern_internal(env, pat, source, can_alias, Some(r), bound, depth),
    decreases depth, 0int, bound.0, 0int, 3 * pat.0 + 2, 1int,
{
    match env.pattern(pat).kind {
        PatternKind::Or { options } => {
            lemma_options_independent(s, env, options@, source, r, r2, pat, bound, depth);
        },
        _ => {},
    }
}

proof fn bridge_deref(
    s: St,
    env: Env,
    pat: PatternId,
    source: Place,
    can_alias: bool,
    r: Slot,
    r2: Slot,
    bound: ExprId,
    depth: nat,
)
    requires
        env.pattern(pat).kind is DeRef,
        s.match_pattern_internal(env, pat, source, can_alias, Some(r), bound, depth) matches Ok(
            (_, false),
        ),
    ensures
        s.match_pattern_internal(env, pat, source, can_alias, Some(r2), bound, depth)
            == s.match_pattern_internal(env, pat, source, can_alias, Some(r), bound, depth),
    decreases depth, 0int, bound.0, 0int, 3 * pat.0 + 2, 1int,
{
    match env.pattern(pat).kind {
        PatternKind::DeRef { sub_pattern } => {
            lemma_deref_independent(s, env, pat, sub_pattern, source, r, r2, bound, depth);
        },
        _ => {},
    }
}

proof fn bridge_slice(
    s: St,
    env: Env,
    pat: PatternId,
    source: Place,
    can_alias: bool,
    r: Slot,
    r2: Slot,
    bound: ExprId,
    depth: nat,
)
    requires
        env.pattern(pat).kind is Slice,
        s.match_pattern_internal(env, pat, source, can_alias, Some(r), bound, depth) matches Ok(
            (_, false),
        ),
    ensures
        s.match_pattern_internal(env, pat, source, can_alias, Some(r2), bound, depth)
            == s.match_pattern_internal(env, pat, source, can_alias, Some(r), bound, depth),
    decreases depth, 0int, bound.0, 0int, 3 * pat.0 + 2, 1int,
{
    match env.pattern(pat).kind {
        PatternKind::Slice { start, mid, end } => {
            lemma_slice_independent(
                s,
                env,
                pat,
                start@,
                mid,
                end@,
                source,
                can_alias,
                r,
                r2,
                bound,
                depth,
            );
        },
        _ => {},
    }
}

/// A named constant as a pattern is refutable.
proof fn lemma_const_refutable(
    s: St,
    env: Env,
    pat: PatternId,
    item: crate::ids::ItemRef,
    sl: crate::types::ListId,
    source: Place,
    r: Slot,
    depth: nat,
)
    ensures
        !(s.match_const(env, pat, item, sl, source, Some(r), depth) matches Ok((_, false))),
{
}

/// A bytes literal as a pattern is refutable.
proof fn lemma_bytes_refutable(s: St, env: Env, pat: PatternId, bytes: Seq<u8>, source: Place, r: Slot)
    ensures
        !(s.match_bytes(env, pat, bytes, source, Some(r)) matches Ok((_, false))),
{
}

/// A literal as a pattern is refutable.
proof fn lemma_value_refutable(s: St, env: Env, pat: PatternId, n: i128, source: Place, r: Slot)
    ensures
        !(s.match_value(env, pat, n, source, Some(r)) matches Ok((_, false))),
{
}

/// An enum pattern is refutable.
proof fn lemma_enum_refutable(
    s: St,
    env: Env,
    pat: PatternId,
    fields: Seq<crate::ir::FieldPattern>,
    variant: u32,
    source: Place,
    can_alias: bool,
    r: Slot,
    bound: ExprId,
    depth: nat,
)
    ensures
        !(s.match_enum(env, pat, fields, variant, source, can_alias, Some(r), bound, depth)
            matches Ok((_, false))),
{
}

/// A range pattern is refutable.
proof fn lemma_range_refutable(
    s: St,
    env: Env,
    pat: PatternId,
    start: Option<ExprId>,
    end: Option<ExprId>,
    inclusive: bool,
    source: Place,
    r: Slot,
    bound: ExprId,
    depth: nat,
)
    ensures
        !(s.match_range(env, pat, start, end, inclusive, source, Some(r), bound, depth) matches Ok(
            (_, false),
        )),
{
}

proof fn lemma_binding_independent(
    s: St,
    env: Env,
    pat: PatternId,
    local_id: u32,
    mode: crate::ir::BindingMode,
    sub_pattern: Option<PatternId>,
    source: Place,
    can_alias: bool,
    r: Slot,
    r2: Slot,
    bound: ExprId,
    depth: nat,
)
    requires
        s.match_binding(
            env,
            pat,
            local_id,
            mode,
            sub_pattern,
            source,
            can_alias,
            Some(r),
            bound,
            depth,
        ) matches Ok((_, false)),
    ensures
        s.match_binding(
            env,
            pat,
            local_id,
            mode,
            sub_pattern,
            source,
            can_alias,
            Some(r2),
            bound,
            depth,
        ) == s.match_binding(
            env,
            pat,
            local_id,
            mode,
            sub_pattern,
            source,
            can_alias,
            Some(r),
            bound,
            depth,
        ),
    decreases depth, 0int, bound.0, 0int, 3 * pat.0 + 1, 0int,
{
    match s.pattern_layout(env, pat) {
        Ok((s0, (_, l))) => match s0.bind_local(
            local_id,
            mode,
            sub_pattern is Some,
            source,
            can_alias,
            l,
        ) {
            Ok(s1) => match sub_pattern {
                Some(q) => {
                    if q.0 < pat.0 {
                        lemma_pattern_independent(s1, env, q, source, false, r, r2, bound, depth);
                    }
                },
                None => {},
            },
            Err(_) => {},
        },
        Err(_) => {},
    }
}

proof fn lemma_struct_independent(
    s: St,
    env: Env,
    pat: PatternId,
    fields: Seq<crate::ir::FieldPattern>,
    source: Place,
    can_alias: bool,
    r: Slot,
    r2: Slot,
    bound: ExprId,
    depth: nat,
)
    requires
        s.match_struct(env, pat, fields, source, can_alias, Some(r), bound, depth) matches Ok(
            (_, false),
        ),
    ensures
        s.match_struct(env, pat, fields, source, can_alias, Some(r2), bound, depth)
            == s.match_struct(env, pat, fields, source, can_alias, Some(r), bound, depth),
    decreases depth, 0int, bound.0, 0int, 3 * pat.0 + 1, 0int,
{
    match s.pattern_layout(env, pat) {
        Ok((s0, (_, l))) => match crate::pattern_spec::struct_items(
            s0.vm.types,
            l,
            0,
            fields,
            source,
            0,
            Seq::empty(),
        ) {
            Ok(items) => {
                match s0.match_seq(
                    env,
                    items,
                    can_alias,
                    Some(r),
                    0,
                    false,
                    Seq::empty(),
                    pat,
                    bound,
                    depth,
                ) {
                    Ok((s1, (flag, gaps))) => {
                        if !flag {
                            lemma_seq_independent(
                                s0,
                                env,
                                items,
                                can_alias,
                                r,
                                r2,
                                0,
                                pat,
                                bound,
                                depth,
                            );
                            assert(gaps =~= Seq::<u32>::empty());
                            lemma_close_no_gaps(s1, Some(r), false);
                            lemma_close_no_gaps(s1, Some(r2), false);
                        }
                    },
                    Err(_) => {},
                }
            },
            Err(_) => {},
        },
        Err(_) => {},
    }
}

proof fn lemma_options_independent(
    s: St,
    env: Env,
    options: Seq<PatternId>,
    source: Place,
    r: Slot,
    r2: Slot,
    pat: PatternId,
    bound: ExprId,
    depth: nat,
)
    requires
        s.match_or(env, pat, options, source, Some(r), bound, depth) matches Ok((_, false)),
    ensures
        s.match_or(env, pat, options, source, Some(r2), bound, depth) == s.match_or(
            env,
            pat,
            options,
            source,
            Some(r),
            bound,
            depth,
        ),
    decreases depth, 0int, bound.0, 0int, 3 * pat.0 + 1, 0int,
{
    if options[0].0 < pat.0 {
        match s.match_pattern_internal(env, options[0], source, false, Some(r), bound, depth) {
            Ok((s1, refutable)) => {
                if refutable {
                    match s1.skip() {
                        Ok((s2, j)) => {
                            lemma_options_flag(
                                s2,
                                env,
                                options,
                                source,
                                r,
                                1,
                                Seq::<u32>::empty().push(j),
                                pat,
                                bound,
                                depth,
                            );
                        },
                        Err(_) => {},
                    }
                } else {
                    lemma_pattern_independent(
                        s,
                        env,
                        options[0],
                        source,
                        false,
                        r,
                        r2,
                        bound,
                        depth,
                    );
                    lemma_close_no_gaps(s1, Some(r), true);
                    lemma_close_no_gaps(s1, Some(r2), true);
                }
            },
            Err(_) => {},
        }
    }
}

/// Options that are tried after a refutable one never come out irrefutable.
proof fn lemma_options_flag(
    s: St,
    env: Env,
    options: Seq<PatternId>,
    source: Place,
    r: Slot,
    i: int,
    gaps: Seq<u32>,
    pat: PatternId,
    bound: ExprId,
    depth: nat,
)
    requires
        gaps.len() > 0,
    ensures
        !(s.match_options(env, options, source, r, i, gaps, pat, bound, depth) matches Ok(
            (_, (false, _)),
        )),
    decreases options.len() - i,
{
    if 0 <= i < options.len() && options[i].0 < pat.0 {
        match s.match_pattern_internal(env, options[i], source, false, Some(r), bound, depth) {
            Ok((s1, refutable)) => {
                if refutable {
                    match s1.skip() {
                        Ok((s2, j)) => {
                            lemma_options_flag(
                                s2,
                                env,
                                options,
                                source,
                                r,
                                i + 1,
                                gaps.push(j),
                                pat,
                                bound,
                                depth,
                            );
                        },
                        Err(_) => {},
                    }
                }
            },
            Err(_) => {},
        }
    }
}

proof fn lemma_deref_independent(
    s: St,
    env: Env,
    pat: PatternId,
    sub: PatternId,
    source: Place,
    r: Slot,
    r2: Slot,
    bound: ExprId,
    depth: nat,
)
    requires
        s.match_deref(env, pat, sub, source, Some(r), bound, depth) matches Ok((_, false)),
    ensures
        s.match_deref(env, pat, sub, source, Some(r2), bound, depth) == s.match_deref(
            env,
            pat,
            sub,
            source,
            Some(r),
            bound,
            depth,
        ),
    decreases depth, 0int, bound.0, 0int, 3 * pat.0 + 1, 0int,
{
    if sub.0 < pat.0 {
        match s.pattern_layout(env, pat) {
            Ok((s0, (_, l))) => match s0.pattern_layout(env, sub) {
                Ok((s1, (sub_ty, _))) => match (s1.kind(sub_ty), l.size_spec()) {
                    (Ok(k), Ok(size)) => {
                        let kind = if s1.vm.types.sized(
                            env.prog,
                            sub_ty,
                            crate::layout::SIZED_DEPTH as nat,
                        ) {
                            crate::stack::PointerKind::Thin
                        } else {
                            crate::stack::PointerKind::Fat
                        };
                        match source {
                            Place::Local(slot) => {
                                lemma_pattern_independent(
                                    s1,
                                    env,
                                    sub,
                                    Place::Ptr(slot, 0, kind),
                                    false,
                                    r,
                                    r2,
                                    bound,
                                    depth,
                                );
                            },
                            Place::Ptr(p, off, _) => match s1.alloc_slot(l) {
                                Ok((s2, slot)) => {
                                    lemma_pattern_independent(
                                        s2.emit_opt(
                                            crate::select::copy_from_ptr_spec(slot, p, size, off),
                                        ),
                                        env,
                                        sub,
                                        Place::Ptr(slot, 0, kind),
                                        false,
                                        r,
                                        r2,
                                        bound,
                                        depth,
                                    );
                                },
                                Err(_) => {},
                            },
                        }
                    },
                    _ => {},
                },
                Err(_) => {},
            },
            Err(_) => {},
        }
    }
}

proof fn lemma_slice_independent(
    s: St,
    env: Env,
    pat: PatternId,
    start: Seq<PatternId>,
    mid: Option<PatternId>,
    end: Seq<PatternId>,
    source: Place,
    can_alias: bool,
    r: Slot,
    r2: Slot,
    bound: ExprId,
    depth: nat,
)
    requires
        s.match_slice(env, pat, start, mid, end, source, can_alias, Some(r), bound, depth)
            matches Ok((_, false)),
    ensures
        s.match_slice(env, pat, start, mid, end, source, can_alias, Some(r2), bound, depth)
            == s.match_slice(env, pat, start, mid, end, source, can_alias, Some(r), bound, depth),
    decreases depth, 0int, bound.0, 0int, 3 * pat.0 + 1, 2int,
{
    match s.pattern_layout(env, pat) {
        Ok((s0, (ty, _))) => match s0.kind(ty) {
            Ok(crate::types::TypeKind::Array(elem, crate::types::ArrayLen::Known(n))) => {
                match s0.layout_of(env, elem) {
                    Ok((s1, el)) => match el.size_spec() {
                        Ok(size) => {
                            lemma_array_independent(
                                s1,
                                env,
                                pat,
                                start,
                                mid,
                                end,
                                n,
                                size,
                                source,
                                can_alias,
                                r,
                                r2,
                                bound,
                                depth,
                            );
                        },
                        Err(_) => {},
                    },
                    Err(_) => {},
                }
            },
            Ok(crate::types::TypeKind::Slice(elem)) => {
                match s0.layout_of(env, elem) {
                    Ok((s1, el)) => match (el.size_spec(), source) {
                        (Ok(size), Place::Ptr(base, off, kind)) => {
                            if off == 0 && kind == crate::stack::PointerKind::Fat {
                                lemma_dyn_slice_independent(
                                    s1,
                                    env,
                                    pat,
                                    start,
                                    mid,
                                    end,
                                    size,
                                    base,
                                    can_alias,
                                    r,
                                    r2,
                                    bound,
                                    depth,
                                );
                            }
                        },
                        _ => {},
                    },
                    Err(_) => {},
                }
            },
            _ => {},
        },
        Err(_) => {},
    }
}

proof fn lemma_array_independent(
    s: St,
    env: Env,
    pat: PatternId,
    start: Seq<PatternId>,
    mid: Option<PatternId>,
    end: Seq<PatternId>,
    n: u32,
    size: u32,
    source: Place,
    can_alias: bool,
    r: Slot,
    r2: Slot,
    bound: ExprId,
    depth: nat,
)
    requires
        s.match_array(env, pat, start, mid, end, n, size, source, can_alias, Some(r), bound, depth)
            matches Ok((_, false)),
    ensures
        s.match_array(env, pat, start, mid, end, n, size, source, can_alias, Some(r2), bound, depth)
            == s.match_array(
            env,
            pat,
            start,
            mid,
            end,
            n,
            size,
            source,
            can_alias,
            Some(r),
            bound,
            depth,
        ),
    decreases depth, 0int, bound.0, 0int, 3 * pat.0 + 1, 0int,
{
    if start.len() <= u32::MAX && end.len() <= n {
        match (
            crate::pattern_spec::elem_items(start, 0, size, source, 0, Seq::empty()),
            crate::pattern_spec::elem_items(
                match mid {
                    Some(q) => seq![q],
                    None => Seq::empty(),
                },
                start.len() as int,
                size,
                source,
                0,
                Seq::empty(),
            ),
            crate::pattern_spec::elem_items(end, n - end.len(), size, source, 0, Seq::empty()),
        ) {
            (Ok(a), Ok(b), Ok(c)) => {
                match s.match_seq(
                    env,
                    a + b + c,
                    can_alias,
                    Some(r),
                    0,
                    false,
                    Seq::empty(),
                    pat,
                    bound,
                    depth,
                ) {
                    Ok((s1, (flag, gaps))) => {
                        if !flag {
                            lemma_seq_independent(
                                s,
                                env,
                                a + b + c,
                                can_alias,
                                r,
                                r2,
                                0,
                                pat,
                                bound,
                                depth,
                            );
                            assert(gaps =~= Seq::<u32>::empty());
                            lemma_close_no_gaps(s1, Some(r), false);
                            lemma_close_no_gaps(s1, Some(r2), false);
                        }
                    },
                    Err(_) => {},
                }
            },
            _ => {},
        }
    }
}

proof fn lemma_dyn_slice_independent(
    s: St,
    env: Env,
    pat: PatternId,
    start: Seq<PatternId>,
    mid: Option<PatternId>,
    end: Seq<PatternId>,
    size: u32,
    base: Slot,
    can_alias: bool,
    r: Slot,
    r2: Slot,
    bound: ExprId,
    depth: nat,
)
    requires
        s.match_dyn_slice(env, pat, start, mid, end, size, base, can_alias, Some(r), bound, depth)
            matches Ok((_, false)),
    ensures
        s.match_dyn_slice(env, pat, start, mid, end, size, base, can_alias, Some(r2), bound, depth)
            == s.match_dyn_slice(
            env,
            pat,
            start,
            mid,
            end,
            size,
            base,
            can_alias,
            Some(r),
            bound,
            depth,
        ),
    decreases depth, 0int, bound.0, 0int, 3 * pat.0 + 1, 1int,
{
    let taken: int = (start.len() + end.len()) as int;
    let flag = taken > 0 || mid is None;
    if !flag {
        assert(start.len() == 0 && end.len() == 0);
        let a = crate::pattern_spec::elem_items(
            start,
            0,
            size,
            Place::Ptr(base, 0, crate::stack::PointerKind::Fat),
            0,
            Seq::empty(),
        );
        assert(a == Ok::<Seq<PatItem>, CompileError>(Seq::empty()));
        let items = Seq::<PatItem>::empty();
        assert(s.match_seq(
            env,
            items,
            can_alias,
            Some(r),
            0,
            false,
            Seq::empty(),
            pat,
            bound,
            depth,
        ) == Ok::<(St, (bool, Seq<u32>)), CompileError>((s, (false, Seq::empty()))));
        assert(s.match_seq(
            env,
            items,
            can_alias,
            Some(r2),
            0,
            false,
            Seq::empty(),
            pat,
            bound,
            depth,
        ) == Ok::<(St, (bool, Seq<u32>)), CompileError>((s, (false, Seq::empty()))));
        match s.bind_middle(env, mid, pat, base, start.len() as int, taken, size) {
            Ok(s2) => {
                lemma_close_no_gaps(s2, Some(r), false);
                lemma_close_no_gaps(s2, Some(r2), false);
            },
            Err(_) => {},
        }
    }
}

} // verus!
