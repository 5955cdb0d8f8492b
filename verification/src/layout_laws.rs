//! Laws of layouts and of trait resolution.

use vstd::prelude::*;
use crate::error::CompileError;
use crate::items::{AdtInfo, TraitImpl};
use crate::layout::Agg;
use crate::matcher::ImplChoice;
use crate::program::Program;
use crate::types::{ListId, Sub, Type, TypeKind, TypesView};

verus! {

impl TypesView {
    /// Every type has a place for its layout.
    pub open spec fn aligned(self) -> bool {
        self.layouts.len() == self.kinds.len()
    }

    /// `later` has a place for the layout of every type, and holds at least
    /// the types of `self`.
    pub open spec fn grows_to(self, later: TypesView) -> bool {
        later.aligned() && later.kinds.len() >= self.kinds.len()
    }
}

/// Interning a kind keeps the table aligned and loses no type.
pub proof fn lemma_intern_grows(tv: TypesView, kind: TypeKind)
    requires
        tv.aligned(),
    ensures
        tv.grows_to(tv.intern(kind).0),
{
}

/// Substituting into a type keeps the table aligned and loses no type.
pub proof fn lemma_sub_grows(tv: TypesView, ty: Type, subs: Seq<Sub>)
    requires
        tv.aligned(),
    ensures
        tv.grows_to(tv.sub(ty, subs).0),
    decreases ty.0, 1int, 0int,
{
    if tv.has_type(ty) {
        match tv.kind(ty) {
            TypeKind::Ref(c, m) => {
                if c.0 < ty.0 {
                    lemma_sub_grows(tv, c, subs);
                    lemma_intern_grows(tv.sub(c, subs).0, TypeKind::Ref(tv.sub(c, subs).1->Ok_0, m));
                }
            },
            TypeKind::Ptr(c, m) => {
                if c.0 < ty.0 {
                    lemma_sub_grows(tv, c, subs);
                    lemma_intern_grows(tv.sub(c, subs).0, TypeKind::Ptr(tv.sub(c, subs).1->Ok_0, m));
                }
            },
            TypeKind::Slice(c) => {
                if c.0 < ty.0 {
                    lemma_sub_grows(tv, c, subs);
                    lemma_intern_grows(tv.sub(c, subs).0, TypeKind::Slice(tv.sub(c, subs).1->Ok_0));
                }
            },
            TypeKind::Array(c, len) => {
                if c.0 < ty.0 {
                    lemma_sub_grows(tv, c, subs);
                }
            },
            TypeKind::Tuple(l) => {
                lemma_sub_list_grows(tv, l, subs, ty.0);
            },
            TypeKind::Adt(item, l) => {
                lemma_sub_list_grows(tv, l, subs, ty.0);
            },
            TypeKind::FunctionDef(item, l) => {
                lemma_sub_list_grows(tv, l, subs, ty.0);
            },
            TypeKind::FunctionPointer(l, out) => {
                if out.0 < ty.0 {
                    lemma_sub_list_grows(tv, l, subs, ty.0);
                    lemma_sub_grows(tv.sub_list(l, subs, ty.0).0, out, subs);
                }
            },
            TypeKind::Closure(n, env, l) => {
                if env.0 < ty.0 {
                    lemma_sub_list_grows(tv, l, subs, ty.0);
                    lemma_sub_grows(tv.sub_list(l, subs, ty.0).0, env, subs);
                }
            },
            _ => {},
        }
    }
}

/// Substituting into a list keeps the table aligned and loses no type.
pub proof fn lemma_sub_list_grows(tv: TypesView, l: ListId, subs: Seq<Sub>, bound: u32)
    requires
        tv.aligned(),
    ensures
        tv.grows_to(tv.sub_list(l, subs, bound).0),
    decreases bound, 0int, 1int,
{
    if tv.has_list(l) {
        lemma_sub_entries_grows(tv, tv.list(l), subs, bound, 0, Seq::empty());
    }
}

/// Substituting into the entries of a list, one after the other, keeps the
/// table aligned and loses no type.
pub proof fn lemma_sub_entries_grows(
    tv: TypesView,
    elems: Seq<Sub>,
    subs: Seq<Sub>,
    bound: u32,
    i: int,
    acc: Seq<Sub>,
)
    requires
        tv.aligned(),
    ensures
        tv.grows_to(tv.sub_entries(elems, subs, bound, i, acc).0),
    decreases bound, 0int, 0int, elems.len() - i,
{
    if 0 <= i < elems.len() {
        match elems[i] {
            Sub::Type(t) => {
                if t.0 < bound {
                    lemma_sub_grows(tv, t, subs);
                    match tv.sub(t, subs) {
                        (tv2, Ok(t2)) => {
                            lemma_sub_entries_grows(
                                tv2,
                                elems,
                                subs,
                                bound,
                                i + 1,
                                acc.push(Sub::Type(t2)),
                            );
                        },
                        _ => {},
                    }
                }
            },
            other => {
                lemma_sub_entries_grows(tv, elems, subs, bound, i + 1, acc.push(other));
            },
        }
    }
}

/// Substituting into the fields of a variant keeps the table aligned and
/// loses no type.
pub proof fn lemma_sub_fields_grows(
    tv: TypesView,
    fields: Seq<Type>,
    subs: Seq<Sub>,
    j: int,
    acc: Seq<Type>,
)
    requires
        tv.aligned(),
    ensures
        tv.grows_to(tv.sub_fields(fields, subs, j, acc).0),
    decreases fields.len() - j,
{
    if 0 <= j < fields.len() {
        lemma_sub_grows(tv, fields[j], subs);
        match tv.sub(fields[j], subs) {
            (tv2, Ok(t)) => {
                lemma_sub_fields_grows(tv2, fields, subs, j + 1, acc.push(t));
            },
            _ => {},
        }
    }
}

/// Computing a layout keeps the table aligned and loses no type.
pub proof fn lemma_layout_grows(tv: TypesView, prog: Program, ty: Type, depth: nat)
    requires
        tv.aligned(),
    ensures
        tv.grows_to(tv.layout(prog, ty, depth).0),
    decreases depth, 3int, 0int,
{
    if tv.has_type(ty) && tv.layouts[ty.0 as int] is None {
        lemma_compute_grows(tv, prog, ty, depth);
    }
}

/// Computing the layout of a type that has none yet keeps the table
/// aligned and loses no type.
pub proof fn lemma_compute_grows(tv: TypesView, prog: Program, ty: Type, depth: nat)
    requires
        tv.aligned(),
    ensures
        tv.grows_to(tv.compute_layout(prog, ty, depth).0),
    decreases depth, 2int, 0int,
{
    match tv.kind(ty) {
        TypeKind::Array(c, len) => {
            if len is Known && depth > 0 {
                lemma_layout_grows(tv, prog, c, (depth - 1) as nat);
            }
        },
        TypeKind::Closure(_, env, _) => {
            if depth > 0 {
                lemma_layout_grows(tv, prog, env, (depth - 1) as nat);
            }
        },
        TypeKind::Tuple(l) => {
            if tv.has_list(l) {
                match TypesView::list_types(tv.list(l), 0, Seq::empty()) {
                    Ok(fields) => {
                        lemma_fields_grows(
                            tv,
                            prog,
                            fields,
                            0,
                            0,
                            TypesView::empty_agg(0, 1, false),
                            depth,
                        );
                    },
                    Err(_) => {},
                }
            }
        },
        TypeKind::Adt(item, l) => {
            if tv.has_list(l) {
                match prog.adt_of(item) {
                    Ok(info) => {
                        lemma_adt_grows(tv, prog, info, tv.list(l), depth);
                    },
                    Err(_) => {},
                }
            }
        },
        _ => {},
    }
}

/// Laying out a run of fields keeps the table aligned and loses no type.
pub proof fn lemma_fields_grows(
    tv: TypesView,
    prog: Program,
    fields: Seq<Type>,
    i: int,
    cur: u32,
    agg: Agg,
    depth: nat,
)
    requires
        tv.aligned(),
    ensures
        tv.grows_to(tv.fields_layout(prog, fields, i, cur, agg, depth).0),
    decreases depth, 0int, fields.len() - i,
{
    if 0 <= i < fields.len() && depth > 0 {
        lemma_layout_grows(tv, prog, fields[i], (depth - 1) as nat);
        match tv.layout(prog, fields[i], (depth - 1) as nat) {
            (tv2, Ok(f)) => match crate::layout::place_field(cur, f) {
                Ok((off, end)) => {
                    lemma_fields_grows(
                        tv2,
                        prog,
                        fields,
                        i + 1,
                        end,
                        Agg {
                            flat: agg.flat.push(off),
                            align: crate::layout::max_u32(agg.align, f.align),
                            drop: agg.drop || f.needs_drop,
                            ..agg
                        },
                        depth,
                    );
                },
                Err(_) => {},
            },
            _ => {},
        }
    }
}

/// Laying out the variants of a type keeps the table aligned and loses no
/// type.
pub proof fn lemma_variants_grows(
    tv: TypesView,
    prog: Program,
    variant_fields: Seq<Vec<Type>>,
    subs: Seq<Sub>,
    v: int,
    start: u32,
    agg: Agg,
    depth: nat,
)
    requires
        tv.aligned(),
    ensures
        tv.grows_to(tv.variants_layout(prog, variant_fields, subs, v, start, agg, depth).0),
    decreases depth, 1int, variant_fields.len() - v,
{
    if 0 <= v < variant_fields.len() && variant_fields[v]@.len() <= u32::MAX {
        lemma_sub_fields_grows(tv, variant_fields[v]@, subs, 0, Seq::empty());
        match tv.sub_fields(variant_fields[v]@, subs, 0, Seq::empty()) {
            (tv1, Ok(fields)) => {
                lemma_fields_grows(tv1, prog, fields, 0, start, agg, depth);
                match tv1.fields_layout(prog, fields, 0, start, agg, depth) {
                    (tv2, Ok((agg2, end))) => {
                        lemma_variants_grows(
                            tv2,
                            prog,
                            variant_fields,
                            subs,
                            v + 1,
                            start,
                            TypesView::close_variant(agg2, fields.len() as u32, end),
                            depth,
                        );
                    },
                    _ => {},
                }
            },
            _ => {},
        }
    }
}

/// Laying out a struct, an enum or a union keeps the table aligned and
/// loses no type.
pub proof fn lemma_adt_grows(tv: TypesView, prog: Program, info: AdtInfo, subs: Seq<Sub>, depth: nat)
    requires
        tv.aligned(),
    ensures
        tv.grows_to(tv.adt_layout(prog, info, subs, depth).0),
    decreases depth, 1int, info.variant_fields@.len() + 1,
{
    match info.kind {
        crate::items::AdtKind::Struct => {
            lemma_variants_grows(
                tv,
                prog,
                info.variant_fields@,
                subs,
                0,
                0,
                TypesView::empty_agg(0, 1, info.needs_drop),
                depth,
            );
        },
        crate::items::AdtKind::EnumWithDiscriminant(d_ty) => {
            if depth > 0 {
                lemma_layout_grows(tv, prog, d_ty, (depth - 1) as nat);
                match tv.layout(prog, d_ty, (depth - 1) as nat) {
                    (tv1, Ok(d)) => {
                        lemma_variants_grows(
                            tv1,
                            prog,
                            info.variant_fields@,
                            subs,
                            0,
                            d.size,
                            TypesView::empty_agg(d.size, d.align, info.needs_drop),
                            depth,
                        );
                    },
                    _ => {},
                }
            }
        },
        crate::items::AdtKind::EnumNonZero => {
            lemma_variants_grows(
                tv,
                prog,
                info.variant_fields@,
                subs,
                0,
                0,
                TypesView::empty_agg(0, 1, info.needs_drop),
                depth,
            );
        },
    }
}

/// The layout of a type is computed once: a second request, with whatever
/// nesting limit, returns the same layout and leaves the table as it is.
pub proof fn lemma_layout_twice(tv: TypesView, prog: Program, ty: Type, depth: nat, again: nat)
    requires
        tv.aligned(),
        tv.layout(prog, ty, depth).1 is Ok,
    ensures
        tv.layout(prog, ty, depth).0.layout(prog, ty, again) == tv.layout(prog, ty, depth),
{
    if tv.layouts[ty.0 as int] is None {
        lemma_compute_grows(tv, prog, ty, depth);
    }
}

/// Candidates are tried in their declared order and the first that
/// applies wins: where the candidate at index `i` applies, the search from
/// `i` on selects it, whatever follows in the list.
pub proof fn lemma_first_match_wins(
    tv: TypesView,
    prog: Program,
    impls: Seq<TraitImpl>,
    for_tys: Seq<Sub>,
    i: int,
    depth: nat,
)
    requires
        0 <= i < impls.len(),
        i <= u32::MAX,
        tv.check_trait_impl(prog, for_tys, impls[i], depth).1 matches Ok(Some(_)),
    ensures
        tv.find_listed(prog, impls, for_tys, i, depth).1 matches Ok(Some((c, ts))) && c
            == ImplChoice::Listed(i as u32) && tv.check_trait_impl(
            prog,
            for_tys,
            impls[i],
            depth,
        ).1 == Ok::<Option<Seq<Sub>>, CompileError>(Some(ts)),
{
}

/// The selection depends on nothing but the type table, the program, the
/// list of implementations and the query: two searches from the same
/// inputs select the same implementation with the same substitutions.
pub proof fn lemma_selection_deterministic(
    tv1: TypesView,
    tv2: TypesView,
    prog: Program,
    impls1: Seq<TraitImpl>,
    impls2: Seq<TraitImpl>,
    for_tys1: Seq<Sub>,
    for_tys2: Seq<Sub>,
    depth: nat,
)
    requires
        tv1 == tv2,
        impls1 == impls2,
        for_tys1 == for_tys2,
    ensures
        tv1.find_listed(prog, impls1, for_tys1, 0, depth) == tv2.find_listed(
            prog,
            impls2,
            for_tys2,
            0,
            depth,
        ),
{
}

} // verus!
