//! Trait resolution: unification of substitution lists against the
//! implementations of a trait, checking of their bounds, and resolution of
//! associated types.

use vstd::prelude::*;
use std::sync::Arc;
use crate::error::CompileError;
use crate::ids::{ItemId, ItemRef};
use crate::ir::{FnTrait, IRFunction};
use crate::items::{
    AdtKind, AssocValue, BoundKind, BuiltinTrait, GenericCounts, IRFlag, ItemKind, TraitImpl,
};
use crate::program::Program;
use crate::types::{ListId, Sub, SubList, Type, TypeContext, TypeKind, TypesView};

verus! {

/// The side of a unification that a parameter stands on: `Lhs` is the
/// receiver, `Rhs` the candidate.
#[derive(PartialEq, Eq, Debug, Clone, Copy, Structural)]
pub enum SubSide {
    Lhs,
    Rhs,
}

/// One binding found by unification: parameter `n` of `side` is `val`.
#[derive(PartialEq, Eq, Debug, Clone, Copy, Structural)]
pub struct SubEntry {
    pub side: SubSide,
    pub n: u32,
    pub val: Type,
}

/// The bindings found by unification, in the order in which they were found.
pub struct SubMap {
    pub map: Vec<SubEntry>,
}

/// The implementation that resolution selected.
#[derive(PartialEq, Eq, Debug, Clone, Copy, Structural)]
pub enum ImplChoice {
    /// The implementation at this index of the trait's list.
    Listed(u32),
    /// The implementation that follows from the shape of the type.
    Builtin(BuiltinTrait),
}

/// The first index at or after `from` that binds parameter `n` of `side`.
pub open spec fn find_entry(map: Seq<SubEntry>, side: SubSide, n: u32, from: int) -> int
    decreases map.len() - from,
{
    if from < 0 || from >= map.len() {
        map.len() as int
    } else if map[from].side == side && map[from].n == n {
        from
    } else {
        find_entry(map, side, n, from + 1)
    }
}

/// Binding parameter `n` of `side` to `val`: a new binding is appended; an
/// old one stays and must agree.
pub open spec fn set_entry(map: Seq<SubEntry>, side: SubSide, n: u32, val: Type) -> (
    Seq<SubEntry>,
    bool,
) {
    let i = find_entry(map, side, n, 0);
    if i < map.len() {
        (map, map[i].val == val)
    } else {
        (map.push(SubEntry { side, n, val }), true)
    }
}

/// Writing the bindings of one side, from index `i` on, into a substitution list.
pub open spec fn apply_entries(map: Seq<SubEntry>, side: SubSide, target: Seq<Sub>, i: int) -> Result<
    Seq<Sub>,
    CompileError,
>
    decreases map.len() - i,
{
    if i < 0 || i >= map.len() {
        Ok(target)
    } else if map[i].side == side {
        if map[i].n < target.len() {
            apply_entries(map, side, target.update(map[i].n as int, Sub::Type(map[i].val)), i + 1)
        } else {
            Err(CompileError::MissingSub)
        }
    } else {
        apply_entries(map, side, target, i + 1)
    }
}

/// Whether a binding of the side exists from index `i` on.
pub open spec fn has_side(map: Seq<SubEntry>, side: SubSide, i: int) -> bool
    decreases map.len() - i,
{
    if i < 0 || i >= map.len() {
        false
    } else {
        map[i].side == side || has_side(map, side, i + 1)
    }
}

/// Kinds that match nothing but themselves and parameters.
pub open spec fn is_rigid(k: TypeKind) -> bool {
    k is Adt || k is Ptr || k is Ref || k is Bool || k is Char || k is Never || k is Int
        || k is Float
}

impl TypesView {
    /// Unification of two types. Concrete types must be equal; a parameter
    /// binds to the type on the other side. The bindings so far are carried
    /// in `map`.
    pub open spec fn type_match(self, lhs: Type, rhs: Type, map: Seq<SubEntry>) -> Result<
        (Seq<SubEntry>, bool),
        CompileError,
    >
        decreases lhs.0, 1int, 0int,
    {
        if !self.has_type(lhs) || !self.has_type(rhs) {
            Err(CompileError::BadType)
        } else if lhs == rhs && self.concrete(lhs) {
            Ok((map, true))
        } else {
            match (self.kind(lhs), self.kind(rhs)) {
                (TypeKind::Adt(a, la), TypeKind::Adt(b, lb)) => {
                    if a != b {
                        Ok((map, false))
                    } else {
                        self.lists_match(la, lb, map, lhs.0)
                    }
                },
                (TypeKind::Ptr(c1, m1), TypeKind::Ptr(c2, m2)) => {
                    if m1 != m2 {
                        Ok((map, false))
                    } else if c1.0 >= lhs.0 {
                        Err(CompileError::BadType)
                    } else {
                        self.type_match(c1, c2, map)
                    }
                },
                (TypeKind::Ref(c1, m1), TypeKind::Ref(c2, m2)) => {
                    if m1 != m2 {
                        Ok((map, false))
                    } else if c1.0 >= lhs.0 {
                        Err(CompileError::BadType)
                    } else {
                        self.type_match(c1, c2, map)
                    }
                },
                (TypeKind::Slice(c1), TypeKind::Slice(c2)) => {
                    if c1.0 >= lhs.0 {
                        Err(CompileError::BadType)
                    } else {
                        self.type_match(c1, c2, map)
                    }
                },
                (TypeKind::Tuple(la), TypeKind::Tuple(lb)) => {
                    if !self.has_list(la) || !self.has_list(lb) {
                        Err(CompileError::BadType)
                    } else if self.list(la).len() != self.list(lb).len() {
                        Ok((map, false))
                    } else {
                        self.subs_match(self.list(la), self.list(lb), map, lhs.0, 0)
                    }
                },
                (TypeKind::Param(_), TypeKind::Param(_)) => Err(CompileError::Unsupported),
                (_, TypeKind::Param(n)) => Ok(set_entry(map, SubSide::Rhs, n, lhs)),
                (TypeKind::Param(n), _) => Ok(set_entry(map, SubSide::Lhs, n, rhs)),
                (k1, k2) => if is_rigid(k1) || is_rigid(k2) {
                    Ok((map, false))
                } else {
                    Err(CompileError::Unsupported)
                },
            }
        }
    }

    pub open spec fn lists_match(self, la: ListId, lb: ListId, map: Seq<SubEntry>, bound: u32) -> Result<
        (Seq<SubEntry>, bool),
        CompileError,
    >
        decreases bound, 0int, 1int, 0int,
    {
        if !self.has_list(la) || !self.has_list(lb) {
            Err(CompileError::BadType)
        } else {
            self.subs_match(self.list(la), self.list(lb), map, bound, 0)
        }
    }

    /// Unification of two substitution lists, entry by entry from `i` on, as
    /// far as the shorter one goes. Types on the left must be below `bound`.
    pub open spec fn subs_match(
        self,
        lhs: Seq<Sub>,
        rhs: Seq<Sub>,
        map: Seq<SubEntry>,
        bound: u32,
        i: int,
    ) -> Result<(Seq<SubEntry>, bool), CompileError>
        decreases bound, 0int, 0int, lhs.len() - i,
    {
        if i < 0 || i >= lhs.len() || i >= rhs.len() {
            Ok((map, true))
        } else {
            match (lhs[i], rhs[i]) {
                (Sub::Type(a), Sub::Type(b)) => {
                    if a.0 >= bound {
                        Err(CompileError::BadType)
                    } else {
                        match self.type_match(a, b, map) {
                            Ok((m2, ok)) => if ok {
                                self.subs_match(lhs, rhs, m2, bound, i + 1)
                            } else {
                                Ok((m2, false))
                            },
                            Err(e) => Err(e),
                        }
                    }
                },
                (x, y) => if x != y {
                    Ok((map, false))
                } else {
                    self.subs_match(lhs, rhs, map, bound, i + 1)
                },
            }
        }
    }

    /// Unification of the receiver's types with those of a candidate.
    pub open spec fn trait_match(self, lhs: Seq<Sub>, rhs: Seq<Sub>) -> Result<
        Option<Seq<SubEntry>>,
        CompileError,
    > {
        match self.subs_match(lhs, rhs, Seq::empty(), u32::MAX, 0) {
            Ok((map, ok)) => if ok {
                Ok(Some(map))
            } else {
                Ok(None)
            },
            Err(e) => Err(e),
        }
    }

    /// The placeholders for `count` type parameters from index `first + i` on.
    pub open spec fn summary_types(self, first: u32, count: u32, i: int, acc: Seq<Sub>) -> (
        TypesView,
        Result<Seq<Sub>, CompileError>,
    )
        decreases count - i,
    {
        if i < 0 || i >= count {
            (self, Ok(acc))
        } else if first + i > u32::MAX {
            (self, Err(CompileError::TooLarge))
        } else {
            match self.intern(TypeKind::Param((first + i) as u32)) {
                (tv, Ok(t)) => tv.summary_types(first, count, i + 1, acc.push(Sub::Type(t))),
                (tv, Err(e)) => (tv, Err(e)),
            }
        }
    }

    /// The substitution list of an implementation before unification: its
    /// lifetimes, then a placeholder for each type parameter.
    pub open spec fn from_summary(self, g: GenericCounts) -> (
        TypesView,
        Result<Seq<Sub>, CompileError>,
    ) {
        if g.consts > 0 {
            (self, Err(CompileError::Unsupported))
        } else {
            self.summary_types(
                g.lifetimes,
                g.types,
                0,
                Seq::new(g.lifetimes as nat, |i: int| Sub::Lifetime),
            )
        }
    }

    /// Whether the builtin trait holds of the first of the types by its shape.
    pub open spec fn builtin_applies(self, prog: Program, b: BuiltinTrait, for_tys: Seq<Sub>) -> bool {
        if for_tys.len() == 0 {
            false
        } else {
            match for_tys[0] {
                Sub::Type(t) => self.has_type(t) && match b {
                    BuiltinTrait::Sized => self.sized(prog, t, crate::layout::SIZED_DEPTH as nat),
                    BuiltinTrait::Tuple => self.kind(t) is Tuple,
                    BuiltinTrait::DiscriminantKind => match self.kind(t) {
                        TypeKind::Adt(item, _) => match prog.adt_of(item) {
                            Ok(info) => info.kind is EnumWithDiscriminant,
                            Err(_) => false,
                        },
                        _ => false,
                    },
                    _ => match self.kind(t) {
                        TypeKind::Closure(id, _, _) => id < prog.closures@.len(),
                        _ => false,
                    },
                },
                _ => false,
            }
        }
    }

    /// The associated type that a builtin trait gives for the first of the
    /// types: the discriminant's type, or the output of a closure.
    pub open spec fn builtin_assoc_type(self, prog: Program, b: BuiltinTrait, for_tys: Seq<Sub>) -> (
        TypesView,
        Result<Type, CompileError>,
    ) {
        if !self.builtin_applies(prog, b, for_tys) {
            (self, Err(CompileError::NoImpl))
        } else {
            match self.kind(for_tys[0]->Type_0) {
                TypeKind::Adt(item, _) => match prog.adt_of(item) {
                    Ok(info) => match info.kind {
                        AdtKind::EnumWithDiscriminant(d) => (self, Ok(d)),
                        _ => (self, Err(CompileError::NoImpl)),
                    },
                    Err(e) => (self, Err(e)),
                },
                TypeKind::Closure(id, _, l) => if id >= prog.closures@.len() {
                    (self, Err(CompileError::NoImpl))
                } else {
                    match prog.closures@[id as int].ir_base {
                        Some(ir) => if self.has_list(l) {
                            self.sub(ir.sig.output, self.list(l))
                        } else {
                            (self, Err(CompileError::BadType))
                        },
                        None => (self, Err(CompileError::MissingIr)),
                    }
                },
                _ => (self, Err(CompileError::NoImpl)),
            }
        }
    }

    /// The type that an associated type item stands for with the given substitutions.
    pub open spec fn resolve_associated_ty(
        self,
        prog: Program,
        item: ItemRef,
        subs: Seq<Sub>,
        depth: nat,
    ) -> (TypesView, Result<Type, CompileError>)
        decreases depth, 5int, 0int,
    {
        if !prog.has_item(item) {
            (self, Err(CompileError::ItemMismatch))
        } else {
            match prog.item_at(item).kind {
                ItemKind::AssociatedType { virtual_info } => {
                    let t = ItemRef { crate_id: item.crate_id, item_id: virtual_info.trait_id };
                    match self.find_trait_impl(prog, t, subs, depth) {
                        (tv, Ok(Some((ImplChoice::Listed(i), ts)))) => {
                            let values = prog.item_at(t).impls()[i as int].assoc_values@;
                            if virtual_info.member_index < values.len() {
                                match values[virtual_info.member_index as int] {
                                    Some(AssocValue::Type(ty)) => tv.sub(ty, ts),
                                    _ => (tv, Err(CompileError::NoImpl)),
                                }
                            } else {
                                (tv, Err(CompileError::NoImpl))
                            }
                        },
                        (tv, Ok(Some((ImplChoice::Builtin(b), _)))) => tv.builtin_assoc_type(
                            prog,
                            b,
                            subs,
                        ),
                        (tv, Ok(None)) => (tv, Err(CompileError::NoImpl)),
                        (tv, Err(e)) => (tv, Err(e)),
                    }
                },
                _ => (self, Err(CompileError::ItemMismatch)),
            }
        }
    }

    /// The implementation of a trait for the given types, and the
    /// substitutions for its members: the builtin one where the trait is
    /// tagged and the shape fits, else the first of the list that unifies
    /// and whose bounds hold.
    pub open spec fn find_trait_impl(
        self,
        prog: Program,
        trait_item: ItemRef,
        for_tys: Seq<Sub>,
        depth: nat,
    ) -> (TypesView, Result<Option<(ImplChoice, Seq<Sub>)>, CompileError>)
        decreases depth, 4int, 0int,
    {
        if !prog.has_item(trait_item) || !(prog.item_at(trait_item).kind is Trait) {
            (self, Err(CompileError::ItemMismatch))
        } else {
            match prog.item_at(trait_item).builtin() {
                Some(b) => if self.builtin_applies(prog, b, for_tys) {
                    (self, Ok(Some((ImplChoice::Builtin(b), Seq::empty()))))
                } else {
                    self.find_listed(prog, prog.item_at(trait_item).impls(), for_tys, 0, depth)
                },
                None => self.find_listed(
                    prog,
                    prog.item_at(trait_item).impls(),
                    for_tys,
                    0,
                    depth,
                ),
            }
        }
    }

    /// The first implementation from index `i` on that applies.
    pub open spec fn find_listed(
        self,
        prog: Program,
        impls: Seq<TraitImpl>,
        for_tys: Seq<Sub>,
        i: int,
        depth: nat,
    ) -> (TypesView, Result<Option<(ImplChoice, Seq<Sub>)>, CompileError>)
        decreases depth, 3int, impls.len() - i,
    {
        if i < 0 || i >= impls.len() || i > u32::MAX {
            (self, Ok(None))
        } else {
            match self.check_trait_impl(prog, for_tys, impls[i], depth) {
                (tv, Ok(Some(ts))) => (tv, Ok(Some((ImplChoice::Listed(i as u32), ts)))),
                (tv, Ok(None)) => tv.find_listed(prog, impls, for_tys, i + 1, depth),
                (tv, Err(e)) => (tv, Err(e)),
            }
        }
    }

    /// Whether a candidate applies: its types unify with the receiver's and
    /// its bounds hold. Yields the concrete substitutions of the candidate.
    pub open spec fn check_trait_impl(
        self,
        prog: Program,
        for_tys: Seq<Sub>,
        cand: TraitImpl,
        depth: nat,
    ) -> (TypesView, Result<Option<Seq<Sub>>, CompileError>)
        decreases depth, 2int, 0int,
    {
        match self.trait_match(for_tys, cand.for_types.list@) {
            Err(e) => (self, Err(e)),
            Ok(None) => (self, Ok(None)),
            Ok(Some(map)) => match self.from_summary(cand.generics) {
                (tv1, Err(e)) => (tv1, Err(e)),
                (tv1, Ok(ts0)) => match apply_entries(map, SubSide::Rhs, ts0, 0) {
                    Err(e) => (tv1, Err(e)),
                    Ok(ts1) => match tv1.check_bounds(prog, cand.bounds@, 0, ts1, depth) {
                        (tv2, Ok(Some(ts))) => if tv2.entries_concrete(ts, u32::MAX, 0) {
                            (tv2, Ok(Some(ts)))
                        } else {
                            (tv2, Err(CompileError::NotConcrete))
                        },
                        (tv2, Ok(None)) => (tv2, Ok(None)),
                        (tv2, Err(e)) => (tv2, Err(e)),
                    },
                },
            },
        }
    }

    /// Checking the bounds from index `i` on against the candidate's
    /// substitutions, which a projection bound may complete.
    pub open spec fn check_bounds(
        self,
        prog: Program,
        bounds: Seq<BoundKind>,
        i: int,
        ts: Seq<Sub>,
        depth: nat,
    ) -> (TypesView, Result<Option<Seq<Sub>>, CompileError>)
        decreases depth, 1int, bounds.len() - i,
    {
        if i < 0 || i >= bounds.len() {
            (self, Ok(Some(ts)))
        } else if depth == 0 {
            (self, Err(CompileError::DepthExceeded))
        } else {
            match bounds[i] {
                BoundKind::Trait(b) => match self.sub_entries(
                    b.subs.list@,
                    ts,
                    u32::MAX,
                    0,
                    Seq::empty(),
                ) {
                    (tv1, Ok(tys)) => match tv1.find_trait_impl(
                        prog,
                        b.item,
                        tys,
                        (depth - 1) as nat,
                    ) {
                        (tv2, Ok(Some(_))) => tv2.check_bounds(prog, bounds, i + 1, ts, depth),
                        (tv2, Ok(None)) => (tv2, Ok(None)),
                        (tv2, Err(e)) => (tv2, Err(e)),
                    },
                    (tv1, Err(e)) => (tv1, Err(e)),
                },
                BoundKind::Projection(a, eq_ty) => match self.sub_entries(
                    a.subs.list@,
                    ts,
                    u32::MAX,
                    0,
                    Seq::empty(),
                ) {
                    (tv1, Ok(tys)) => match tv1.resolve_associated_ty(
                        prog,
                        a.item,
                        tys,
                        (depth - 1) as nat,
                    ) {
                        (tv2, Ok(resolved)) => match tv2.type_match(
                            resolved,
                            eq_ty,
                            Seq::empty(),
                        ) {
                            Ok((m, ok)) => if !ok {
                                (tv2, Ok(None))
                            } else if has_side(m, SubSide::Lhs, 0) {
                                (tv2, Err(CompileError::Unsupported))
                            } else {
                                match apply_entries(m, SubSide::Rhs, ts, 0) {
                                    Ok(ts2) => tv2.check_bounds(prog, bounds, i + 1, ts2, depth),
                                    Err(e) => (tv2, Err(e)),
                                }
                            },
                            Err(e) => (tv2, Err(e)),
                        },
                        (tv2, Err(e)) => (tv2, Err(e)),
                    },
                    (tv1, Err(e)) => (tv1, Err(e)),
                },
            }
        }
    }
}


/// Whether resolution found an implementation.
pub open spec fn found_view(r: Result<Option<(ImplChoice, Seq<Sub>)>, CompileError>) -> Result<
    bool,
    CompileError,
> {
    match r {
        Ok(c) => Ok(c is Some),
        Err(e) => Err(e),
    }
}

/// The outcome of resolution with the substitutions as a sequence.
pub open spec fn choice_view(r: Result<Option<(ImplChoice, SubList)>, CompileError>) -> Result<
    Option<(ImplChoice, Seq<Sub>)>,
    CompileError,
> {
    match r {
        Ok(Some((c, ts))) => Ok(Some((c, ts.list@))),
        Ok(None) => Ok(None),
        Err(e) => Err(e),
    }
}

pub open spec fn subs_view(r: Result<Option<SubList>, CompileError>) -> Result<
    Option<Seq<Sub>>,
    CompileError,
> {
    match r {
        Ok(Some(ts)) => Ok(Some(ts.list@)),
        Ok(None) => Ok(None),
        Err(e) => Err(e),
    }
}

pub open spec fn list_view(r: Result<SubList, CompileError>) -> Result<Seq<Sub>, CompileError> {
    match r {
        Ok(ts) => Ok(ts.list@),
        Err(e) => Err(e),
    }
}

pub open spec fn map_view(r: Result<Option<SubMap>, CompileError>) -> Result<
    Option<Seq<SubEntry>>,
    CompileError,
> {
    match r {
        Ok(Some(m)) => Ok(Some(m.map@)),
        Ok(None) => Ok(None),
        Err(e) => Err(e),
    }
}

/// The outcome of a unification step: the bindings afterwards and the verdict.
pub open spec fn match_view(r: Result<bool, CompileError>, map: Seq<SubEntry>) -> Result<
    (Seq<SubEntry>, bool),
    CompileError,
> {
    match r {
        Ok(b) => Ok((map, b)),
        Err(e) => Err(e),
    }
}

impl SubMap {
    pub fn new() -> (r: Self)
        ensures
            r.map@ == Seq::<SubEntry>::empty(),
    {
        SubMap { map: Vec::new() }
    }

    /// Binds parameter `n` of `side` to `val`. Returns whether the binding
    /// agrees with what the parameter was bound to before.
    pub fn set(&mut self, side: SubSide, n: u32, val: Type) -> (r: bool)
        ensures
            (final(self).map@, r) == set_entry(old(self).map@, side, n, val),
    {
        let mut i: usize = 0;
        while i < self.map.len()
            invariant
                i <= self.map.len(),
                self.map == old(self).map,
                find_entry(self.map@, side, n, 0) == find_entry(self.map@, side, n, i as int),
            decreases self.map.len() - i,
        {
            let e = self.map[i];
            if e.side == side && e.n == n {
                return e.val == val;
            }
            i += 1;
        }
        self.map.push(SubEntry { side, n, val });
        true
    }

    /// Writes the bindings of one side into a substitution list.
    pub fn apply_to(&self, target_side: SubSide, target_subs: &mut SubList) -> (r: Result<
        (),
        CompileError,
    >)
        ensures
            match r {
                Ok(_) => apply_entries(self.map@, target_side, old(target_subs).list@, 0) == Ok::<
                    Seq<Sub>,
                    CompileError,
                >(final(target_subs).list@),
                Err(e) => apply_entries(self.map@, target_side, old(target_subs).list@, 0) == Err::<
                    Seq<Sub>,
                    CompileError,
                >(e),
            },
    {
        let mut i: usize = 0;
        while i < self.map.len()
            invariant
                i <= self.map.len(),
                apply_entries(self.map@, target_side, target_subs.list@, i as int) == apply_entries(
                    self.map@,
                    target_side,
                    old(target_subs).list@,
                    0,
                ),
            decreases self.map.len() - i,
        {
            let e = self.map[i];
            if e.side == target_side {
                if (e.n as usize) < target_subs.list.len() {
                    target_subs.list.set(e.n as usize, Sub::Type(e.val));
                } else {
                    return Err(CompileError::MissingSub);
                }
            }
            i += 1;
        }
        Ok(())
    }

    /// Whether no parameter of the side is bound.
    pub fn assert_empty(&self, target_side: SubSide) -> (r: bool)
        ensures
            r == !has_side(self.map@, target_side, 0),
    {
        let mut i: usize = 0;
        while i < self.map.len()
            invariant
                i <= self.map.len(),
                has_side(self.map@, target_side, 0) == has_side(self.map@, target_side, i as int),
            decreases self.map.len() - i,
        {
            if self.map[i].side == target_side {
                return false;
            }
            i += 1;
        }
        true
    }
}

fn rigid(k: TypeKind) -> (r: bool)
    ensures
        r == is_rigid(k),
{
    match k {
        TypeKind::Adt(_, _) | TypeKind::Ptr(_, _) | TypeKind::Ref(_, _) | TypeKind::Bool
        | TypeKind::Char | TypeKind::Never | TypeKind::Int(_, _) | TypeKind::Float(_) => true,
        _ => false,
    }
}

/// Compares types loosely: a parameter matches anything and is bound to it.
pub fn type_match(types: &TypeContext, lhs_ty: Type, rhs_ty: Type, res_map: &mut SubMap) -> (r:
    Result<bool, CompileError>)
    ensures
        match_view(r, final(res_map).map@) == types@.type_match(
            lhs_ty,
            rhs_ty,
            old(res_map).map@,
        ),
    decreases lhs_ty.0, 1int, 0int,
{
    let k1 = types.kind(lhs_ty)?;
    let k2 = types.kind(rhs_ty)?;
    if lhs_ty == rhs_ty && types.is_concrete(lhs_ty) {
        return Ok(true);
    }
    match (k1, k2) {
        (TypeKind::Adt(a, la), TypeKind::Adt(b, lb)) => {
            if a != b {
                Ok(false)
            } else {
                lists_match(types, la, lb, res_map, lhs_ty.0)
            }
        },
        (TypeKind::Ptr(c1, m1), TypeKind::Ptr(c2, m2)) => {
            if m1 != m2 {
                Ok(false)
            } else if c1.0 >= lhs_ty.0 {
                Err(CompileError::BadType)
            } else {
                type_match(types, c1, c2, res_map)
            }
        },
        (TypeKind::Ref(c1, m1), TypeKind::Ref(c2, m2)) => {
            if m1 != m2 {
                Ok(false)
            } else if c1.0 >= lhs_ty.0 {
                Err(CompileError::BadType)
            } else {
                type_match(types, c1, c2, res_map)
            }
        },
        (TypeKind::Slice(c1), TypeKind::Slice(c2)) => {
            if c1.0 >= lhs_ty.0 {
                Err(CompileError::BadType)
            } else {
                type_match(types, c1, c2, res_map)
            }
        },
        (TypeKind::Tuple(la), TypeKind::Tuple(lb)) => {
            let a = types.list(la)?;
            let b = types.list(lb)?;
            if a.len() != b.len() {
                Ok(false)
            } else {
                subs_match_below(types, &a, &b, res_map, lhs_ty.0)
            }
        },
        (TypeKind::Param(_), TypeKind::Param(_)) => Err(CompileError::Unsupported),
        (_, TypeKind::Param(n)) => Ok(res_map.set(SubSide::Rhs, n, lhs_ty)),
        (TypeKind::Param(n), _) => Ok(res_map.set(SubSide::Lhs, n, rhs_ty)),
        (k1, k2) => if rigid(k1) || rigid(k2) {
            Ok(false)
        } else {
            Err(CompileError::Unsupported)
        },
    }
}

fn lists_match(types: &TypeContext, la: ListId, lb: ListId, res_map: &mut SubMap, bound: u32) -> (r:
    Result<bool, CompileError>)
    ensures
        match_view(r, final(res_map).map@) == types@.lists_match(
            la,
            lb,
            old(res_map).map@,
            bound,
        ),
    decreases bound, 0int, 1int, 0int,
{
    let a = types.list(la)?;
    let b = types.list(lb)?;
    subs_match_below(types, &a, &b, res_map, bound)
}

fn subs_match_below(
    types: &TypeContext,
    lhs: &Vec<Sub>,
    rhs: &Vec<Sub>,
    res_map: &mut SubMap,
    bound: u32,
) -> (r: Result<bool, CompileError>)
    ensures
        match_view(r, final(res_map).map@) == types@.subs_match(
            lhs@,
            rhs@,
            old(res_map).map@,
            bound,
            0,
        ),
    decreases bound, 0int, 0int, lhs.len(),
{
    let mut i: usize = 0;
    while i < lhs.len() && i < rhs.len()
        invariant
            i <= lhs.len(),
            types@.subs_match(lhs@, rhs@, res_map.map@, bound, i as int) == types@.subs_match(
                lhs@,
                rhs@,
                old(res_map).map@,
                bound,
                0,
            ),
        decreases lhs.len() - i,
    {
        match (lhs[i], rhs[i]) {
            (Sub::Type(a), Sub::Type(b)) => {
                if a.0 >= bound {
                    return Err(CompileError::BadType);
                }
                if !type_match(types, a, b, res_map)? {
                    return Ok(false);
                }
            },
            (x, y) => {
                if x != y {
                    return Ok(false);
                }
            },
        }
        i += 1;
    }
    Ok(true)
}

/// Compares two substitution lists entry by entry, as far as the shorter one goes.
pub fn subs_match(types: &TypeContext, lhs: &SubList, rhs: &SubList, res_map: &mut SubMap) -> (r:
    Result<bool, CompileError>)
    ensures
        match_view(r, final(res_map).map@) == types@.subs_match(
            lhs.list@,
            rhs.list@,
            old(res_map).map@,
            u32::MAX,
            0,
        ),
{
    subs_match_below(types, &lhs.list, &rhs.list, res_map, u32::MAX)
}

/// Compares a list of concrete types to the types of a candidate.
pub fn trait_match(types: &TypeContext, lhs: &SubList, rhs: &SubList) -> (r: Result<
    Option<SubMap>,
    CompileError,
>)
    ensures
        map_view(r) == types@.trait_match(lhs.list@, rhs.list@),
{
    let mut res_map = SubMap::new();
    if subs_match(types, lhs, rhs, &mut res_map)? {
        Ok(Some(res_map))
    } else {
        Ok(None)
    }
}

impl SubList {
    pub fn new(list: Vec<Sub>) -> (r: Self)
        ensures
            r.list == list,
    {
        SubList { list }
    }

    /// Whether every type of the list is free of parameter placeholders.
    pub fn is_concrete(&self, types: &TypeContext) -> (r: bool)
        ensures
            r == types@.entries_concrete(self.list@, u32::MAX, 0),
    {
        types.are_concrete(&self.list, u32::MAX)
    }

    /// Substitutes `subs` into every type of the list.
    pub fn sub(&self, types: &mut TypeContext, subs: &SubList) -> (r: Result<SubList, CompileError>)
        ensures
            (final(types)@, list_view(r)) == old(types)@.sub_entries(
                self.list@,
                subs.list@,
                u32::MAX,
                0,
                Seq::empty(),
            ),
    {
        let v = types.sub_entries(&self.list, &subs.list, u32::MAX)?;
        Ok(SubList { list: v })
    }

    /// The list of an implementation before unification: its lifetimes,
    /// then a placeholder for each type parameter.
    pub fn from_summary(types: &mut TypeContext, g: &GenericCounts) -> (r: Result<
        SubList,
        CompileError,
    >)
        ensures
            (final(types)@, list_view(r)) == old(types)@.from_summary(*g),
    {
        if g.consts > 0 {
            return Err(CompileError::Unsupported);
        }
        let mut out: Vec<Sub> = Vec::new();
        let mut k: u32 = 0;
        while k < g.lifetimes
            invariant
                k <= g.lifetimes,
                out@ == Seq::new(k as nat, |i: int| Sub::Lifetime),
            decreases g.lifetimes - k,
        {
            out.push(Sub::Lifetime);
            proof {
                assert(out@ =~= Seq::new((k + 1) as nat, |i: int| Sub::Lifetime));
            }
            k += 1;
        }
        let mut i: u32 = 0;
        while i < g.types
            invariant
                i <= g.types,
                g.consts == 0,
                types@.summary_types(g.lifetimes, g.types, i as int, out@) == old(types)@.summary_types(
                    g.lifetimes,
                    g.types,
                    0,
                    Seq::new(g.lifetimes as nat, |i: int| Sub::Lifetime),
                ),
            decreases g.types - i,
        {
            if g.lifetimes > u32::MAX - i {
                return Err(CompileError::TooLarge);
            }
            let t = types.intern(TypeKind::Param(g.lifetimes + i))?;
            out.push(Sub::Type(t));
            i += 1;
        }
        Ok(SubList { list: out })
    }
}

impl<'vm> Program<'vm> {
    fn builtin_applies(&self, types: &TypeContext, b: BuiltinTrait, for_tys: &SubList) -> (r: bool)
        ensures
            r == types@.builtin_applies(*self, b, for_tys.list@),
    {
        if for_tys.list.len() == 0 {
            return false;
        }
        match for_tys.list[0] {
            Sub::Type(t) => {
                let k = match types.kind(t) {
                    Ok(k) => k,
                    Err(_) => {
                        return false;
                    },
                };
                match b {
                    BuiltinTrait::Sized => types.is_sized(self, t, crate::layout::SIZED_DEPTH),
                    BuiltinTrait::Tuple => match k {
                        TypeKind::Tuple(_) => true,
                        _ => false,
                    },
                    BuiltinTrait::DiscriminantKind => match k {
                        TypeKind::Adt(item, _) => match self.adt_info(item) {
                            Ok(info) => match info.kind {
                                AdtKind::EnumWithDiscriminant(_) => true,
                                _ => false,
                            },
                            Err(_) => false,
                        },
                        _ => false,
                    },
                    _ => match k {
                        TypeKind::Closure(id, _, _) => (id as usize) < self.closures.len(),
                        _ => false,
                    },
                }
            },
            _ => false,
        }
    }

    fn builtin_assoc_type(&self, types: &mut TypeContext, b: BuiltinTrait, for_tys: &SubList) -> (r:
        Result<Type, CompileError>)
        ensures
            (final(types)@, r) == old(types)@.builtin_assoc_type(*self, b, for_tys.list@),
    {
        if !self.builtin_applies(types, b, for_tys) {
            return Err(CompileError::NoImpl);
        }
        let t = match for_tys.list[0] {
            Sub::Type(t) => t,
            _ => {
                return Err(CompileError::NoImpl);
            },
        };
        match types.kind(t)? {
            TypeKind::Adt(item, _) => {
                let info = self.adt_info(item)?;
                match info.kind {
                    AdtKind::EnumWithDiscriminant(d) => Ok(d),
                    _ => Err(CompileError::NoImpl),
                }
            },
            TypeKind::Closure(id, _, l) => {
                if (id as usize) >= self.closures.len() {
                    return Err(CompileError::NoImpl);
                }
                match &self.closures[id as usize].ir_base {
                    Some(ir) => {
                        let subs = types.list(l)?;
                        types.sub(ir.sig.output, &subs)
                    },
                    None => Err(CompileError::MissingIr),
                }
            },
            _ => Err(CompileError::NoImpl),
        }
    }

    /// The type that an associated type item stands for with the given
    /// substitutions. `NoImpl` when no implementation gives the type.
    pub fn resolve_associated_ty(
        &self,
        types: &mut TypeContext,
        item: ItemRef,
        subs: &SubList,
        depth: u32,
    ) -> (r: Result<Type, CompileError>)
        ensures
            (final(types)@, r) == old(types)@.resolve_associated_ty(
                *self,
                item,
                subs.list@,
                depth as nat,
            ),
        decreases depth, 5int, 0int,
    {
        let it = self.item(item)?;
        match &it.kind {
            ItemKind::AssociatedType { virtual_info } => {
                let t = ItemRef { crate_id: item.crate_id, item_id: virtual_info.trait_id };
                match self.find_trait_impl(types, t, subs, depth)? {
                    Some((ImplChoice::Listed(i), ts)) => {
                        let trait_it = self.item(t)?;
                        match &trait_it.kind {
                            ItemKind::Trait { impl_list, .. } => {
                                if (i as usize) >= impl_list.len() {
                                    proof {
                                        lemma_listed_in_range(
                                            old(types)@,
                                            *self,
                                            trait_it.impls(),
                                            subs.list@,
                                            0,
                                            depth as nat,
                                        );
                                        assert(false);
                                    }
                                    return Err(CompileError::NoImpl);
                                }
                                let values = &impl_list[i as usize].assoc_values;
                                if (virtual_info.member_index as usize) < values.len() {
                                    match &values[virtual_info.member_index as usize] {
                                        Some(AssocValue::Type(ty)) => types.sub(*ty, &ts.list),
                                        _ => Err(CompileError::NoImpl),
                                    }
                                } else {
                                    Err(CompileError::NoImpl)
                                }
                            },
                            _ => Err(CompileError::ItemMismatch),
                        }
                    },
                    Some((ImplChoice::Builtin(b), _)) => self.builtin_assoc_type(types, b, subs),
                    None => Err(CompileError::NoImpl),
                }
            },
            _ => Err(CompileError::ItemMismatch),
        }
    }

    /// Finds the implementation of a trait for a list of types.
    pub fn find_trait_impl(
        &self,
        types: &mut TypeContext,
        trait_item: ItemRef,
        for_tys: &SubList,
        depth: u32,
    ) -> (r: Result<Option<(ImplChoice, SubList)>, CompileError>)
        ensures
            (final(types)@, choice_view(r)) == old(types)@.find_trait_impl(
                *self,
                trait_item,
                for_tys.list@,
                depth as nat,
            ),
        decreases depth, 4int, 0int,
    {
        let it = self.item(trait_item)?;
        match &it.kind {
            ItemKind::Trait { impl_list, builtin, .. } => {
                if let Some(b) = builtin {
                    if self.builtin_applies(types, *b, for_tys) {
                        return Ok(Some((ImplChoice::Builtin(*b), SubList { list: Vec::new() })));
                    }
                }
                self.find_listed(types, impl_list, for_tys, depth)
            },
            _ => Err(CompileError::ItemMismatch),
        }
    }

    fn find_listed(
        &self,
        types: &mut TypeContext,
        impl_list: &Vec<TraitImpl>,
        for_tys: &SubList,
        depth: u32,
    ) -> (r: Result<Option<(ImplChoice, SubList)>, CompileError>)
        ensures
            (final(types)@, choice_view(r)) == old(types)@.find_listed(
                *self,
                impl_list@,
                for_tys.list@,
                0,
                depth as nat,
            ),
        decreases depth, 3int, impl_list.len(),
    {
        let mut i: usize = 0;
        while i < impl_list.len() && i <= u32::MAX as usize
            invariant
                i <= impl_list.len(),
                types@.find_listed(*self, impl_list@, for_tys.list@, i as int, depth as nat)
                    == old(types)@.find_listed(*self, impl_list@, for_tys.list@, 0, depth as nat),
            decreases impl_list.len() - i,
        {
            match self.check_trait_impl(types, for_tys, &impl_list[i], depth)? {
                Some(ts) => {
                    return Ok(Some((ImplChoice::Listed(i as u32), ts)));
                },
                None => {},
            }
            i += 1;
        }
        Ok(None)
    }

    /// Whether a trait is implemented for a list of types.
    pub fn trait_has_impl(
        &self,
        types: &mut TypeContext,
        trait_item: ItemRef,
        for_tys: &SubList,
        depth: u32,
    ) -> (r: Result<bool, CompileError>)
        ensures
            final(types)@ == old(types)@.find_trait_impl(
                *self,
                trait_item,
                for_tys.list@,
                depth as nat,
            ).0,
            r == found_view(
                old(types)@.find_trait_impl(*self, trait_item, for_tys.list@, depth as nat).1,
            ),
        decreases depth, 4int, 1int,
    {
        match self.find_trait_impl(types, trait_item, for_tys, depth)? {
            Some(_) => Ok(true),
            None => Ok(false),
        }
    }

    /// Builds the substitution list of a candidate and checks it against the
    /// candidate's bounds.
    pub fn check_trait_impl(
        &self,
        types: &mut TypeContext,
        for_tys: &SubList,
        candidate: &TraitImpl,
        depth: u32,
    ) -> (r: Result<Option<SubList>, CompileError>)
        ensures
            (final(types)@, subs_view(r)) == old(types)@.check_trait_impl(
                *self,
                for_tys.list@,
                *candidate,
                depth as nat,
            ),
        decreases depth, 2int, 0int,
    {
        let sub_map = match trait_match(types, for_tys, &candidate.for_types)? {
            Some(m) => m,
            None => {
                return Ok(None);
            },
        };
        let mut trait_subs = SubList::from_summary(types, &candidate.generics)?;
        sub_map.apply_to(SubSide::Rhs, &mut trait_subs)?;
        if !self.check_bounds(types, &candidate.bounds, &mut trait_subs, depth)? {
            return Ok(None);
        }
        if !trait_subs.is_concrete(types) {
            return Err(CompileError::NotConcrete);
        }
        Ok(Some(trait_subs))
    }
}

/// The outcome of checking bounds: whether they hold, and the completed substitutions.
pub open spec fn bounds_view(r: Result<bool, CompileError>, ts: Seq<Sub>) -> Result<
    Option<Seq<Sub>>,
    CompileError,
> {
    match r {
        Ok(b) => if b {
            Ok(Some(ts))
        } else {
            Ok(None)
        },
        Err(e) => Err(e),
    }
}

impl<'vm> Program<'vm> {
    fn check_bounds(
        &self,
        types: &mut TypeContext,
        bounds: &Vec<BoundKind>,
        trait_subs: &mut SubList,
        depth: u32,
    ) -> (r: Result<bool, CompileError>)
        ensures
            (final(types)@, bounds_view(r, final(trait_subs).list@)) == old(types)@.check_bounds(
                *self,
                bounds@,
                0,
                old(trait_subs).list@,
                depth as nat,
            ),
        decreases depth, 1int, bounds.len(),
    {
        let mut i: usize = 0;
        while i < bounds.len()
            invariant
                i <= bounds.len(),
                types@.check_bounds(*self, bounds@, i as int, trait_subs.list@, depth as nat)
                    == old(types)@.check_bounds(
                    *self,
                    bounds@,
                    0,
                    old(trait_subs).list@,
                    depth as nat,
                ),
            decreases bounds.len() - i,
        {
            if depth == 0 {
                return Err(CompileError::DepthExceeded);
            }
            match &bounds[i] {
                BoundKind::Trait(b) => {
                    let tys = b.subs.sub(types, trait_subs)?;
                    if !self.trait_has_impl(types, b.item, &tys, depth - 1)? {
                        return Ok(false);
                    }
                },
                BoundKind::Projection(a, eq_ty) => {
                    let tys = a.subs.sub(types, trait_subs)?;
                    let resolved = self.resolve_associated_ty(types, a.item, &tys, depth - 1)?;
                    let mut res_map = SubMap::new();
                    if !type_match(types, resolved, *eq_ty, &mut res_map)? {
                        return Ok(false);
                    }
                    if !res_map.assert_empty(SubSide::Lhs) {
                        return Err(CompileError::Unsupported);
                    }
                    res_map.apply_to(SubSide::Rhs, trait_subs)?;
                },
            }
            i += 1;
        }
        Ok(true)
    }
}

/// An implementation that the search selects lies inside the list.
pub proof fn lemma_listed_in_range(
    tv: TypesView,
    prog: Program,
    impls: Seq<TraitImpl>,
    for_tys: Seq<Sub>,
    i: int,
    depth: nat,
)
    requires
        0 <= i,
    ensures
        tv.find_listed(prog, impls, for_tys, i, depth).1 matches Ok(Some((ImplChoice::Listed(k), _)))
            ==> i <= k < impls.len(),
        !(tv.find_listed(prog, impls, for_tys, i, depth).1 matches Ok(
            Some((ImplChoice::Builtin(_), _)),
        )),
    decreases impls.len() - i,
{
    if i < impls.len() && i <= u32::MAX {
        match tv.check_trait_impl(prog, for_tys, impls[i], depth) {
            (tv2, Ok(None)) => {
                lemma_listed_in_range(tv2, prog, impls, for_tys, i + 1, depth);
            },
            _ => {},
        }
    }
}

} // verus!
