//! Laws of the caches and tables, stated over their models.

use vstd::prelude::*;
use crate::ids::ItemRef;
use crate::program::Program;
use crate::types::{ListId, Sub, Type, TypeKind, TypesView};
use crate::vm::VmView;

verus! {

impl TypesView {
    /// The handles fit in 32 bits, and every interned list lies inside the pool.
    pub open spec fn lists_valid(self) -> bool {
        &&& self.kinds.len() <= u32::MAX
        &&& self.spans.len() <= u32::MAX
        &&& forall|l: ListId| l.0 < self.spans.len() ==> #[trigger] self.has_list(l)
    }
}

/// Where the search for a kind runs to the end of the table, no entry from
/// `from` on holds the kind; where it stops before, it stops at the first
/// entry that does.
pub proof fn lemma_first_kind(tv: TypesView, kind: TypeKind, from: int)
    requires
        0 <= from <= tv.kinds.len(),
    ensures
        from <= tv.first_kind(kind, from) <= tv.kinds.len(),
        tv.first_kind(kind, from) < tv.kinds.len() ==> tv.kinds[tv.first_kind(kind, from)]
            == kind,
        forall|j: int| from <= j < tv.first_kind(kind, from) ==> tv.kinds[j] != kind,
    decreases tv.kinds.len() - from,
{
    if from < tv.kinds.len() && tv.kinds[from] != kind {
        lemma_first_kind(tv, kind, from + 1);
    }
}

/// The same for the search for a list.
pub proof fn lemma_first_list(tv: TypesView, elems: Seq<Sub>, from: int)
    requires
        0 <= from <= tv.spans.len(),
        tv.spans.len() <= u32::MAX,
    ensures
        from <= tv.first_list(elems, from) <= tv.spans.len(),
        tv.first_list(elems, from) < tv.spans.len() ==> tv.has_list(
            ListId(tv.first_list(elems, from) as u32),
        ) && tv.list(ListId(tv.first_list(elems, from) as u32)) == elems,
        forall|j: int|
            from <= j < tv.first_list(elems, from) ==> !(#[trigger] tv.has_list(ListId(j as u32))
                && tv.list(ListId(j as u32)) == elems),
    decreases tv.spans.len() - from,
{
    if from < tv.spans.len() && !(tv.has_list(ListId(from as u32)) && tv.list(ListId(from as u32))
        == elems) {
        lemma_first_list(tv, elems, from + 1);
    }
}

proof fn lemma_first_kind_at(tv: TypesView, kind: TypeKind, from: int, at: int)
    requires
        0 <= from <= at < tv.kinds.len(),
        tv.kinds[at] == kind,
        forall|j: int| from <= j < at ==> tv.kinds[j] != kind,
    ensures
        tv.first_kind(kind, from) == at,
    decreases at - from,
{
    if from < at {
        lemma_first_kind_at(tv, kind, from + 1, at);
    }
}

proof fn lemma_first_list_at(tv: TypesView, elems: Seq<Sub>, from: int, at: int)
    requires
        0 <= from <= at < tv.spans.len(),
        tv.spans.len() <= u32::MAX,
        tv.has_list(ListId(at as u32)),
        tv.list(ListId(at as u32)) == elems,
        forall|j: int|
            from <= j < at ==> !(#[trigger] tv.has_list(ListId(j as u32)) && tv.list(
                ListId(j as u32),
            ) == elems),
    ensures
        tv.first_list(elems, from) == at,
    decreases at - from,
{
    if from < at {
        assert(!(tv.has_list(ListId(from as u32)) && tv.list(ListId(from as u32)) == elems));
        lemma_first_list_at(tv, elems, from + 1, at);
    }
}

/// Interning is idempotent: interning a kind again returns the same handle
/// and leaves the table as it is.
pub proof fn lemma_intern_twice(tv: TypesView, kind: TypeKind)
    requires
        tv.kinds.len() <= u32::MAX,
        tv.intern(kind).1 is Ok,
    ensures
        tv.intern(kind).0.intern(kind) == tv.intern(kind),
{
    let (tv1, r) = tv.intern(kind);
    lemma_first_kind(tv, kind, 0);
    let i = tv.first_kind(kind, 0);
    if i < tv.kinds.len() {
    } else {
        let n = tv.kinds.len() as int;
        assert(tv1.kinds[n] == kind);
        assert forall|j: int| 0 <= j < n implies tv1.kinds[j] != kind by {
            assert(tv1.kinds[j] == tv.kinds[j]);
        }
        lemma_first_kind_at(tv1, kind, 0, n);
    }
}

/// Two handles of one table that were handed out for equal kinds are equal.
pub proof fn lemma_intern_injective(tv: TypesView, a: TypeKind, b: TypeKind)
    requires
        tv.kinds.len() <= u32::MAX,
        tv.intern(a).1 is Ok,
        tv.intern(a).0.intern(b).1 is Ok,
    ensures
        (tv.intern(a).1 == tv.intern(a).0.intern(b).1) <==> a == b,
{
    let (tv1, ra) = tv.intern(a);
    let (tv2, rb) = tv1.intern(b);
    lemma_first_kind(tv, a, 0);
    lemma_first_kind(tv1, b, 0);
    if a == b {
        lemma_intern_twice(tv, a);
    } else {
        let ia = ra->Ok_0.0 as int;
        let ib = rb->Ok_0.0 as int;
        assert(tv1.kinds[ia] == a);
        assert(tv2.kinds[ib] == b);
        assert(ib < tv1.kinds.len() ==> tv2.kinds[ib] == tv1.kinds[ib]);
    }
}

/// Interning a list again returns the same handle and leaves the table as it is.
pub proof fn lemma_intern_list_twice(tv: TypesView, elems: Seq<Sub>)
    requires
        tv.lists_valid(),
        tv.intern_list(elems).1 is Ok,
    ensures
        tv.intern_list(elems).0.intern_list(elems) == tv.intern_list(elems),
        tv.intern_list(elems).0.lists_valid(),
{
    let (tv1, r) = tv.intern_list(elems);
    lemma_first_list(tv, elems, 0);
    let i = tv.first_list(elems, 0);
    if i < tv.spans.len() {
    } else {
        let n = tv.spans.len() as int;
        assert(tv1.has_list(ListId(n as u32)));
        assert(tv1.list(ListId(n as u32)) =~= elems);
        assert forall|j: int| 0 <= j < n implies !(#[trigger] tv1.has_list(ListId(j as u32))
            && tv1.list(ListId(j as u32)) == elems) by {
            assert(tv.has_list(ListId(j as u32)));
            assert(tv1.list(ListId(j as u32)) =~= tv.list(ListId(j as u32)));
        }
        lemma_first_list_at(tv1, elems, 0, n);
        assert forall|l: ListId| l.0 < tv1.spans.len() implies #[trigger] tv1.has_list(l) by {
            if l.0 < n {
                assert(tv.has_list(l));
            }
        }
    }
}

/// A monomorphization is handed out once: a second request for the same
/// item and substitutions returns the same handle and changes nothing.
pub proof fn lemma_func_mono_stable(v: VmView, prog: Program, item: ItemRef, subs: Seq<Sub>)
    requires
        v.types.lists_valid(),
        v.func_mono(prog, item, subs).1 is Ok,
    ensures
        v.func_mono(prog, item, subs).0.func_mono(prog, item, subs) == v.func_mono(
            prog,
            item,
            subs,
        ),
{
    lemma_intern_list_twice(v.types, subs);
    let (tv, rl) = v.types.intern_list(subs);
    let l = rl->Ok_0;
    let s1 = VmView { types: tv, ..v };
    let key = (item.crate_id.0, item.item_id.0, l.0);
    let (v1, r1) = v.func_mono(prog, item, subs);
    assert(v1.types == tv);
    if s1.mono.dom().contains(key) {
        assert(v1 == s1);
    } else {
        let (s2, rf) = s1.alloc_function(prog, crate::vm::FunctionSource::Item(item), l);
        assert(v1.mono == s2.mono.insert(key, rf->Ok_0.0));
        assert(v1.mono.dom().contains(key));
        assert(VmView { types: tv, ..v1 } == v1);
    }
}

/// The same for the monomorphizations of closures.
pub proof fn lemma_closure_mono_stable(v: VmView, prog: Program, closure: u32, subs: Seq<Sub>)
    requires
        v.types.lists_valid(),
        v.closure_mono(prog, closure, subs).1 is Ok,
    ensures
        v.closure_mono(prog, closure, subs).0.closure_mono(prog, closure, subs) == v.closure_mono(
            prog,
            closure,
            subs,
        ),
{
    lemma_intern_list_twice(v.types, subs);
    let (tv, rl) = v.types.intern_list(subs);
    let l = rl->Ok_0;
    let s1 = VmView { types: tv, ..v };
    let key = (0u32, closure, l.0);
    let (v1, r1) = v.closure_mono(prog, closure, subs);
    assert(v1.types == tv);
    if s1.closure_mono.dom().contains(key) {
        assert(v1 == s1);
    } else {
        let (s2, rf) = s1.alloc_function(prog, crate::vm::FunctionSource::Closure(closure), l);
        assert(v1.closure_mono == s2.closure_mono.insert(key, rf->Ok_0.0));
        assert(v1.closure_mono.dom().contains(key));
        assert(VmView { types: tv, ..v1 } == v1);
    }
}

} // verus!
