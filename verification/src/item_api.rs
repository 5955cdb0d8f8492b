//! What items, function sources and threads offer on their own names.

use vstd::prelude::*;
use std::sync::Arc;
use crate::closure::Closure;
use crate::consts::{state_view, value_view};
use crate::error::CompileError;
use crate::eval_spec::RunResult;
use crate::ids::{ItemId, ItemRef};
use crate::instr::{FuncId, Instr};
use crate::ir::{FunctionSig, IRFunction};
use crate::items::{AssocValue, Item, ItemKind, ItemPath, TraitImpl};
use crate::machine::{ThreadView, VMThread};
use crate::maps::{
    assoc_entries, assoc_get, assoc_len, closure_entries, closure_map_get, closure_map_insert,
    ClosureMap,
};
use crate::matcher::{choice_view, found_view, ImplChoice};
use crate::program::Program;
use crate::resolve::{body_view, copy_subs, sig_view};
use crate::types::{
    IntSign, IntWidth, ListId, Sub, SubList, Type, TypeContext, TypeKind, TypesView,
};
use crate::closure::types_as_subs;
use crate::vm::{Builtin, FunctionSource, VmView, VM};

verus! {

/// The member table filled with the values given, pair by pair from index
/// `i` on: each value goes to the index that the table has for its path.
pub open spec fn build_assoc(
    map: Map<(u8, Seq<char>), u32>,
    pairs: Seq<(ItemPath, AssocValue)>,
    i: int,
    acc: Seq<Option<AssocValue>>,
) -> Result<Seq<Option<AssocValue>>, CompileError>
    decreases pairs.len() - i,
{
    if i < 0 || i >= pairs.len() {
        Ok(acc)
    } else {
        let key = (pairs[i].0.0.code_spec(), pairs[i].0.1@);
        if !map.dom().contains(key) || map[key] >= acc.len() {
            Err(CompileError::NoImpl)
        } else {
            build_assoc(map, pairs, i + 1, acc.update(map[key] as int, Some(pairs[i].1)))
        }
    }
}

pub open spec fn assoc_view(r: Result<Vec<Option<AssocValue>>, CompileError>) -> Result<
    Seq<Option<AssocValue>>,
    CompileError,
> {
    match r {
        Ok(v) => Ok(v@),
        Err(e) => Err(e),
    }
}

/// Interning the common types, in the order of the fields.
pub open spec fn common_types_of(tv: TypesView) -> (TypesView, Result<CommonTypes, CompileError>) {
    match tv.intern(TypeKind::Int(IntWidth::ISize, IntSign::Unsigned)) {
        (tv1, Ok(us)) => match tv1.intern(TypeKind::Bool) {
            (tv2, Ok(b)) => match tv2.intern_list(Seq::empty()) {
                (tv3, Ok(l)) => match tv3.intern(TypeKind::Tuple(l)) {
                    (tv4, Ok(unit)) => (tv4, Ok(CommonTypes { usize: us, bool: b, unit })),
                    (tv4, Err(e)) => (tv4, Err(e)),
                },
                (tv3, Err(e)) => (tv3, Err(e)),
            },
            (tv2, Err(e)) => (tv2, Err(e)),
        },
        (tv1, Err(e)) => (tv1, Err(e)),
    }
}

/// The types that a machine interns up front.
#[derive(Debug, Clone, Copy, PartialEq, Eq, Structural)]
pub struct CommonTypes {
    pub usize: Type,
    pub bool: Type,
    pub unit: Type,
}

impl<'vm> Item<'vm> {
    /// The item's identity.
    pub fn item_ref(&self) -> (r: ItemRef)
        ensures
            r == (ItemRef { crate_id: self.crate_id, item_id: self.item_id }),
    {
        ItemRef { crate_id: self.crate_id, item_id: self.item_id }
    }

    pub open spec fn closure_table(&self) -> Option<ClosureMap> {
        match self.kind {
            ItemKind::Function { closures, .. } => Some(closures),
            _ => None,
        }
    }

    /// The closure numbers by path, for a function.
    pub open spec fn closure_paths(&self) -> Map<Seq<u32>, u32> {
        match self.kind {
            ItemKind::Function { closures, .. } => closure_entries(closures),
            _ => Map::empty(),
        }
    }

    /// The monomorphic function of this function item for the given
    /// substitutions. Every request with the same substitutions returns
    /// the same handle.
    pub fn func_mono(&self, vm: &mut VM, prog: &Program, subs: &SubList) -> (r: Result<
        FuncId,
        CompileError,
    >)
        ensures
            (final(vm)@, r) == old(vm)@.func_mono(
                *prog,
                ItemRef { crate_id: self.crate_id, item_id: self.item_id },
                subs.list@,
            ),
    {
        vm.func_mono(prog, self.item_ref(), subs)
    }

    /// The body of this function or constant, and the substitutions to
    /// compile it with.
    pub fn ir(&self, types: &mut TypeContext, prog: &Program, subs: &SubList, depth: u32) -> (r:
        Result<(Arc<IRFunction>, SubList), CompileError>)
        ensures
            (final(types)@, body_view(r)) == old(types)@.item_ir(
                *prog,
                ItemRef { crate_id: self.crate_id, item_id: self.item_id },
                subs.list@,
                depth as nat,
            ),
    {
        prog.item_ir(types, self.item_ref(), subs, depth)
    }

    /// The signature of this function with the given substitutions.
    pub fn func_sig(&self, types: &mut TypeContext, prog: &Program, subs: &SubList, depth: u32) -> (r:
        Result<FunctionSig, CompileError>)
        ensures
            (final(types)@, sig_view(r)) == old(types)@.func_sig(
                *prog,
                ItemRef { crate_id: self.crate_id, item_id: self.item_id },
                subs.list@,
                depth as nat,
            ),
    {
        prog.func_sig(types, self.item_ref(), subs, depth)
    }

    /// The offset in the constant arena of the value of this constant for
    /// the given substitutions.
    pub fn const_value(&self, vm: &mut VM, prog: &Program, subs: &SubList, depth: u32) -> (r:
        Result<u32, CompileError>)
        ensures
            value_view(r, final(vm)@) == old(vm)@.const_value(
                *prog,
                ItemRef { crate_id: self.crate_id, item_id: self.item_id },
                subs.list@,
                depth as nat,
            ),
    {
        vm.const_value(prog, self.item_ref(), subs, depth)
    }

    /// The type that this associated type stands for with the given substitutions.
    pub fn resolve_associated_ty(
        &self,
        types: &mut TypeContext,
        prog: &Program,
        subs: &SubList,
        depth: u32,
    ) -> (r: Result<Type, CompileError>)
        ensures
            (final(types)@, r) == old(types)@.resolve_associated_ty(
                *prog,
                ItemRef { crate_id: self.crate_id, item_id: self.item_id },
                subs.list@,
                depth as nat,
            ),
    {
        prog.resolve_associated_ty(types, self.item_ref(), subs, depth)
    }

    /// The implementation of this trait for a list of types, and the
    /// substitutions for its members.
    pub fn find_trait_impl(
        &self,
        types: &mut TypeContext,
        prog: &Program,
        for_tys: &SubList,
        depth: u32,
    ) -> (r: Result<Option<(ImplChoice, SubList)>, CompileError>)
        ensures
            (final(types)@, choice_view(r)) == old(types)@.find_trait_impl(
                *prog,
                ItemRef { crate_id: self.crate_id, item_id: self.item_id },
                for_tys.list@,
                depth as nat,
            ),
    {
        prog.find_trait_impl(types, self.item_ref(), for_tys, depth)
    }

    /// Whether this trait is implemented for a list of types.
    pub fn trait_has_impl(
        &self,
        types: &mut TypeContext,
        prog: &Program,
        for_tys: &SubList,
        depth: u32,
    ) -> (r: Result<bool, CompileError>)
        ensures
            final(types)@ == old(types)@.find_trait_impl(
                *prog,
                ItemRef { crate_id: self.crate_id, item_id: self.item_id },
                for_tys.list@,
                depth as nat,
            ).0,
            r == found_view(
                old(types)@.find_trait_impl(
                    *prog,
                    ItemRef { crate_id: self.crate_id, item_id: self.item_id },
                    for_tys.list@,
                    depth as nat,
                ).1,
            ),
    {
        prog.trait_has_impl(types, self.item_ref(), for_tys, depth)
    }

    /// The associated values of an implementation by member index, from
    /// the values by path. Members that no pair names are left empty.
    pub fn trait_build_assoc_values_for_impl(&self, pairs: &Vec<(ItemPath, AssocValue)>) -> (r:
        Result<Vec<Option<AssocValue>>, CompileError>)
        ensures
            match self.assoc_map() {
                Some(m) => assoc_view(r) == build_assoc(
                    assoc_entries(m),
                    pairs@,
                    0,
                    Seq::new(assoc_entries(m).len(), |i: int| None::<AssocValue>),
                ),
                None => r is Err && r->Err_0 == CompileError::ItemMismatch,
            },
    {
        let map = match &self.kind {
            ItemKind::Trait { assoc_value_map: Some(m), .. } => m,
            _ => {
                return Err(CompileError::ItemMismatch);
            },
        };
        let n = assoc_len(map);
        let mut results: Vec<Option<AssocValue>> = Vec::new();
        let mut k: usize = 0;
        while k < n
            invariant
                k <= n,
                results@ == Seq::new(k as nat, |i: int| None::<AssocValue>),
            decreases n - k,
        {
            results.push(None);
            proof {
                assert(results@ =~= Seq::new((k + 1) as nat, |i: int| None::<AssocValue>));
            }
            k += 1;
        }
        let mut i: usize = 0;
        while i < pairs.len()
            invariant
                i <= pairs.len(),
                n == assoc_entries(*map).len(),
                self.assoc_map() == Some(*map),
                build_assoc(assoc_entries(*map), pairs@, i as int, results@) == build_assoc(
                    assoc_entries(*map),
                    pairs@,
                    0,
                    Seq::new(n as nat, |i: int| None::<AssocValue>),
                ),
            decreases pairs.len() - i,
        {
            let (path, val) = &pairs[i];
            match assoc_get(map, path.0.code(), path.as_string()) {
                Some(index) => {
                    if (index as usize) >= results.len() {
                        return Err(CompileError::NoImpl);
                    }
                    results.set(index as usize, Some(val.duplicate()));
                },
                None => {
                    return Err(CompileError::NoImpl);
                },
            }
            i += 1;
        }
        Ok(results)
    }

    /// The closure at the given path inside the body of this function: the
    /// one that the path is known for, or a new one. In a constant every
    /// request gets a new closure.
    pub fn child_closure(&mut self, closures: &mut Vec<Closure>, path_indices: Vec<u32>) -> (r:
        Result<u32, CompileError>)
        ensures
            final(self).crate_id == old(self).crate_id,
            final(self).item_id == old(self).item_id,
            final(self).path == old(self).path,
            match r {
                Ok(id) => match old(self).closure_table() {
                    Some(m) => if closure_entries(m).dom().contains(path_indices@) {
                        id == closure_entries(m)[path_indices@] && final(closures)@ == old(closures)@ && *final(self) == *old(self)
                    } else {
                        id == old(closures)@.len() && final(closures)@.len() == id + 1 && final(closures)@.take(id as int) == old(closures)@ && final(closures)@[id as int].unique_id
                            == id && final(closures)@[id as int].ir_base is None && final(self).kind is Function && final(self).closure_paths() == closure_entries(
                            m,
                        ).insert(path_indices@, id)
                    },
                    None => old(self).kind is Constant && id == old(closures)@.len() && final(closures)@.len() == id + 1 && final(closures)@.take(id as int) == old(closures)@
                        && final(closures)@[id as int].unique_id == id && *final(self) == *old(self),
                },
                Err(e) => final(closures)@ == old(closures)@ && *final(self) == *old(self) && (if old(self).kind is Function || old(self).kind is Constant {
                    e == CompileError::TableFull && old(closures)@.len() >= u32::MAX
                } else {
                    e == CompileError::ItemMismatch
                }),
            },
    {
        let n: usize = closures.len();
        match &mut self.kind {
            ItemKind::Function { closures: table, .. } => {
                match closure_map_get(table, &path_indices) {
                    Some(id) => Ok(id),
                    None => {
                        if n >= u32::MAX as usize {
                            return Err(CompileError::TableFull);
                        }
                        closures.push(Closure::new(n as u32));
                        proof {
                            assert(closures@.take(n as int) =~= old(closures)@);
                        }
                        closure_map_insert(table, path_indices, n as u32);
                        Ok(n as u32)
                    },
                }
            },
            ItemKind::Constant { .. } => {
                if n >= u32::MAX as usize {
                    return Err(CompileError::TableFull);
                }
                closures.push(Closure::new(n as u32));
                proof {
                    assert(closures@.take(n as int) =~= old(closures)@);
                }
                Ok(n as u32)
            },
            _ => Err(CompileError::ItemMismatch),
        }
    }
}

impl FunctionSource {
    /// The body of the source and the substitutions to compile it with.
    pub fn ir(&self, types: &mut TypeContext, prog: &Program, subs: &SubList, depth: u32) -> (r:
        Result<(Arc<IRFunction>, SubList), CompileError>)
        ensures
            match *self {
                FunctionSource::Item(item) => (final(types)@, body_view(r)) == old(types)@.item_ir(*prog, item, subs.list@, depth as nat),
                FunctionSource::Closure(c) => final(types)@ == old(types)@ && body_view(r) == (
                if c < prog.closures@.len() {
                    match prog.closures@[c as int].ir_base {
                        Some(ir) => Ok((ir, subs.list@)),
                        None => Err(CompileError::MissingIr),
                    }
                } else {
                    Err(CompileError::ItemMismatch)
                }),
            },
    {
        match self {
            FunctionSource::Item(item) => prog.item_ir(types, *item, subs, depth),
            FunctionSource::Closure(c) => {
                if (*c as usize) >= prog.closures.len() {
                    return Err(CompileError::ItemMismatch);
                }
                let ir = prog.closures[*c as usize].ir_base()?;
                Ok((ir, SubList { list: copy_subs(&subs.list) }))
            },
        }
    }

    /// The name of the source for messages: the path of an item, or
    /// `[closure]`.
    pub fn debug_name<'a>(&self, prog: &'a Program) -> (r: Result<&'a str, CompileError>)
        ensures
            match *self {
                FunctionSource::Item(item) => match r {
                    Ok(s) => prog.has_item(item) && s@ == prog.item_at(item).path.1@,
                    Err(e) => !prog.has_item(item) && e == CompileError::ItemMismatch,
                },
                FunctionSource::Closure(_) => r is Ok && r->Ok_0@ == "[closure]"@,
            },
    {
        match self {
            FunctionSource::Item(item) => {
                let it = prog.item(*item)?;
                Ok(it.path.1)
            },
            FunctionSource::Closure(_) => Ok("[closure]"),
        }
    }
}

impl VM {
    /// A new thread with a stack of its own.
    pub fn make_thread(&self) -> (r: VMThread)
        ensures
            r@ == ThreadView::fresh(),
    {
        VMThread::new()
    }

    /// The type of a function item with substitutions.
    pub fn ty_func_def(&mut self, item: ItemRef, subs: &SubList) -> (r: Result<Type, CompileError>)
        ensures
            (final(self)@.types, r) == (match old(self)@.types.intern_list(subs.list@) {
                (tv, Ok(l)) => tv.intern(TypeKind::FunctionDef(item, l)),
                (tv, Err(e)) => (tv, Err(e)),
            }),
    {
        let l = self.types.intern_list(&subs.list)?;
        self.types.intern(TypeKind::FunctionDef(item, l))
    }

    /// The type of a struct or enum with substitutions.
    pub fn ty_adt(&mut self, item: ItemRef, subs: &SubList) -> (r: Result<Type, CompileError>)
        ensures
            (final(self)@.types, r) == (match old(self)@.types.intern_list(subs.list@) {
                (tv, Ok(l)) => tv.intern(TypeKind::Adt(item, l)),
                (tv, Err(e)) => (tv, Err(e)),
            }),
    {
        let l = self.types.intern_list(&subs.list)?;
        self.types.intern(TypeKind::Adt(item, l))
    }

    /// The tuple type of the given element types.
    pub fn ty_tuple(&mut self, children: &Vec<Type>) -> (r: Result<Type, CompileError>)
        ensures
            (final(self)@.types, r) == (match old(self)@.types.intern_list(
                types_as_subs(children@),
            ) {
                (tv, Ok(l)) => tv.intern(TypeKind::Tuple(l)),
                (tv, Err(e)) => (tv, Err(e)),
            }),
    {
        let mut subs: Vec<Sub> = Vec::new();
        let mut i: usize = 0;
        while i < children.len()
            invariant
                i <= children.len(),
                subs@ == types_as_subs(children@.take(i as int)),
            decreases children.len() - i,
        {
            subs.push(Sub::Type(children[i]));
            proof {
                assert(subs@ =~= types_as_subs(children@.take(i + 1)));
            }
            i += 1;
        }
        proof {
            assert(children@.take(children.len() as int) =~= children@);
        }
        let l = self.types.intern_list(&subs)?;
        self.types.intern(TypeKind::Tuple(l))
    }

    /// The pointer-sized unsigned integer, `bool` and the unit type.
    pub fn common_types(&mut self) -> (r: Result<CommonTypes, CompileError>)
        ensures
            (final(self)@.types, r) == common_types_of(old(self)@.types),
    {
        let us = self.types.intern(TypeKind::Int(IntWidth::ISize, IntSign::Unsigned))?;
        let b = self.types.intern(TypeKind::Bool)?;
        let l = self.types.intern_list(&Vec::new())?;
        let unit = self.types.intern(TypeKind::Tuple(l))?;
        Ok(CommonTypes { usize: us, bool: b, unit })
    }
}

impl VMThread {
    /// Calls a function with its frame at `stack_offset` and runs the
    /// thread for at most `steps` instructions. A native function is left
    /// to the caller.
    pub fn call(
        &mut self,
        vm: &mut VM,
        prog: &Program,
        func: FuncId,
        stack_offset: u32,
        steps: u64,
        depth: u32,
    ) -> (r: RunResult)
        ensures
            match old(vm)@.ensure_compiled(*prog, func, depth as nat) {
                Err(e) => if old(vm)@.has_func(func) && old(vm)@.func(func).native is Some {
                    r == RunResult::Native(old(vm)@.func(func).native->Some_0, stack_offset)
                } else {
                    r == RunResult::CompileFailed(e)
                },
                Ok(vm1) => if old(vm)@.func(func).native is Some {
                    r == RunResult::Native(old(vm)@.func(func).native->Some_0, stack_offset)
                } else {
                    vm1.func(func).bytecode matches Some(span) && r == vm1.run(
                        *prog,
                        old(self)@.enter(span, stack_offset),
                        steps as nat,
                        depth as nat,
                    ).2 && final(self)@ == vm1.run(
                        *prog,
                        old(self)@.enter(span, stack_offset),
                        steps as nat,
                        depth as nat,
                    ).1
                },
            },
    {
        match vm.get_native(func) {
            Some(b) => {
                return RunResult::Native(b, stack_offset);
            },
            None => {},
        }
        match vm.ensure_compiled(prog, func, depth) {
            Ok(_) => {},
            Err(e) => {
                return RunResult::CompileFailed(e);
            },
        }
        match vm.get_bytecode(func) {
            Some(span) => {
                self.enter(span, stack_offset);
                vm.run(prog, self, steps, depth)
            },
            None => RunResult::CompileFailed(CompileError::ItemMismatch),
        }
    }

    /// Runs bytecode with slot 0 at `stack_offset`, for at most `steps`
    /// instructions.
    pub fn run_bytecode(
        &mut self,
        vm: &mut VM,
        prog: &Program,
        bc: &Vec<Instr>,
        stack_offset: u32,
        steps: u64,
        depth: u32,
    ) -> (r: RunResult)
        ensures
            match old(vm)@.alloc_bytecode(bc@) {
                (vm1, Ok(span)) => r == vm1.run(
                    *prog,
                    old(self)@.enter(span, stack_offset),
                    steps as nat,
                    depth as nat,
                ).2 && final(self)@ == vm1.run(
                    *prog,
                    old(self)@.enter(span, stack_offset),
                    steps as nat,
                    depth as nat,
                ).1,
                (_, Err(e)) => r == RunResult::CompileFailed(e) && final(self)@ == old(self)@,
            },
    {
        match vm.alloc_bytecode(bc) {
            Ok(span) => {
                self.enter(span, stack_offset);
                vm.run(prog, self, steps, depth)
            },
            Err(e) => RunResult::CompileFailed(e),
        }
    }
}

} // verus!
