//! From an item and substitutions to the body that is to be compiled.

use vstd::prelude::*;
use std::sync::Arc;
use crate::error::CompileError;
use crate::ids::ItemRef;
use crate::ir::{FnTrait, FunctionSig, IRFunction};
use crate::items::{AssocValue, BuiltinTrait, IRFlag, Item, ItemKind};
use crate::matcher::{lemma_listed_in_range, ImplChoice};
use crate::program::Program;
use crate::shared::arc_clone;
use crate::types::{ListId, Sub, SubList, Type, TypeContext, TypeKind, TypesView};

verus! {

/// The closure trait that a builtin trait is, if it is one.
pub open spec fn fn_trait_of(b: BuiltinTrait) -> Option<FnTrait> {
    match b {
        BuiltinTrait::Fn => Some(FnTrait::Fn),
        BuiltinTrait::FnMut => Some(FnTrait::FnMut),
        BuiltinTrait::FnOnce => Some(FnTrait::FnOnce),
        _ => None,
    }
}

/// A body with the substitutions to compile it with.
pub open spec fn body_view(r: Result<(Arc<IRFunction>, SubList), CompileError>) -> Result<
    (Arc<IRFunction>, Seq<Sub>),
    CompileError,
> {
    match r {
        Ok((ir, ts)) => Ok((ir, ts.list@)),
        Err(e) => Err(e),
    }
}

pub open spec fn opt_body_view(
    r: Result<Option<(Arc<IRFunction>, SubList)>, CompileError>,
) -> Result<Option<(Arc<IRFunction>, Seq<Sub>)>, CompileError> {
    match r {
        Ok(Some((ir, ts))) => Ok(Some((ir, ts.list@))),
        Ok(None) => Ok(None),
        Err(e) => Err(e),
    }
}

pub open spec fn sig_view(r: Result<FunctionSig, CompileError>) -> Result<
    (Seq<Type>, Type),
    CompileError,
> {
    match r {
        Ok(s) => Ok((s.inputs@, s.output)),
        Err(e) => Err(e),
    }
}

impl TypesView {
    /// The closure that the first of the types is, with the handle of its substitutions.
    pub open spec fn closure_of(self, for_tys: Seq<Sub>) -> Option<(u32, ListId)> {
        if for_tys.len() == 0 {
            None
        } else {
            match for_tys[0] {
                Sub::Type(t) => if self.has_type(t) {
                    match self.kind(t) {
                        TypeKind::Closure(id, _, l) => if self.has_list(l) {
                            Some((id, l))
                        } else {
                            None
                        },
                        _ => None,
                    }
                } else {
                    None
                },
                _ => None,
            }
        }
    }

    /// The body of a trait member for the given types: that of the selected
    /// implementation, `None` where the implementation leaves the member to
    /// the trait's default.
    pub open spec fn find_trait_item_ir(
        self,
        prog: Program,
        trait_item: ItemRef,
        for_tys: Seq<Sub>,
        member: u32,
        depth: nat,
    ) -> (TypesView, Result<Option<(Arc<IRFunction>, Seq<Sub>)>, CompileError>)
        decreases depth, 6int, 0int,
    {
        match self.find_trait_impl(prog, trait_item, for_tys, depth) {
            (tv, Err(e)) => (tv, Err(e)),
            (tv, Ok(None)) => (tv, Err(CompileError::NoImpl)),
            (tv, Ok(Some((ImplChoice::Listed(i), ts)))) => {
                let imp = prog.item_at(trait_item).impls()[i as int];
                if member >= imp.assoc_values@.len() {
                    (tv, Err(CompileError::NoImpl))
                } else {
                    match imp.assoc_values@[member as int] {
                        None => (tv, Ok(None)),
                        Some(AssocValue::Item(fn_item)) => {
                            if depth == 0 {
                                (tv, Err(CompileError::DepthExceeded))
                            } else {
                                match tv.item_ir(
                                    prog,
                                    ItemRef { crate_id: imp.crate_id, item_id: fn_item },
                                    ts,
                                    (depth - 1) as nat,
                                ) {
                                    (tv2, Ok((ir, _))) => (tv2, Ok(Some((ir, ts)))),
                                    (tv2, Err(e)) => (tv2, Err(e)),
                                }
                            }
                        },
                        Some(AssocValue::RawFunctionIR(ir, flag)) => {
                            if flag == IRFlag::UseClosureSubs {
                                match tv.closure_of(for_tys) {
                                    Some((_, l)) => (tv, Ok(Some((ir, tv.list(l))))),
                                    None => (tv, Err(CompileError::BadType)),
                                }
                            } else {
                                (tv, Ok(Some((ir, ts))))
                            }
                        },
                        Some(AssocValue::Type(_)) => (tv, Err(CompileError::ItemMismatch)),
                    }
                }
            },
            (tv, Ok(Some((ImplChoice::Builtin(b), _)))) => match (
                fn_trait_of(b),
                tv.closure_of(for_tys),
            ) {
                (Some(kind), Some((id, l))) => if id >= prog.closures@.len() {
                    (tv, Err(CompileError::NoImpl))
                } else {
                    match prog.closures@[id as int].trait_ir(kind) {
                        Some(ir) => (tv, Ok(Some((ir, tv.list(l))))),
                        None => (tv, Err(CompileError::MissingIr)),
                    }
                },
                _ => (tv, Err(CompileError::NoImpl)),
            },
        }
    }

    /// The body of a function or constant, and the substitutions to compile
    /// it with: for a member of a trait declaration, the body that the
    /// implementation for the substitutions gives; else the item's own.
    pub open spec fn item_ir(self, prog: Program, item: ItemRef, subs: Seq<Sub>, depth: nat) -> (
        TypesView,
        Result<(Arc<IRFunction>, Seq<Sub>), CompileError>,
    )
        decreases depth, 7int, 0int,
    {
        if !prog.has_item(item) || !prog.item_at(item).has_body() {
            (self, Err(CompileError::ItemMismatch))
        } else {
            let it = prog.item_at(item);
            let own = match it.stored_ir() {
                Some(ir) => Ok((ir, subs)),
                None => Err(CompileError::MissingIr),
            };
            match it.virtual_info() {
                Some(vi) => match self.find_trait_item_ir(
                    prog,
                    ItemRef { crate_id: item.crate_id, item_id: vi.trait_id },
                    subs,
                    vi.member_index,
                    depth,
                ) {
                    (tv, Ok(Some(x))) => (tv, Ok(x)),
                    (tv, Ok(None)) => (tv, own),
                    (tv, Err(e)) => (tv, Err(e)),
                },
                None => (self, own),
            }
        }
    }

    /// The index of a trait member that is called through a trait object:
    /// the item is a member of a trait declaration and the first
    /// substitution is a dynamic type.
    pub open spec fn function_dyn(self, prog: Program, item: ItemRef, subs: Seq<Sub>) -> Option<u32> {
        if !prog.has_item(item) || subs.len() == 0 {
            None
        } else {
            match (prog.item_at(item).kind, subs[0]) {
                (ItemKind::Function { virtual_info, .. }, Sub::Type(t)) => match virtual_info {
                    Some(vi) => if self.has_type(t) && self.kind(t) is Dynamic {
                        Some(vi.member_index)
                    } else {
                        None
                    },
                    None => None,
                },
                _ => None,
            }
        }
    }

    /// The signature of a function with the given substitutions.
    pub open spec fn func_sig(self, prog: Program, item: ItemRef, subs: Seq<Sub>, depth: nat) -> (
        TypesView,
        Result<(Seq<Type>, Type), CompileError>,
    ) {
        match self.item_ir(prog, item, subs, depth) {
            (tv, Ok((ir, ts))) => tv.sig_sub(ir.sig.inputs@, ir.sig.output, ts),
            (tv, Err(e)) => (tv, Err(e)),
        }
    }

    /// Substituting into the inputs and the output of a signature.
    pub open spec fn sig_sub(self, inputs: Seq<Type>, output: Type, subs: Seq<Sub>) -> (
        TypesView,
        Result<(Seq<Type>, Type), CompileError>,
    ) {
        match self.sub_fields(inputs, subs, 0, Seq::empty()) {
            (tv, Ok(ins)) => match tv.sub(output, subs) {
                (tv2, Ok(out)) => (tv2, Ok((ins, out))),
                (tv2, Err(e)) => (tv2, Err(e)),
            },
            (tv, Err(e)) => (tv, Err(e)),
        }
    }
}

fn closure_trait(b: BuiltinTrait) -> (r: Option<FnTrait>)
    ensures
        r == fn_trait_of(b),
{
    match b {
        BuiltinTrait::Fn => Some(FnTrait::Fn),
        BuiltinTrait::FnMut => Some(FnTrait::FnMut),
        BuiltinTrait::FnOnce => Some(FnTrait::FnOnce),
        _ => None,
    }
}

impl FunctionSig {
    /// Substitutes into the inputs and the output.
    pub fn sub(&self, types: &mut TypeContext, subs: &SubList) -> (r: Result<
        FunctionSig,
        CompileError,
    >)
        ensures
            (final(types)@, sig_view(r)) == old(types)@.sig_sub(
                self.inputs@,
                self.output,
                subs.list@,
            ),
    {
        let mut inputs: Vec<Type> = Vec::new();
        let mut j: usize = 0;
        while j < self.inputs.len()
            invariant
                j <= self.inputs.len(),
                types@.sub_fields(self.inputs@, subs.list@, j as int, inputs@) == old(types)@.sub_fields(self.inputs@, subs.list@, 0, Seq::empty()),
            decreases self.inputs.len() - j,
        {
            let t = types.sub(self.inputs[j], &subs.list)?;
            inputs.push(t);
            j += 1;
        }
        let output = types.sub(self.output, &subs.list)?;
        Ok(FunctionSig { inputs, output })
    }
}

impl TypeContext {
    fn closure_of(&self, for_tys: &SubList) -> (r: Option<(u32, ListId)>)
        ensures
            r == self@.closure_of(for_tys.list@),
    {
        if for_tys.list.len() == 0 {
            return None;
        }
        match for_tys.list[0] {
            Sub::Type(t) => match self.kind(t) {
                Ok(TypeKind::Closure(id, _, l)) => if self.has_list(l) {
                    Some((id, l))
                } else {
                    None
                },
                _ => None,
            },
            _ => None,
        }
    }
}

impl<'vm> Program<'vm> {
    /// The body of a trait member for the given types.
    pub fn find_trait_item_ir(
        &self,
        types: &mut TypeContext,
        trait_item: ItemRef,
        for_tys: &SubList,
        member_index: u32,
        depth: u32,
    ) -> (r: Result<Option<(Arc<IRFunction>, SubList)>, CompileError>)
        ensures
            (final(types)@, opt_body_view(r)) == old(types)@.find_trait_item_ir(
                *self,
                trait_item,
                for_tys.list@,
                member_index,
                depth as nat,
            ),
        decreases depth, 6int, 0int,
    {
        let found = self.find_trait_impl(types, trait_item, for_tys, depth)?;
        match found {
            None => Err(CompileError::NoImpl),
            Some((ImplChoice::Listed(i), ts)) => {
                let trait_it = match self.item(trait_item) {
                    Ok(it) => it,
                    Err(e) => {
                        return Err(e);
                    },
                };
                match &trait_it.kind {
                    ItemKind::Trait { impl_list, builtin, .. } => {
                        proof {
                            lemma_listed_in_range(
                                old(types)@,
                                *self,
                                impl_list@,
                                for_tys.list@,
                                0,
                                depth as nat,
                            );
                        }
                        let imp = &impl_list[i as usize];
                        if (member_index as usize) >= imp.assoc_values.len() {
                            return Err(CompileError::NoImpl);
                        }
                        match &imp.assoc_values[member_index as usize] {
                            None => Ok(None),
                            Some(AssocValue::Item(fn_item)) => {
                                if depth == 0 {
                                    return Err(CompileError::DepthExceeded);
                                }
                                let (ir, _) = self.item_ir(
                                    types,
                                    ItemRef { crate_id: imp.crate_id, item_id: *fn_item },
                                    &ts,
                                    depth - 1,
                                )?;
                                Ok(Some((ir, ts)))
                            },
                            Some(AssocValue::RawFunctionIR(ir, flag)) => {
                                if *flag == IRFlag::UseClosureSubs {
                                    match types.closure_of(for_tys) {
                                        Some((_, l)) => {
                                            let cs = types.list(l)?;
                                            Ok(Some((arc_clone(ir), SubList { list: cs })))
                                        },
                                        None => Err(CompileError::BadType),
                                    }
                                } else {
                                    Ok(Some((arc_clone(ir), ts)))
                                }
                            },
                            Some(AssocValue::Type(_)) => Err(CompileError::ItemMismatch),
                        }
                    },
                    _ => Err(CompileError::ItemMismatch),
                }
            },
            Some((ImplChoice::Builtin(b), _)) => {
                match (closure_trait(b), types.closure_of(for_tys)) {
                    (Some(kind), Some((id, l))) => {
                        if (id as usize) >= self.closures.len() {
                            return Err(CompileError::NoImpl);
                        }
                        let ir = self.closures[id as usize].ir_for_trait(kind)?;
                        let cs = types.list(l)?;
                        Ok(Some((ir, SubList { list: cs })))
                    },
                    _ => Err(CompileError::NoImpl),
                }
            },
        }
    }

    /// The body of a function or constant, and the substitutions to compile it with.
    pub fn item_ir(&self, types: &mut TypeContext, item: ItemRef, subs: &SubList, depth: u32) -> (r:
        Result<(Arc<IRFunction>, SubList), CompileError>)
        ensures
            (final(types)@, body_view(r)) == old(types)@.item_ir(
                *self,
                item,
                subs.list@,
                depth as nat,
            ),
        decreases depth, 7int, 0int,
    {
        let it = self.item(item)?;
        let (stored, virtual_info) = match &it.kind {
            ItemKind::Function { ir, virtual_info, .. } => (ir, *virtual_info),
            ItemKind::Constant { ir, virtual_info, .. } => (ir, *virtual_info),
            _ => {
                return Err(CompileError::ItemMismatch);
            },
        };
        if let Some(vi) = virtual_info {
            let t = ItemRef { crate_id: item.crate_id, item_id: vi.trait_id };
            match self.find_trait_item_ir(types, t, subs, vi.member_index, depth)? {
                Some(x) => {
                    return Ok(x);
                },
                None => {},
            }
        }
        match stored {
            Some(ir) => Ok((arc_clone(ir), SubList { list: copy_subs(&subs.list) })),
            None => Err(CompileError::MissingIr),
        }
    }

    /// The index of a trait member that is called through a trait object.
    pub fn is_function_dyn(&self, types: &TypeContext, item: ItemRef, subs: &SubList) -> (r: Option<
        u32,
    >)
        ensures
            r == types@.function_dyn(*self, item, subs.list@),
    {
        let it = match self.item(item) {
            Ok(it) => it,
            Err(_) => {
                return None;
            },
        };
        if subs.list.len() == 0 {
            return None;
        }
        match (&it.kind, subs.list[0]) {
            (ItemKind::Function { virtual_info, .. }, Sub::Type(t)) => match virtual_info {
                Some(vi) => match types.kind(t) {
                    Ok(TypeKind::Dynamic { .. }) => Some(vi.member_index),
                    _ => None,
                },
                None => None,
            },
            _ => None,
        }
    }

    /// The signature of a function with the given substitutions.
    pub fn func_sig(&self, types: &mut TypeContext, item: ItemRef, subs: &SubList, depth: u32) -> (r:
        Result<FunctionSig, CompileError>)
        ensures
            (final(types)@, sig_view(r)) == old(types)@.func_sig(
                *self,
                item,
                subs.list@,
                depth as nat,
            ),
    {
        let (ir, new_subs) = self.item_ir(types, item, subs, depth)?;
        ir.sig.sub(types, &new_subs)
    }
}

/// A copy of a list of substitutions.
pub fn copy_subs(list: &Vec<Sub>) -> (r: Vec<Sub>)
    ensures
        r@ == list@,
{
    let mut out: Vec<Sub> = Vec::new();
    let mut i: usize = 0;
    while i < list.len()
        invariant
            i <= list.len(),
            out@ == list@.take(i as int),
        decreases list.len() - i,
    {
        out.push(list[i]);
        proof {
            assert(out@ =~= list@.take(i + 1));
        }
        i += 1;
    }
    proof {
        assert(list@.take(list.len() as int) =~= list@);
    }
    out
}

} // verus!
