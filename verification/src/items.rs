//! Items: the crate-scoped entities that the provider of intermediate
//! representation hands over, and the program they make up.

use vstd::prelude::*;
use std::sync::Arc;
use crate::error::CompileError;
use crate::ids::{CrateId, ItemId, ItemRef};
use crate::ir::IRFunction;
use crate::maps::{
    assoc_entries, assoc_get, assoc_len, closure_map_new, AssocMap, ClosureMap,
};
use crate::shared::arc_clone;
use crate::types::{SubList, Type};

verus! {

/// A crate that another one depends on.
pub struct ExternCrate {
    pub name: String,
    pub id: CrateId,
}

#[derive(Eq, PartialEq, Clone, Copy, Debug, Structural)]
pub enum NameSpace {
    /// Structs, enums and traits.
    Type,
    /// Functions and constants.
    Value,
    /// Paths that only serve to name an item in messages.
    DebugOnly,
}

/// A path in one of the three namespaces.
#[derive(Clone, Copy, Debug)]
pub struct ItemPath<'vm>(pub NameSpace, pub &'vm str);

impl<'vm> ItemPath<'vm> {
    pub open spec fn equals(self, other: ItemPath) -> bool {
        self.0 == other.0 && self.1@ == other.1@
    }

    pub fn main() -> (r: Self)
        ensures
            r.0 == NameSpace::Value,
            r.1@ == "::main"@,
    {
        Self(NameSpace::Value, "::main")
    }

    /// Whether items can be found by this path.
    pub fn can_lookup(&self) -> (r: bool)
        ensures
            r == (self.0 != NameSpace::DebugOnly),
    {
        match self.0 {
            NameSpace::DebugOnly => false,
            _ => true,
        }
    }

    pub fn for_debug(name: &'vm str) -> (r: Self)
        ensures
            r.0 == NameSpace::DebugOnly,
            r.1@ == name@,
    {
        Self(NameSpace::DebugOnly, name)
    }

    pub fn for_type(name: &'vm str) -> (r: Self)
        ensures
            r.0 == NameSpace::Type,
            r.1@ == name@,
    {
        Self(NameSpace::Type, name)
    }

    pub fn for_value(name: &'vm str) -> (r: Self)
        ensures
            r.0 == NameSpace::Value,
            r.1@ == name@,
    {
        Self(NameSpace::Value, name)
    }

    pub fn as_string(&self) -> (r: &str)
        ensures
            r@ == self.1@,
    {
        self.1
    }

    /// Same namespace and same text.
    pub fn same(&self, other: &ItemPath) -> (r: bool)
        ensures
            r == self.equals(*other),
    {
        self.0 == other.0 && self.1.to_owned() == other.1.to_owned()
    }
}

#[derive(PartialEq, Eq, Clone, Copy, Debug, Structural)]
pub enum FunctionAbi {
    RustIntrinsic,
}

pub enum AdtKind {
    Struct,
    /// An enum with a leading discriminant of the given integer type.
    EnumWithDiscriminant(Type),
    /// An enum whose first variant is the all-zero value.
    EnumNonZero,
}

/// The variants of a struct or enum, each with its field types.
pub struct AdtInfo {
    pub variant_fields: Vec<Vec<Type>>,
    pub kind: AdtKind,
    /// Values of this type must be destroyed by running code.
    pub needs_drop: bool,
}

impl AdtInfo {
    pub fn is_enum(&self) -> (r: bool)
        ensures
            r == !(self.kind is Struct),
    {
        match self.kind {
            AdtKind::Struct => false,
            AdtKind::EnumNonZero | AdtKind::EnumWithDiscriminant(_) => true,
        }
    }

    pub fn discriminant_ty(&self) -> (r: Option<Type>)
        ensures
            r == (match self.kind {
                AdtKind::EnumWithDiscriminant(ty) => Some(ty),
                _ => None,
            }),
    {
        match self.kind {
            AdtKind::EnumWithDiscriminant(ty) => Some(ty),
            _ => None,
        }
    }
}

/// Marks a member of a trait declaration. Always refers to a trait of the same crate.
#[derive(PartialEq, Eq, Clone, Copy, Debug, Structural)]
pub struct VirtualInfo {
    pub trait_id: ItemId,
    pub member_index: u32,
}

/// How the body of a synthesized trait member gets its substitutions.
#[derive(PartialEq, Eq, Clone, Copy, Debug, Structural)]
pub enum IRFlag {
    Plain,
    /// Use the substitutions of the closure type that the trait is resolved for.
    UseClosureSubs,
}

pub enum AssocValue {
    /// A function or a constant.
    Item(ItemId),
    Type(Type),
    /// A body given directly, for builtin traits.
    RawFunctionIR(Arc<IRFunction>, IRFlag),
}

/// An item together with the substitutions it is used with.
pub struct ItemWithSubs {
    pub item: ItemRef,
    pub subs: SubList,
}

pub enum BoundKind {
    /// The trait must be implemented for the substitutions.
    Trait(ItemWithSubs),
    /// The associated type must equal the second type; may fix parameters of the impl.
    Projection(ItemWithSubs, Type),
}

#[derive(Default, Debug, PartialEq, Eq, Clone, Copy, Structural)]
pub struct GenericCounts {
    pub lifetimes: u32,
    pub types: u32,
    pub consts: u32,
}

/// One implementation of a trait.
pub struct TraitImpl {
    pub for_types: SubList,
    pub crate_id: CrateId,
    /// The associated values by member index.
    pub assoc_values: Vec<Option<AssocValue>>,
    pub bounds: Vec<BoundKind>,
    pub generics: GenericCounts,
}

/// Traits whose implementations follow from the shape of a type.
#[derive(PartialEq, Eq, Clone, Copy, Debug, Structural)]
pub enum BuiltinTrait {
    Sized,
    Tuple,
    DiscriminantKind,
    FnOnce,
    FnMut,
    Fn,
}


impl NameSpace {
    pub open spec fn code_spec(self) -> u8 {
        match self {
            NameSpace::Type => 0,
            NameSpace::Value => 1,
            NameSpace::DebugOnly => 2,
        }
    }

    /// The number that stands for the namespace in table keys.
    pub fn code(&self) -> (r: u8)
        ensures
            r == self.code_spec(),
    {
        match self {
            NameSpace::Type => 0,
            NameSpace::Value => 1,
            NameSpace::DebugOnly => 2,
        }
    }
}

impl AssocValue {
    /// Another handle to the same associated value.
    pub fn duplicate(&self) -> (r: AssocValue)
        ensures
            r == *self,
    {
        match self {
            AssocValue::Item(id) => AssocValue::Item(*id),
            AssocValue::Type(ty) => AssocValue::Type(*ty),
            AssocValue::RawFunctionIR(ir, flag) => AssocValue::RawFunctionIR(arc_clone(ir), *flag),
        }
    }
}

/// The state that each kind of item carries. `virtual_info` marks a member of
/// a trait declaration and leads to the implementations of that member.
#[allow(inconsistent_fields)]
pub enum ItemKind {
    Function {
        ir: Option<Arc<IRFunction>>,
        virtual_info: Option<VirtualInfo>,
        ctor_for: Option<(ItemId, u32)>,
        extern_name: Option<(FunctionAbi, String)>,
        /// Closure numbers by the path of the closure inside the body.
        closures: ClosureMap,
    },
    /// Evaluated once per substitution list, when first met.
    Constant {
        ir: Option<Arc<IRFunction>>,
        virtual_info: Option<VirtualInfo>,
        ctor_for: Option<(ItemId, u32)>,
    },
    AssociatedType { virtual_info: VirtualInfo },
    Adt { info: Option<AdtInfo> },
    Trait {
        /// Member index by namespace and name.
        assoc_value_map: Option<AssocMap>,
        impl_list: Vec<TraitImpl>,
        builtin: Option<BuiltinTrait>,
    },
}

impl ItemKind {
    pub fn new_function() -> (r: Self)
        ensures
            r matches ItemKind::Function { ir, virtual_info, ctor_for, extern_name, closures }
                && ir is None && virtual_info is None && ctor_for is None && extern_name is None,
    {
        Self::Function {
            ir: None,
            virtual_info: None,
            extern_name: None,
            ctor_for: None,
            closures: closure_map_new(),
        }
    }

    pub fn new_function_virtual(trait_id: ItemId, member_index: u32) -> (r: Self)
        ensures
            r matches ItemKind::Function { ir, virtual_info, ctor_for, extern_name, closures }
                && ir is None && virtual_info == Some(VirtualInfo { trait_id, member_index })
                && ctor_for is None && extern_name is None,
    {
        Self::Function {
            ir: None,
            virtual_info: Some(VirtualInfo { trait_id, member_index }),
            extern_name: None,
            ctor_for: None,
            closures: closure_map_new(),
        }
    }

    pub fn new_function_extern(abi: FunctionAbi, name: String) -> (r: Self)
        ensures
            r matches ItemKind::Function { ir, virtual_info, ctor_for, extern_name, closures }
                && ir is None && virtual_info is None && ctor_for is None && extern_name == Some(
                (abi, name),
            ),
    {
        Self::Function {
            ir: None,
            virtual_info: None,
            extern_name: Some((abi, name)),
            ctor_for: None,
            closures: closure_map_new(),
        }
    }

    pub fn new_function_ctor(adt_id: ItemId, variant: u32) -> (r: Self)
        ensures
            r matches ItemKind::Function { ir, virtual_info, ctor_for, extern_name, closures }
                && ir is None && virtual_info is None && ctor_for == Some((adt_id, variant))
                && extern_name is None,
    {
        Self::Function {
            ir: None,
            virtual_info: None,
            extern_name: None,
            ctor_for: Some((adt_id, variant)),
            closures: closure_map_new(),
        }
    }

    pub fn new_const() -> (r: Self)
        ensures
            r matches ItemKind::Constant { ir, virtual_info, ctor_for } && ir is None
                && virtual_info is None && ctor_for is None,
    {
        Self::Constant { ir: None, virtual_info: None, ctor_for: None }
    }

    pub fn new_const_virtual(trait_id: ItemId, member_index: u32) -> (r: Self)
        ensures
            r matches ItemKind::Constant { ir, virtual_info, ctor_for } && ir is None
                && virtual_info == Some(VirtualInfo { trait_id, member_index })
                && ctor_for is None,
    {
        Self::Constant {
            ir: None,
            virtual_info: Some(VirtualInfo { trait_id, member_index }),
            ctor_for: None,
        }
    }

    pub fn new_const_ctor(adt_id: ItemId, variant: u32) -> (r: Self)
        ensures
            r matches ItemKind::Constant { ir, virtual_info, ctor_for } && ir is None
                && virtual_info is None && ctor_for == Some((adt_id, variant)),
    {
        Self::Constant { ir: None, virtual_info: None, ctor_for: Some((adt_id, variant)) }
    }

    pub fn new_associated_type(trait_id: ItemId, member_index: u32) -> (r: Self)
        ensures
            r matches ItemKind::AssociatedType { virtual_info } && virtual_info == (VirtualInfo {
                trait_id,
                member_index,
            }),
    {
        Self::AssociatedType { virtual_info: VirtualInfo { trait_id, member_index } }
    }

    pub fn new_adt() -> (r: Self)
        ensures
            r matches ItemKind::Adt { info } && info is None,
    {
        Self::Adt { info: None }
    }

    pub fn new_trait() -> (r: Self)
        ensures
            r matches ItemKind::Trait { assoc_value_map, impl_list, builtin }
                && assoc_value_map is None && impl_list@.len() == 0 && builtin is None,
    {
        Self::Trait { assoc_value_map: None, impl_list: Vec::new(), builtin: None }
    }

    pub fn new_trait_with(assoc_value_map: AssocMap, builtin: Option<BuiltinTrait>) -> (r: Self)
        ensures
            r matches ItemKind::Trait { assoc_value_map: m, impl_list, builtin: b } && m == Some(
                assoc_value_map,
            ) && impl_list@.len() == 0 && b == builtin,
    {
        Self::Trait { assoc_value_map: Some(assoc_value_map), impl_list: Vec::new(), builtin }
    }
}

/// A crate-scoped entity with a stable identity, a path and a kind.
pub struct Item<'vm> {
    pub crate_id: CrateId,
    pub item_id: ItemId,
    pub path: ItemPath<'vm>,
    pub kind: ItemKind,
}

impl<'vm> Item<'vm> {
    pub fn new(crate_id: CrateId, item_id: ItemId, path: ItemPath<'vm>, kind: ItemKind) -> (r:
        Self)
        ensures
            r.crate_id == crate_id,
            r.item_id == item_id,
            r.path == path,
            r.kind == kind,
    {
        Item { crate_id, item_id, path, kind }
    }

    /// Items are the same when crate and index are.
    pub fn same(&self, other: &Item) -> (r: bool)
        ensures
            r == (self.crate_id == other.crate_id && self.item_id == other.item_id),
    {
        self.crate_id == other.crate_id && self.item_id == other.item_id
    }

    pub fn is_function(&self) -> (r: bool)
        ensures
            r == (self.kind is Function),
    {
        if let ItemKind::Function { .. } = &self.kind {
            true
        } else {
            false
        }
    }

    /// Abi and name of a function that stands for an intrinsic.
    pub fn func_extern(&self) -> (r: Result<&Option<(FunctionAbi, String)>, CompileError>)
        ensures
            match r {
                Ok(x) => self.kind matches ItemKind::Function { extern_name, .. } && *x
                    == extern_name,
                Err(e) => !(self.kind is Function) && e == CompileError::ItemMismatch,
            },
    {
        match &self.kind {
            ItemKind::Function { extern_name, .. } => Ok(extern_name),
            _ => Err(CompileError::ItemMismatch),
        }
    }

    pub open spec fn stored_ir(&self) -> Option<Arc<IRFunction>> {
        match self.kind {
            ItemKind::Function { ir, .. } => ir,
            ItemKind::Constant { ir, .. } => ir,
            _ => None,
        }
    }

    pub open spec fn has_body(&self) -> bool {
        self.kind is Function || self.kind is Constant
    }

    pub open spec fn virtual_info(&self) -> Option<VirtualInfo> {
        match self.kind {
            ItemKind::Function { virtual_info, .. } => virtual_info,
            ItemKind::Constant { virtual_info, .. } => virtual_info,
            ItemKind::AssociatedType { virtual_info } => Some(virtual_info),
            _ => None,
        }
    }

    /// The body as it is stored, without looking for an implementation.
    pub fn raw_ir(&self) -> (r: Result<Option<Arc<IRFunction>>, CompileError>)
        ensures
            r == (if self.has_body() {
                Ok::<Option<Arc<IRFunction>>, CompileError>(self.stored_ir())
            } else {
                Err(CompileError::ItemMismatch)
            }),
    {
        match &self.kind {
            ItemKind::Function { ir, .. } | ItemKind::Constant { ir, .. } => match ir {
                Some(x) => Ok(Some(arc_clone(x))),
                None => Ok(None),
            },
            _ => Err(CompileError::ItemMismatch),
        }
    }

    /// Stores the body of a function or constant.
    pub fn set_raw_ir(&mut self, new_ir: Arc<IRFunction>) -> (r: Result<(), CompileError>)
        ensures
            final(self).crate_id == old(self).crate_id,
            final(self).item_id == old(self).item_id,
            final(self).path == old(self).path,
            match r {
                Ok(_) => old(self).has_body() && final(self).stored_ir() == Some(new_ir)
                    && final(self).virtual_info() == old(self).virtual_info() && (final(self).kind is Function <==> old(self).kind is Function),
                Err(e) => !old(self).has_body() && e == CompileError::ItemMismatch && final(self).kind == old(self).kind,
            },
    {
        match &mut self.kind {
            ItemKind::Function { ir, .. } => {
                *ir = Some(new_ir);
                Ok(())
            },
            ItemKind::Constant { ir, .. } => {
                *ir = Some(new_ir);
                Ok(())
            },
            _ => Err(CompileError::ItemMismatch),
        }
    }

    /// For a constructor: the struct or enum and the variant that it builds.
    pub fn ctor_info(&self) -> (r: Result<Option<(ItemId, u32)>, CompileError>)
        ensures
            r == (match self.kind {
                ItemKind::Function { ctor_for, .. } => Ok(ctor_for),
                ItemKind::Constant { ctor_for, .. } => Ok(ctor_for),
                _ => Err(CompileError::ItemMismatch),
            }),
    {
        match &self.kind {
            ItemKind::Function { ctor_for, .. } => Ok(*ctor_for),
            ItemKind::Constant { ctor_for, .. } => Ok(*ctor_for),
            _ => Err(CompileError::ItemMismatch),
        }
    }

    /// The variants and fields of a struct or enum.
    pub fn adt_info(&self) -> (r: Result<&AdtInfo, CompileError>)
        ensures
            match r {
                Ok(a) => self.kind matches ItemKind::Adt { info } && info == Some(*a),
                Err(e) => match self.kind {
                    ItemKind::Adt { info } => info is None && e == CompileError::MissingIr,
                    _ => e == CompileError::ItemMismatch,
                },
            },
    {
        match &self.kind {
            ItemKind::Adt { info } => match info {
                Some(a) => Ok(a),
                None => Err(CompileError::MissingIr),
            },
            _ => Err(CompileError::ItemMismatch),
        }
    }

    /// Stores the variants of a struct or enum, unless they are stored already.
    pub fn set_adt_info(&mut self, new_info: AdtInfo) -> (r: Result<(), CompileError>)
        ensures
            final(self).crate_id == old(self).crate_id,
            final(self).item_id == old(self).item_id,
            final(self).path == old(self).path,
            match r {
                Ok(_) => old(self).kind matches ItemKind::Adt { info } && final(self).kind == (
                    ItemKind::Adt { info: if info is None { Some(new_info) } else { info } }
                ),
                Err(e) => !(old(self).kind is Adt) && e == CompileError::ItemMismatch && final(self).kind == old(self).kind,
            },
    {
        match &mut self.kind {
            ItemKind::Adt { info } => {
                if info.is_none() {
                    *info = Some(new_info);
                }
                Ok(())
            },
            _ => Err(CompileError::ItemMismatch),
        }
    }

    pub open spec fn impls(&self) -> Seq<TraitImpl> {
        match self.kind {
            ItemKind::Trait { impl_list, .. } => impl_list@,
            _ => Seq::empty(),
        }
    }

    pub open spec fn builtin(&self) -> Option<BuiltinTrait> {
        match self.kind {
            ItemKind::Trait { builtin, .. } => builtin,
            _ => None,
        }
    }

    pub open spec fn assoc_map(&self) -> Option<AssocMap> {
        match self.kind {
            ItemKind::Trait { assoc_value_map, .. } => assoc_value_map,
            _ => None,
        }
    }

    /// Appends an implementation to a trait and returns its index.
    pub fn add_trait_impl(&mut self, info: TraitImpl) -> (r: Result<usize, CompileError>)
        ensures
            final(self).crate_id == old(self).crate_id,
            final(self).item_id == old(self).item_id,
            final(self).path == old(self).path,
            match r {
                Ok(i) => old(self).kind is Trait && final(self).kind is Trait && i == old(self).impls().len() && final(self).impls() == old(self).impls().push(info) && final(self).builtin() == old(self).builtin() && final(self).assoc_map() == old(self).assoc_map(),
                Err(e) => !(old(self).kind is Trait) && e == CompileError::ItemMismatch && final(self).kind == old(self).kind,
            },
    {
        match &mut self.kind {
            ItemKind::Trait { impl_list, .. } => {
                let index = impl_list.len();
                impl_list.push(info);
                Ok(index)
            },
            _ => Err(CompileError::ItemMismatch),
        }
    }

    /// Tags a trait as builtin, unless it is tagged already.
    pub fn trait_set_builtin(&mut self, new_builtin: BuiltinTrait) -> (r: Result<
        (),
        CompileError,
    >)
        ensures
            final(self).crate_id == old(self).crate_id,
            final(self).item_id == old(self).item_id,
            final(self).path == old(self).path,
            match r {
                Ok(_) => old(self).kind is Trait && final(self).kind is Trait && final(self).impls() == old(self).impls() && final(self).assoc_map() == old(self).assoc_map() && final(self).builtin() == Some(
                    match old(self).builtin() {
                        Some(b) => b,
                        None => new_builtin,
                    },
                ),
                Err(e) => !(old(self).kind is Trait) && e == CompileError::ItemMismatch && final(self).kind == old(self).kind,
            },
    {
        match &mut self.kind {
            ItemKind::Trait { builtin, .. } => {
                if builtin.is_none() {
                    *builtin = Some(new_builtin);
                }
                Ok(())
            },
            _ => Err(CompileError::ItemMismatch),
        }
    }

    /// Gives a trait its member table, unless it has one already.
    pub fn trait_set_assoc_value_map(&mut self, new_map: AssocMap) -> (r: Result<
        (),
        CompileError,
    >)
        ensures
            final(self).crate_id == old(self).crate_id,
            final(self).item_id == old(self).item_id,
            final(self).path == old(self).path,
            match r {
                Ok(_) => old(self).kind is Trait && final(self).kind is Trait && final(self).impls() == old(self).impls() && final(self).builtin() == old(self).builtin()
                    && final(self).assoc_map() == Some(
                    match old(self).assoc_map() {
                        Some(m) => m,
                        None => new_map,
                    },
                ),
                Err(e) => !(old(self).kind is Trait) && e == CompileError::ItemMismatch && final(self).kind == old(self).kind,
            },
    {
        match &mut self.kind {
            ItemKind::Trait { assoc_value_map, .. } => {
                if assoc_value_map.is_none() {
                    *assoc_value_map = Some(new_map);
                }
                Ok(())
            },
            _ => Err(CompileError::ItemMismatch),
        }
    }
}

} // verus!
