use std::sync::Arc;

use skitter::closure::{build_ir_for_trait, Closure};
use skitter::error::CompileError;
use skitter::ids::{CrateId, ItemId, ItemRef};
use skitter::instr::FuncId;
use skitter::ir::{
    BindingMode, ExprKind, FieldPattern, FnTrait, FunctionSig, IRFunction, IRFunctionBuilder,
    PatternId, PatternKind,
};
use skitter::items::{
    AssocValue, BoundKind, BuiltinTrait, FunctionAbi, GenericCounts, IRFlag, ItemKind, ItemPath,
    ItemWithSubs, NameSpace, TraitImpl,
};
use skitter::matcher::{subs_match, trait_match, type_match, ImplChoice, SubEntry, SubMap, SubSide};
use skitter::paths::{ident_from_def, path_from_def, DefPathData, PathInterner};
use skitter::program::Program;
use skitter::types::{IntSign, IntWidth, Mutability, Sub, SubList, Type, TypeContext, TypeKind};
use skitter::vm::{Builtin, FunctionSource, VM};

fn i32_ty(ctx: &mut TypeContext) -> Type {
    ctx.intern(TypeKind::Int(IntWidth::I32, IntSign::Signed)).unwrap()
}

fn tuple(ctx: &mut TypeContext, tys: &[Type]) -> Type {
    let subs: Vec<Sub> = tys.iter().map(|t| Sub::Type(*t)).collect();
    let l = ctx.intern_list(&subs).unwrap();
    ctx.intern(TypeKind::Tuple(l)).unwrap()
}

fn no_generics() -> GenericCounts {
    GenericCounts { lifetimes: 0, types: 0, consts: 0 }
}

#[test]
fn sub_map_keeps_the_first_binding() {
    let mut m = SubMap::new();
    assert!(m.set(SubSide::Rhs, 0, Type(5)));
    assert!(m.set(SubSide::Rhs, 1, Type(6)));
    assert!(m.set(SubSide::Lhs, 0, Type(7)));
    assert!(m.set(SubSide::Rhs, 0, Type(5)));
    assert!(!m.set(SubSide::Rhs, 0, Type(9)));
    assert_eq!(m.map.len(), 3);
    assert_eq!(m.map[0], SubEntry { side: SubSide::Rhs, n: 0, val: Type(5) });
    assert!(!m.assert_empty(SubSide::Lhs));
    assert!(!m.assert_empty(SubSide::Rhs));
    assert!(SubMap::new().assert_empty(SubSide::Lhs));
    let mut target = SubList::new(vec![Sub::Lifetime, Sub::Lifetime, Sub::Lifetime]);
    assert_eq!(m.apply_to(SubSide::Rhs, &mut target), Ok(()));
    assert_eq!(target.list, vec![Sub::Type(Type(5)), Sub::Type(Type(6)), Sub::Lifetime]);
    let mut short = SubList::new(vec![Sub::Lifetime]);
    assert_eq!(m.apply_to(SubSide::Rhs, &mut short), Err(CompileError::MissingSub));
}

#[test]
fn type_match_binds_parameters_of_the_candidate() {
    let mut ctx = TypeContext::new();
    let i = i32_ty(&mut ctx);
    let b = ctx.intern(TypeKind::Bool).unwrap();
    let p0 = ctx.intern(TypeKind::Param(0)).unwrap();
    let p1 = ctx.intern(TypeKind::Param(1)).unwrap();
    let ref_i = ctx.intern(TypeKind::Ref(i, Mutability::Const)).unwrap();
    let ref_p = ctx.intern(TypeKind::Ref(p0, Mutability::Const)).unwrap();
    let mut_p = ctx.intern(TypeKind::Ref(p0, Mutability::Mut)).unwrap();
    let lhs = tuple(&mut ctx, &[ref_i, b]);
    let rhs = tuple(&mut ctx, &[ref_p, p1]);
    let wrong = tuple(&mut ctx, &[mut_p, p1]);
    let twice = tuple(&mut ctx, &[p0, p0]);
    let i_b = tuple(&mut ctx, &[i, b]);
    let i_i = tuple(&mut ctx, &[i, i]);
    let longer = tuple(&mut ctx, &[ref_p, p1, p1]);

    let mut m = SubMap::new();
    assert_eq!(type_match(&ctx, lhs, rhs, &mut m), Ok(true));
    assert_eq!(
        m.map,
        vec![
            SubEntry { side: SubSide::Rhs, n: 0, val: i },
            SubEntry { side: SubSide::Rhs, n: 1, val: b },
        ]
    );
    assert_eq!(type_match(&ctx, lhs, wrong, &mut SubMap::new()), Ok(false));
    assert_eq!(type_match(&ctx, lhs, longer, &mut SubMap::new()), Ok(false));
    assert_eq!(type_match(&ctx, i, i, &mut SubMap::new()), Ok(true));
    assert_eq!(type_match(&ctx, i, b, &mut SubMap::new()), Ok(false));
    // one parameter cannot be two types
    assert_eq!(type_match(&ctx, i_b, twice, &mut SubMap::new()), Ok(false));
    assert_eq!(type_match(&ctx, i_i, twice, &mut SubMap::new()), Ok(true));
    // a parameter on the receiver's side is bound on the left
    let mut left = SubMap::new();
    assert_eq!(type_match(&ctx, p0, i, &mut left), Ok(true));
    assert_eq!(left.map, vec![SubEntry { side: SubSide::Lhs, n: 0, val: i }]);
    assert_eq!(type_match(&ctx, p0, p1, &mut SubMap::new()), Err(CompileError::Unsupported));
    assert_eq!(type_match(&ctx, Type(999), i, &mut SubMap::new()), Err(CompileError::BadType));
    let s = ctx.intern(TypeKind::StringSlice).unwrap();
    assert_eq!(type_match(&ctx, s, lhs, &mut SubMap::new()), Err(CompileError::Unsupported));
}

#[test]
fn lists_match_entry_by_entry() {
    let mut ctx = TypeContext::new();
    let i = i32_ty(&mut ctx);
    let p0 = ctx.intern(TypeKind::Param(0)).unwrap();
    let a = SubList::new(vec![Sub::Lifetime, Sub::Type(i), Sub::Const(3)]);
    let b = SubList::new(vec![Sub::Lifetime, Sub::Type(p0), Sub::Const(3)]);
    let c = SubList::new(vec![Sub::Lifetime, Sub::Type(p0), Sub::Const(4)]);
    let d = SubList::new(vec![Sub::Type(i)]);
    let mut m = SubMap::new();
    assert_eq!(subs_match(&ctx, &a, &b, &mut m), Ok(true));
    assert_eq!(m.map.len(), 1);
    assert_eq!(subs_match(&ctx, &a, &c, &mut SubMap::new()), Ok(false));
    assert_eq!(subs_match(&ctx, &a, &d, &mut SubMap::new()), Ok(false));
    assert_eq!(trait_match(&ctx, &a, &b).unwrap().unwrap().map.len(), 1);
    assert!(trait_match(&ctx, &a, &c).unwrap().is_none());
    // the shorter list decides how far the comparison goes
    assert!(trait_match(&ctx, &a, &SubList::new(vec![])).unwrap().is_some());
}

fn add_trait(prog: &mut Program<'static>, name: &'static str) -> ItemRef {
    let id = prog.crates[0].add(ItemPath::for_type(name), ItemKind::new_trait()).unwrap();
    ItemRef { crate_id: CrateId(0), item_id: id }
}

fn add_impl(prog: &mut Program<'static>, t: ItemRef, imp: TraitImpl) -> usize {
    prog.crates[0].items[t.item_id.index()].add_trait_impl(imp).unwrap()
}

fn simple_impl(for_ty: Type, value: Option<AssocValue>) -> TraitImpl {
    TraitImpl {
        for_types: SubList::new(vec![Sub::Type(for_ty)]),
        crate_id: CrateId(0),
        assoc_values: vec![value],
        bounds: vec![],
        generics: no_generics(),
    }
}

#[test]
fn the_first_implementation_that_applies_is_selected() {
    let mut ctx = TypeContext::new();
    let i = i32_ty(&mut ctx);
    let b = ctx.intern(TypeKind::Bool).unwrap();
    let c = ctx.intern(TypeKind::Char).unwrap();
    let p0 = ctx.intern(TypeKind::Param(0)).unwrap();
    let mut prog = Program::new();
    prog.add_crate().unwrap();
    let t = add_trait(&mut prog, "::T");
    assert_eq!(add_impl(&mut prog, t, simple_impl(i, None)), 0);
    assert_eq!(
        add_impl(
            &mut prog,
            t,
            TraitImpl {
                for_types: SubList::new(vec![Sub::Type(p0)]),
                crate_id: CrateId(0),
                assoc_values: vec![None],
                bounds: vec![],
                generics: GenericCounts { lifetimes: 0, types: 1, consts: 0 },
            }
        ),
        1
    );
    assert_eq!(add_impl(&mut prog, t, simple_impl(b, None)), 2);
    let find = |ctx: &mut TypeContext, ty: Type| {
        prog.find_trait_impl(ctx, t, &SubList::new(vec![Sub::Type(ty)]), 8)
            .unwrap()
            .map(|(choice, subs)| (choice, subs.list))
    };
    assert_eq!(find(&mut ctx, i), Some((ImplChoice::Listed(0), vec![])));
    // the blanket implementation comes before the one for `bool`
    assert_eq!(find(&mut ctx, b), Some((ImplChoice::Listed(1), vec![Sub::Type(b)])));
    assert_eq!(find(&mut ctx, c), Some((ImplChoice::Listed(1), vec![Sub::Type(c)])));
    assert_eq!(find(&mut ctx, b), find(&mut ctx, b));
    assert_eq!(prog.trait_has_impl(&mut ctx, t, &SubList::new(vec![Sub::Type(c)]), 8), Ok(true));
    let item = &prog.crates[0].items[t.item_id.index()];
    assert_eq!(item.trait_has_impl(&mut ctx, &prog, &SubList::new(vec![Sub::Type(c)]), 8), Ok(true));
    assert_eq!(
        item.find_trait_impl(&mut ctx, &prog, &SubList::new(vec![Sub::Type(i)]), 8)
            .unwrap()
            .map(|x| x.0),
        Some(ImplChoice::Listed(0))
    );
}

#[test]
fn bounds_decide_whether_a_candidate_applies() {
    let mut ctx = TypeContext::new();
    let i = i32_ty(&mut ctx);
    let b = ctx.intern(TypeKind::Bool).unwrap();
    let p0 = ctx.intern(TypeKind::Param(0)).unwrap();
    let mut prog = Program::new();
    prog.add_crate().unwrap();
    let marker = add_trait(&mut prog, "::Marker");
    let t = add_trait(&mut prog, "::T");
    add_impl(&mut prog, marker, simple_impl(i, None));
    // impl<X: Marker> T for X
    add_impl(
        &mut prog,
        t,
        TraitImpl {
            for_types: SubList::new(vec![Sub::Type(p0)]),
            crate_id: CrateId(0),
            assoc_values: vec![None],
            bounds: vec![BoundKind::Trait(ItemWithSubs {
                item: marker,
                subs: SubList::new(vec![Sub::Type(p0)]),
            })],
            generics: GenericCounts { lifetimes: 0, types: 1, consts: 0 },
        },
    );
    let has = |ctx: &mut TypeContext, ty: Type, depth: u32| {
        prog.trait_has_impl(ctx, t, &SubList::new(vec![Sub::Type(ty)]), depth)
    };
    assert_eq!(has(&mut ctx, i, 8), Ok(true));
    assert_eq!(has(&mut ctx, b, 8), Ok(false));
    assert_eq!(has(&mut ctx, i, 0), Err(CompileError::DepthExceeded));
    assert_eq!(
        prog.trait_has_impl(&mut ctx, ItemRef { crate_id: CrateId(0), item_id: ItemId(9) }, &SubList::new(vec![]), 8),
        Err(CompileError::ItemMismatch)
    );
}

#[test]
fn associated_types_resolve_through_the_implementation() {
    let mut ctx = TypeContext::new();
    let i = i32_ty(&mut ctx);
    let b = ctx.intern(TypeKind::Bool).unwrap();
    let c = ctx.intern(TypeKind::Char).unwrap();
    let p0 = ctx.intern(TypeKind::Param(0)).unwrap();
    let ref_p0 = ctx.intern(TypeKind::Ref(p0, Mutability::Const)).unwrap();
    let mut prog = Program::new();
    prog.add_crate().unwrap();
    let t = add_trait(&mut prog, "::Iter");
    let assoc = prog.crates[0]
        .add(ItemPath::for_type("::Iter::Item"), ItemKind::new_associated_type(t.item_id, 0))
        .unwrap();
    let assoc = ItemRef { crate_id: CrateId(0), item_id: assoc };
    add_impl(&mut prog, t, simple_impl(i, Some(AssocValue::Type(b))));
    // impl<X> Iter for &X { type Item = X; }
    add_impl(
        &mut prog,
        t,
        TraitImpl {
            for_types: SubList::new(vec![Sub::Type(ref_p0)]),
            crate_id: CrateId(0),
            assoc_values: vec![Some(AssocValue::Type(p0))],
            bounds: vec![],
            generics: GenericCounts { lifetimes: 0, types: 1, consts: 0 },
        },
    );
    let ref_c = ctx.intern(TypeKind::Ref(c, Mutability::Const)).unwrap();
    let resolve = |ctx: &mut TypeContext, ty: Type| {
        prog.resolve_associated_ty(ctx, assoc, &SubList::new(vec![Sub::Type(ty)]), 8)
    };
    assert_eq!(resolve(&mut ctx, i), Ok(b));
    assert_eq!(resolve(&mut ctx, ref_c), Ok(c));
    assert_eq!(resolve(&mut ctx, c), Err(CompileError::NoImpl));
    assert_eq!(
        prog.resolve_associated_ty(&mut ctx, t, &SubList::new(vec![Sub::Type(i)]), 8),
        Err(CompileError::ItemMismatch)
    );
    // impl<X: Iter<Item = bool>> Other for X
    let other = add_trait(&mut prog, "::Other");
    add_impl(
        &mut prog,
        other,
        TraitImpl {
            for_types: SubList::new(vec![Sub::Type(p0)]),
            crate_id: CrateId(0),
            assoc_values: vec![],
            bounds: vec![BoundKind::Projection(
                ItemWithSubs { item: assoc, subs: SubList::new(vec![Sub::Type(p0)]) },
                b,
            )],
            generics: GenericCounts { lifetimes: 0, types: 1, consts: 0 },
        },
    );
    assert_eq!(prog.trait_has_impl(&mut ctx, other, &SubList::new(vec![Sub::Type(i)]), 8), Ok(true));
    assert_eq!(prog.trait_has_impl(&mut ctx, other, &SubList::new(vec![Sub::Type(ref_c)]), 8), Ok(false));
}

#[test]
fn builtin_traits_follow_the_shape() {
    let mut ctx = TypeContext::new();
    let i = i32_ty(&mut ctx);
    let slice = ctx.intern(TypeKind::Slice(i)).unwrap();
    let pair = tuple(&mut ctx, &[i, i]);
    let mut prog = Program::new();
    prog.add_crate().unwrap();
    let sized = add_trait(&mut prog, "::Sized");
    let tup = add_trait(&mut prog, "::Tuple");
    prog.crates[0].items[sized.item_id.index()].trait_set_builtin(BuiltinTrait::Sized).unwrap();
    prog.crates[0].items[tup.item_id.index()].trait_set_builtin(BuiltinTrait::Tuple).unwrap();
    // set once
    prog.crates[0].items[tup.item_id.index()].trait_set_builtin(BuiltinTrait::Fn).unwrap();
    let find = |ctx: &mut TypeContext, t: ItemRef, ty: Type| {
        prog.find_trait_impl(ctx, t, &SubList::new(vec![Sub::Type(ty)]), 8).unwrap().map(|x| x.0)
    };
    assert_eq!(find(&mut ctx, sized, i), Some(ImplChoice::Builtin(BuiltinTrait::Sized)));
    assert_eq!(find(&mut ctx, sized, slice), None);
    assert_eq!(find(&mut ctx, tup, pair), Some(ImplChoice::Builtin(BuiltinTrait::Tuple)));
    assert_eq!(find(&mut ctx, tup, i), None);
}

#[test]
fn from_summary_makes_placeholders() {
    let mut ctx = TypeContext::new();
    let list = SubList::from_summary(&mut ctx, &GenericCounts { lifetimes: 2, types: 2, consts: 0 })
        .unwrap()
        .list;
    assert_eq!(list.len(), 4);
    assert_eq!(list[0], Sub::Lifetime);
    assert_eq!(list[1], Sub::Lifetime);
    match (list[2], list[3]) {
        (Sub::Type(a), Sub::Type(b)) => {
            assert_eq!(ctx.kind(a), Ok(TypeKind::Param(2)));
            assert_eq!(ctx.kind(b), Ok(TypeKind::Param(3)));
        }
        _ => panic!("placeholders expected"),
    }
    assert_eq!(
        SubList::from_summary(&mut ctx, &GenericCounts { lifetimes: 0, types: 0, consts: 1 }).err(),
        Some(CompileError::Unsupported)
    );
}

fn leaf_ir(ty: Type) -> IRFunction {
    let mut b = IRFunctionBuilder::new();
    let e = b.add_expr(ExprKind::LiteralValue(1), ty).unwrap();
    b.finish(FunctionSig { inputs: vec![], output: ty }, vec![], e, false)
}

#[test]
fn monomorphizations_are_handed_out_once() {
    let mut vm = VM::new(false);
    let i = i32_ty(&mut vm.types);
    let b = vm.types.intern(TypeKind::Bool).unwrap();
    let p0 = vm.types.intern(TypeKind::Param(0)).unwrap();
    let mut prog = Program::new();
    prog.add_crate().unwrap();
    let f = prog.crates[0].add(ItemPath::for_value("::f"), ItemKind::new_function()).unwrap();
    let g = prog.crates[0].add(ItemPath::for_value("::g"), ItemKind::new_function()).unwrap();
    let t = prog.crates[0].add(ItemPath::for_type("::T"), ItemKind::new_trait()).unwrap();
    let f = ItemRef { crate_id: CrateId(0), item_id: f };
    let g = ItemRef { crate_id: CrateId(0), item_id: g };
    let with_i = SubList::new(vec![Sub::Type(i)]);
    let with_b = SubList::new(vec![Sub::Type(b)]);
    let h0 = vm.func_mono(&prog, f, &with_i).unwrap();
    let h1 = vm.func_mono(&prog, f, &with_b).unwrap();
    let h2 = vm.func_mono(&prog, g, &with_i).unwrap();
    assert_eq!((h0, h1, h2), (FuncId(0), FuncId(1), FuncId(2)));
    assert_eq!(vm.func_mono(&prog, f, &with_i), Ok(h0));
    assert_eq!(vm.func_mono(&prog, g, &with_i), Ok(h2));
    assert_eq!(vm.func_mono(&prog, f, &SubList::new(vec![Sub::Type(i)])), Ok(h0));
    assert_eq!(vm.functions.len(), 3);
    assert_eq!(vm.functions[1].source, FunctionSource::Item(f));
    assert_eq!(prog.crates[0].items[0].func_mono(&mut vm, &prog, &with_b), Ok(h1));
    assert_eq!(
        vm.func_mono(&prog, f, &SubList::new(vec![Sub::Type(p0)])),
        Err(CompileError::NotConcrete)
    );
    assert_eq!(
        vm.func_mono(&prog, ItemRef { crate_id: CrateId(0), item_id: t }, &with_i),
        Err(CompileError::ItemMismatch)
    );
    assert_eq!(
        vm.func_mono(&prog, ItemRef { crate_id: CrateId(3), item_id: ItemId(0) }, &with_i),
        Err(CompileError::ItemMismatch)
    );
    assert_eq!(vm.closure_mono(&prog, 0, &with_i), Err(CompileError::ItemMismatch));
    prog.alloc_closure().unwrap();
    let c0 = vm.closure_mono(&prog, 0, &with_i).unwrap();
    assert_eq!(c0, FuncId(3));
    assert_eq!(vm.closure_mono(&prog, 0, &with_i), Ok(c0));
    assert_eq!(vm.functions[3].source, FunctionSource::Closure(0));
}

#[test]
fn builtin_items_become_native_functions() {
    let mut vm = VM::new(false);
    let mut prog = Program::new();
    prog.add_crate().unwrap();
    let names = [
        ("::_builtin::print_int", Some(Builtin::PrintInt)),
        ("::_builtin::print_uint", Some(Builtin::PrintUint)),
        ("::_builtin::print_float", Some(Builtin::PrintFloat)),
        ("::_builtin::print_bool", Some(Builtin::PrintBool)),
        ("::_builtin::print_char", Some(Builtin::PrintChar)),
        ("::main", None),
        ("::_builtin", None),
    ];
    for (i, (name, native)) in names.iter().enumerate() {
        let id = prog.crates[0].add(ItemPath::for_value(name), ItemKind::new_function()).unwrap();
        assert_eq!(id.index(), i);
        let f = vm
            .func_mono(&prog, ItemRef { crate_id: CrateId(0), item_id: id }, &SubList::new(vec![]))
            .unwrap();
        assert_eq!(vm.get_native(f), *native);
        assert_eq!(
            FunctionSource::Item(ItemRef { crate_id: CrateId(0), item_id: id }).debug_name(&prog),
            Ok(*name)
        );
    }
    let bad = prog.crates[0]
        .add(ItemPath::for_value("::_builtin::print_all"), ItemKind::new_function())
        .unwrap();
    assert_eq!(
        vm.func_mono(&prog, ItemRef { crate_id: CrateId(0), item_id: bad }, &SubList::new(vec![])),
        Err(CompileError::Unsupported)
    );
    assert_eq!(FunctionSource::Closure(4).debug_name(&prog), Ok("[closure]"));
}

#[test]
fn items_carry_their_kind() {
    let mut prog = Program::new();
    let c = prog.add_crate().unwrap();
    assert_eq!(c, CrateId::new(0));
    assert_eq!(prog.add_crate(), Some(CrateId(1)));
    let f = prog.crates[0].add(ItemPath::for_value("::f"), ItemKind::new_function()).unwrap();
    let x = prog.crates[0]
        .add(
            ItemPath::for_value("::x"),
            ItemKind::new_function_extern(FunctionAbi::RustIntrinsic, "size_of".to_owned()),
        )
        .unwrap();
    let k = prog.crates[0].add(ItemPath::for_value("::K"), ItemKind::new_const()).unwrap();
    let ctor = prog.crates[0]
        .add(ItemPath::for_value("::S"), ItemKind::new_function_ctor(ItemId(9), 2))
        .unwrap();
    let kc = prog.crates[0]
        .add(ItemPath::for_value("::U"), ItemKind::new_const_ctor(ItemId(8), 0))
        .unwrap();
    let kv = prog.crates[0]
        .add(ItemPath::for_value("::T::K"), ItemKind::new_const_virtual(ItemId(7), 1))
        .unwrap();
    let d = prog.crates[0].add(ItemPath::for_debug("::{impl}"), ItemKind::new_adt()).unwrap();
    assert_eq!((f, x, k), (ItemId::new(0), ItemId(1), ItemId(2)));
    let items = &prog.crates[0].items;
    assert!(items[0].is_function());
    assert!(!items[2].is_function());
    assert_eq!(items[0].func_extern(), Ok(&None));
    assert_eq!(items[1].func_extern(), Ok(&Some((FunctionAbi::RustIntrinsic, "size_of".to_owned()))));
    assert_eq!(items[2].func_extern(), Err(CompileError::ItemMismatch));
    assert_eq!(items[0].ctor_info(), Ok(None));
    assert_eq!(items[ctor.index()].ctor_info(), Ok(Some((ItemId(9), 2))));
    assert_eq!(items[kc.index()].ctor_info(), Ok(Some((ItemId(8), 0))));
    assert_eq!(items[kv.index()].ctor_info(), Ok(None));
    assert_eq!(items[d.index()].ctor_info(), Err(CompileError::ItemMismatch));
    assert!(items[0].raw_ir().unwrap().is_none());
    assert!(items[d.index()].raw_ir().is_err());
    assert!(items[d.index()].adt_info().is_err());
    assert!(items[0].same(&items[0]));
    assert!(!items[0].same(&items[1]));
    assert_eq!(items[1].item_ref(), ItemRef { crate_id: CrateId(0), item_id: ItemId(1) });
    // lookups
    assert!(prog.crates[0].item_by_id(ItemId(1)).is_ok());
    assert!(prog.crates[0].item_by_id(ItemId(99)).is_err());
    assert_eq!(prog.crates[0].item_by_path(&ItemPath::for_value("::K")).unwrap().item_id, k);
    assert!(prog.crates[0].item_by_path(&ItemPath::for_type("::K")).is_none());
    assert!(prog.crates[0].item_by_path(&ItemPath::for_debug("::{impl}")).is_none());
    assert!(prog.crates[0].item_by_path(&ItemPath::for_value("::nope")).is_none());
    assert_eq!(prog.crates[0].build_ir(f).err(), Some(CompileError::MissingIr));
    assert_eq!(prog.crates[0].build_ir(d).err(), Some(CompileError::ItemMismatch));
    assert_eq!(prog.crates[0].build_adt(d).err(), Some(CompileError::MissingIr));
    assert_eq!(prog.crates[0].build_adt(f).err(), Some(CompileError::ItemMismatch));
    assert!(prog.crate_provider(CrateId(1)).is_ok());
    assert!(prog.crate_provider(CrateId(2)).is_err());
    let ir = Arc::new(leaf_ir(Type(0)));
    prog.crates[0].items[0].set_raw_ir(ir.clone()).unwrap();
    assert!(Arc::ptr_eq(&prog.crates[0].items[0].raw_ir().unwrap().unwrap(), &ir));
    assert!(Arc::ptr_eq(&prog.crates[0].build_ir(f).unwrap(), &ir));
    assert_eq!(prog.crates[0].items[d.index()].set_raw_ir(ir), Err(CompileError::ItemMismatch));
}

#[test]
fn paths() {
    assert!(ItemPath::main().can_lookup());
    assert_eq!(ItemPath::main().as_string(), "::main");
    assert_eq!(ItemPath::main().0, NameSpace::Value);
    assert!(ItemPath::for_type("::A").can_lookup());
    assert!(ItemPath::for_value("::a").can_lookup());
    assert!(!ItemPath::for_debug("::{impl}").can_lookup());
    assert_eq!(ItemPath::for_debug("::{impl}").as_string(), "::{impl}");
    assert!(ItemPath::for_type("::A").same(&ItemPath::for_type("::A")));
    assert!(!ItemPath::for_type("::A").same(&ItemPath::for_value("::A")));
    assert!(!ItemPath::for_type("::A").same(&ItemPath::for_type("::B")));
    assert_eq!(NameSpace::Type.code(), 0);
    assert_eq!(NameSpace::Value.code(), 1);
    assert_eq!(NameSpace::DebugOnly.code(), 2);
}

#[test]
fn interned_paths_share_their_text() {
    let arena = colosseum::sync::Arena::new();
    let mut interner = PathInterner::new(&arena);
    let a = interner.alloc_path("::a::b");
    let b = interner.alloc_path(&String::from("::a::b"));
    let c = interner.alloc_path("::a::c");
    assert_eq!(a, "::a::b");
    assert_eq!(c, "::a::c");
    assert!(std::ptr::eq(a, b));
    assert!(!std::ptr::eq(a, c));
    assert_eq!(interner.known.len(), 2);
}

#[test]
fn definition_paths() {
    let arena = colosseum::sync::Arena::new();
    let mut interner = PathInterner::new(&arena);
    let v = |s: &str| DefPathData::ValueNs(s.to_owned());
    let t = |s: &str| DefPathData::TypeNs(s.to_owned());
    let p = path_from_def(&vec![t("a"), v("f")], &mut interner).unwrap();
    assert_eq!((p.0, p.1), (NameSpace::Value, "::a::f"));
    let p = path_from_def(&vec![t("a"), t("S")], &mut interner).unwrap();
    assert_eq!((p.0, p.1), (NameSpace::Type, "::a::S"));
    let p = path_from_def(&vec![t("S"), DefPathData::Ctor], &mut interner).unwrap();
    assert_eq!((p.0, p.1), (NameSpace::Value, "::S"));
    let p = path_from_def(&vec![DefPathData::ForeignMod, v("f")], &mut interner).unwrap();
    assert_eq!((p.0, p.1), (NameSpace::Value, "::f"));
    let p = path_from_def(&vec![t("a"), DefPathData::Impl, v("f")], &mut interner).unwrap();
    assert_eq!((p.0, p.1), (NameSpace::DebugOnly, "::a::{impl}::f"));
    let p = path_from_def(&vec![v("f"), DefPathData::ClosureExpr], &mut interner).unwrap();
    assert_eq!((p.0, p.1), (NameSpace::DebugOnly, "::f::{closure}"));
    let p = path_from_def(&vec![v("_"), v("f")], &mut interner).unwrap();
    assert_eq!((p.0, p.1), (NameSpace::DebugOnly, "::_::f"));
    assert_eq!(path_from_def(&vec![], &mut interner).err(), Some(CompileError::Unsupported));
    assert_eq!(
        path_from_def(&vec![v("f"), DefPathData::ForeignMod], &mut interner).err(),
        Some(CompileError::Unsupported)
    );
    assert_eq!(
        path_from_def(&vec![DefPathData::Other, v("f")], &mut interner).err(),
        Some(CompileError::Unsupported)
    );
    let p = ident_from_def(&vec![t("a"), v("f")], &mut interner).unwrap();
    assert_eq!((p.0, p.1), (NameSpace::Value, "f"));
    let p = ident_from_def(&vec![t("a"), t("Item")], &mut interner).unwrap();
    assert_eq!((p.0, p.1), (NameSpace::Type, "Item"));
    assert_eq!(
        ident_from_def(&vec![t("S"), DefPathData::Ctor], &mut interner).err(),
        Some(CompileError::Unsupported)
    );
    assert_eq!(ident_from_def(&vec![], &mut interner).err(), Some(CompileError::Unsupported));
}

#[test]
fn member_tables_place_values_by_path() {
    let mut prog = Program::new();
    prog.add_crate().unwrap();
    let mut table = ahash::AHashMap::new();
    table.insert((NameSpace::Type.code(), "Item".to_owned()), 1u32);
    table.insert((NameSpace::Value.code(), "next".to_owned()), 0u32);
    table.insert((NameSpace::Value.code(), "size".to_owned()), 2u32);
    let t = prog.crates[0]
        .add(ItemPath::for_type("::Iter"), ItemKind::new_trait_with(table, None))
        .unwrap();
    let item = &prog.crates[0].items[t.index()];
    let got = item
        .trait_build_assoc_values_for_impl(&vec![
            (ItemPath::for_type("Item"), AssocValue::Type(Type(7))),
            (ItemPath::for_value("next"), AssocValue::Item(ItemId(4))),
        ])
        .unwrap();
    assert_eq!(got.len(), 3);
    assert!(matches!(got[0], Some(AssocValue::Item(ItemId(4)))));
    assert!(matches!(got[1], Some(AssocValue::Type(Type(7)))));
    assert!(got[2].is_none());
    assert_eq!(
        item.trait_build_assoc_values_for_impl(&vec![(
            ItemPath::for_value("Item"),
            AssocValue::Type(Type(7))
        )])
        .err(),
        Some(CompileError::NoImpl)
    );
    let plain = prog.crates[0].add(ItemPath::for_type("::Plain"), ItemKind::new_trait()).unwrap();
    assert_eq!(
        prog.crates[0].items[plain.index()].trait_build_assoc_values_for_impl(&vec![]).err(),
        Some(CompileError::ItemMismatch)
    );
    // a table is given once
    let mut second = ahash::AHashMap::new();
    second.insert((NameSpace::Value.code(), "only".to_owned()), 0u32);
    prog.crates[0].items[plain.index()].trait_set_assoc_value_map(second).unwrap();
    prog.crates[0].items[plain.index()].trait_set_assoc_value_map(ahash::AHashMap::new()).unwrap();
    let got = prog.crates[0].items[plain.index()]
        .trait_build_assoc_values_for_impl(&vec![(ItemPath::for_value("only"), AssocValue::Item(ItemId(1)))])
        .unwrap();
    assert_eq!(got.len(), 1);
}

#[test]
fn child_closures_are_found_by_their_path() {
    let mut prog = Program::new();
    prog.add_crate().unwrap();
    let f = prog.crates[0].add(ItemPath::for_value("::f"), ItemKind::new_function()).unwrap();
    let k = prog.crates[0].add(ItemPath::for_value("::K"), ItemKind::new_const()).unwrap();
    let t = prog.crates[0].add(ItemPath::for_type("::T"), ItemKind::new_trait()).unwrap();
    let Program { crates, closures } = &mut prog;
    let items = &mut crates[0].items;
    assert_eq!(items[f.index()].child_closure(closures, vec![0, 1]), Ok(0));
    assert_eq!(items[f.index()].child_closure(closures, vec![0, 2]), Ok(1));
    assert_eq!(items[f.index()].child_closure(closures, vec![0, 1]), Ok(0));
    assert_eq!(closures.len(), 2);
    assert_eq!(items[k.index()].child_closure(closures, vec![0, 1]), Ok(2));
    assert_eq!(items[k.index()].child_closure(closures, vec![0, 1]), Ok(3));
    assert_eq!(items[t.index()].child_closure(closures, vec![]), Err(CompileError::ItemMismatch));
    assert_eq!(closures[3].unique_id, 3);
    assert!(closures[1].same(&closures[1]));
    assert!(!closures[1].same(&closures[2]));
}

#[test]
fn closure_bodies_are_specialized_for_the_three_traits() {
    let mut ctx = TypeContext::new();
    let i = i32_ty(&mut ctx);
    let env = tuple(&mut ctx, &[]);
    let l = ctx.intern_list(&vec![]).unwrap();
    let closure_ty = ctx.intern(TypeKind::Closure(0, env, l)).unwrap();
    let mut b = IRFunctionBuilder::new();
    let pa = b
        .add_pattern(
            PatternKind::LocalBinding { local_id: 0, mode: BindingMode::Value, sub_pattern: None },
            i,
        )
        .unwrap();
    let pb = b
        .add_pattern(
            PatternKind::LocalBinding { local_id: 1, mode: BindingMode::Value, sub_pattern: None },
            i,
        )
        .unwrap();
    let e = b.add_expr(ExprKind::VarRef(0), i).unwrap();
    let base = b.finish(FunctionSig { inputs: vec![i, i], output: i }, vec![pa, pb], e, false);

    let for_fn = build_ir_for_trait(&mut ctx, &base, FnTrait::Fn, closure_ty).unwrap();
    let args = tuple(&mut ctx, &[i, i]);
    let shared = ctx.intern(TypeKind::Ref(closure_ty, Mutability::Const)).unwrap();
    assert_eq!(for_fn.closure_kind, Some(FnTrait::Fn));
    assert_eq!(for_fn.sig.inputs, vec![shared, args]);
    assert_eq!(for_fn.sig.output, i);
    assert_eq!(for_fn.params, vec![PatternId(2), PatternId(3)]);
    assert_eq!(for_fn.root_expr, base.root_expr);
    assert!(Arc::ptr_eq(&for_fn.exprs, &base.exprs));
    assert_eq!(for_fn.patterns.len(), 4);
    assert!(Arc::ptr_eq(&for_fn.patterns[0], &base.patterns[0]));
    assert!(matches!(for_fn.patterns[2].kind, PatternKind::Hole));
    assert_eq!(for_fn.patterns[2].ty, shared);
    assert_eq!(for_fn.patterns[3].ty, args);
    match &for_fn.patterns[3].kind {
        PatternKind::Struct { fields } => assert_eq!(
            fields,
            &vec![FieldPattern { field: 0, pattern: pa }, FieldPattern { field: 1, pattern: pb }]
        ),
        _ => panic!("a struct pattern is expected"),
    }
    let for_mut = build_ir_for_trait(&mut ctx, &base, FnTrait::FnMut, closure_ty).unwrap();
    let unique = ctx.intern(TypeKind::Ref(closure_ty, Mutability::Mut)).unwrap();
    assert_eq!(for_mut.sig.inputs, vec![unique, args]);
    let for_once = build_ir_for_trait(&mut ctx, &base, FnTrait::FnOnce, closure_ty).unwrap();
    assert_eq!(for_once.sig.inputs, vec![closure_ty, args]);
    assert_eq!(for_once.closure_kind, Some(FnTrait::FnOnce));

    let mut c = Closure::new(5);
    assert_eq!(c.ir_base().err(), Some(CompileError::MissingIr));
    assert_eq!(c.ir_for_trait(FnTrait::Fn).err(), Some(CompileError::MissingIr));
    c.set_ir_base(&mut ctx, base, closure_ty).unwrap();
    assert_eq!(c.ir_base().unwrap().sig.inputs, vec![i, i]);
    assert_eq!(c.ir_for_trait(FnTrait::Fn).unwrap().sig.inputs, vec![shared, args]);
    assert_eq!(c.ir_for_trait(FnTrait::FnMut).unwrap().sig.inputs, vec![unique, args]);
    assert_eq!(c.ir_for_trait(FnTrait::FnOnce).unwrap().sig.inputs, vec![closure_ty, args]);
    // the body is set once
    c.set_ir_base(&mut ctx, leaf_ir(i), closure_ty).unwrap();
    assert_eq!(c.ir_base().unwrap().sig.inputs, vec![i, i]);
    let _ = IRFlag::Plain;
}
