use skitter::error::CompileError;
use skitter::ids::ItemRef;
use skitter::items::{AdtInfo, AdtKind, ItemKind, ItemPath};
use skitter::layout::LAYOUT_DEPTH;
use skitter::program::Program;
use skitter::types::{
    ArrayLen, Discriminant, IntSign, IntWidth, ListId, Mutability, Sub, SubList, Type, TypeContext,
    TypeKind,
};
use skitter::instr::{FloatWidth, Width};

fn int_ty(ctx: &mut TypeContext, w: IntWidth) -> Type {
    ctx.intern(TypeKind::Int(w, IntSign::Signed)).unwrap()
}

fn tuple(ctx: &mut TypeContext, tys: &[Type]) -> Type {
    let subs: Vec<Sub> = tys.iter().map(|t| Sub::Type(*t)).collect();
    let l = ctx.intern_list(&subs).unwrap();
    ctx.intern(TypeKind::Tuple(l)).unwrap()
}

#[test]
fn interning_gives_equal_kinds_equal_handles() {
    let mut ctx = TypeContext::new();
    let a = int_ty(&mut ctx, IntWidth::I32);
    let b = ctx.intern(TypeKind::Bool).unwrap();
    let a2 = int_ty(&mut ctx, IntWidth::I32);
    assert_eq!(a, Type(0));
    assert_eq!(b, Type(1));
    assert_eq!(a2, a);
    assert_eq!(ctx.kinds.len(), 2);
    assert_eq!(ctx.kind(a), Ok(TypeKind::Int(IntWidth::I32, IntSign::Signed)));
    assert_eq!(ctx.kind(Type(9)), Err(CompileError::BadType));
}

#[test]
fn interning_lists() {
    let mut ctx = TypeContext::new();
    let a = int_ty(&mut ctx, IntWidth::I32);
    let l0 = ctx.intern_list(&vec![]).unwrap();
    let l1 = ctx.intern_list(&vec![Sub::Type(a), Sub::Lifetime]).unwrap();
    let l2 = ctx.intern_list(&vec![Sub::Type(a), Sub::Const(3)]).unwrap();
    assert_eq!(ctx.intern_list(&vec![Sub::Type(a), Sub::Lifetime]), Ok(l1));
    assert_eq!(ctx.intern_list(&vec![]), Ok(l0));
    assert_ne!(l1, l2);
    assert_eq!(ctx.list(l1), Ok(vec![Sub::Type(a), Sub::Lifetime]));
    assert_eq!(ctx.list(l2), Ok(vec![Sub::Type(a), Sub::Const(3)]));
    assert_eq!(ctx.list(ListId(77)), Err(CompileError::BadType));
    assert!(ctx.has_list(l0));
    assert!(!ctx.has_list(ListId(77)));
}

#[test]
fn substitution_replaces_parameters() {
    let mut ctx = TypeContext::new();
    let i32_ty = int_ty(&mut ctx, IntWidth::I32);
    let b = ctx.intern(TypeKind::Bool).unwrap();
    let p0 = ctx.intern(TypeKind::Param(0)).unwrap();
    let p1 = ctx.intern(TypeKind::Param(1)).unwrap();
    let r = ctx.intern(TypeKind::Ref(p0, Mutability::Const)).unwrap();
    let t = tuple(&mut ctx, &[r, p1]);
    let subs = vec![Sub::Type(i32_ty), Sub::Type(b)];
    let got = ctx.sub(t, &subs).unwrap();
    let want_ref = ctx.intern(TypeKind::Ref(i32_ty, Mutability::Const)).unwrap();
    let want = tuple(&mut ctx, &[want_ref, b]);
    assert_eq!(got, want);
    assert_ne!(got, t);
    assert_eq!(ctx.sub(i32_ty, &subs), Ok(i32_ty));
    assert_eq!(ctx.sub(p1, &subs), Ok(b));
    assert_eq!(ctx.sub(p1, &vec![Sub::Type(b)]), Err(CompileError::MissingSub));
    assert_eq!(ctx.sub(p0, &vec![Sub::Lifetime]), Err(CompileError::MissingSub));
    assert_eq!(ctx.sub(Type(999), &subs), Err(CompileError::BadType));
}

#[test]
fn substitution_fills_array_lengths() {
    let mut ctx = TypeContext::new();
    let i32_ty = int_ty(&mut ctx, IntWidth::I32);
    let arr = ctx.intern(TypeKind::Array(i32_ty, ArrayLen::Param(0))).unwrap();
    let got = ctx.sub(arr, &vec![Sub::Const(4)]).unwrap();
    assert_eq!(ctx.kind(got), Ok(TypeKind::Array(i32_ty, ArrayLen::Known(4))));
    assert_eq!(ctx.sub(arr, &vec![Sub::Const(-1)]), Err(CompileError::TooLarge));
    assert_eq!(ctx.sub(arr, &vec![Sub::Type(i32_ty)]), Err(CompileError::MissingSub));
}

#[test]
fn concreteness() {
    let mut ctx = TypeContext::new();
    let i32_ty = int_ty(&mut ctx, IntWidth::I32);
    let p0 = ctx.intern(TypeKind::Param(0)).unwrap();
    let t1 = tuple(&mut ctx, &[i32_ty, i32_ty]);
    let t2 = tuple(&mut ctx, &[i32_ty, p0]);
    let arr = ctx.intern(TypeKind::Array(i32_ty, ArrayLen::Param(0))).unwrap();
    assert!(ctx.is_concrete(i32_ty));
    assert!(ctx.is_concrete(t1));
    assert!(!ctx.is_concrete(p0));
    assert!(!ctx.is_concrete(t2));
    assert!(!ctx.is_concrete(arr));
    assert!(!ctx.is_concrete(Type(999)));
    assert!(SubList::new(vec![Sub::Type(t1), Sub::Lifetime]).is_concrete(&ctx));
    assert!(!SubList::new(vec![Sub::Type(t2)]).is_concrete(&ctx));
}

#[test]
fn scalar_layouts() {
    let mut ctx = TypeContext::new();
    let prog = Program::new();
    let cases = [
        (TypeKind::Int(IntWidth::I8, IntSign::Signed), 1, 1),
        (TypeKind::Int(IntWidth::I16, IntSign::Unsigned), 2, 2),
        (TypeKind::Int(IntWidth::I32, IntSign::Signed), 4, 4),
        (TypeKind::Int(IntWidth::I64, IntSign::Signed), 8, 8),
        (TypeKind::Int(IntWidth::I128, IntSign::Signed), 16, 16),
        (TypeKind::Int(IntWidth::ISize, IntSign::Unsigned), 8, 8),
        (TypeKind::Float(FloatWidth::F32), 4, 4),
        (TypeKind::Float(FloatWidth::F64), 8, 8),
        (TypeKind::Bool, 1, 1),
        (TypeKind::Char, 4, 4),
        (TypeKind::Never, 0, 1),
    ];
    for (kind, size, align) in cases {
        let ty = ctx.intern(kind).unwrap();
        let l = ctx.layout(&prog, ty, LAYOUT_DEPTH).unwrap();
        assert_eq!((l.size, l.align, l.sized), (size, align, true));
        assert_eq!(l.assert_size(), Ok(size));
        assert_eq!(ctx.cached_layout(ty), Some(l));
    }
}

#[test]
fn pointer_layouts() {
    let mut ctx = TypeContext::new();
    let prog = Program::new();
    let i32_ty = int_ty(&mut ctx, IntWidth::I32);
    let slice = ctx.intern(TypeKind::Slice(i32_ty)).unwrap();
    let thin = ctx.intern(TypeKind::Ref(i32_ty, Mutability::Mut)).unwrap();
    let fat = ctx.intern(TypeKind::Ref(slice, Mutability::Const)).unwrap();
    let raw = ctx.intern(TypeKind::Ptr(slice, Mutability::Const)).unwrap();
    assert_eq!(ctx.layout(&prog, thin, 8).unwrap().size, 8);
    assert_eq!(ctx.layout(&prog, fat, 8).unwrap().size, 16);
    assert_eq!(ctx.layout(&prog, raw, 8).unwrap().size, 16);
    assert_eq!(ctx.layout(&prog, fat, 8).unwrap().align, 8);
    let unsized_layout = ctx.layout(&prog, slice, 8).unwrap();
    assert!(!unsized_layout.sized);
    assert_eq!(unsized_layout.assert_size(), Err(CompileError::Unsized));
}

#[test]
fn tuples_lay_out_fields_in_order() {
    let mut ctx = TypeContext::new();
    let prog = Program::new();
    let i8_ty = int_ty(&mut ctx, IntWidth::I8);
    let i32_ty = int_ty(&mut ctx, IntWidth::I32);
    let i64_ty = int_ty(&mut ctx, IntWidth::I64);
    let t = tuple(&mut ctx, &[i8_ty, i32_ty, i8_ty, i64_ty, i8_ty]);
    let l = ctx.layout(&prog, t, 8).unwrap();
    assert_eq!((l.size, l.align), (32, 8));
    assert_eq!(l.variant_count, 1);
    assert_eq!(ctx.field_count(&l, 0), Ok(5));
    let offsets: Vec<u32> = (0..5).map(|i| ctx.field_offset(&l, 0, i).unwrap()).collect();
    assert_eq!(offsets, vec![0, 4, 8, 16, 24]);
    assert_eq!(ctx.field_offset(&l, 0, 5), Err(CompileError::BadType));
    assert_eq!(ctx.field_offset(&l, 1, 0), Err(CompileError::BadType));
    let unit = tuple(&mut ctx, &[]);
    let lu = ctx.layout(&prog, unit, 8).unwrap();
    assert_eq!((lu.size, lu.align), (0, 1));
}

#[test]
fn arrays_multiply() {
    let mut ctx = TypeContext::new();
    let prog = Program::new();
    let i32_ty = int_ty(&mut ctx, IntWidth::I32);
    let arr = ctx.intern(TypeKind::Array(i32_ty, ArrayLen::Known(4))).unwrap();
    let l = ctx.layout(&prog, arr, 8).unwrap();
    assert_eq!((l.size, l.align), (16, 4));
    let huge = ctx.intern(TypeKind::Array(arr, ArrayLen::Known(u32::MAX))).unwrap();
    assert_eq!(ctx.layout(&prog, huge, 8), Err(CompileError::TooLarge));
    let open = ctx.intern(TypeKind::Array(i32_ty, ArrayLen::Param(0))).unwrap();
    assert_eq!(ctx.layout(&prog, open, 8), Err(CompileError::NotConcrete));
    let p = ctx.intern(TypeKind::Param(0)).unwrap();
    assert_eq!(ctx.layout(&prog, p, 8), Err(CompileError::NotConcrete));
    let slice = ctx.intern(TypeKind::Slice(i32_ty)).unwrap();
    let of_slices = ctx.intern(TypeKind::Array(slice, ArrayLen::Known(2))).unwrap();
    assert_eq!(ctx.layout(&prog, of_slices, 8), Err(CompileError::Unsized));
}

#[test]
fn layout_nesting_is_limited() {
    let mut ctx = TypeContext::new();
    let prog = Program::new();
    let i32_ty = int_ty(&mut ctx, IntWidth::I32);
    let t1 = tuple(&mut ctx, &[i32_ty]);
    let t2 = tuple(&mut ctx, &[t1]);
    assert_eq!(ctx.layout(&prog, t2, 1), Err(CompileError::DepthExceeded));
    assert_eq!(ctx.layout(&prog, t2, 0), Err(CompileError::DepthExceeded));
    assert_eq!(ctx.layout(&prog, t2, 2).unwrap().size, 4);
    // computed once: the limit does not matter any more
    assert_eq!(ctx.layout(&prog, t2, 0).unwrap().size, 4);
}

fn adt_program(ctx: &mut TypeContext, infos: Vec<AdtInfo>) -> (Program<'static>, Vec<ItemRef>) {
    let mut prog = Program::new();
    let c = prog.add_crate().unwrap();
    let mut out = Vec::new();
    for info in infos {
        let id = prog.crates[0].add(ItemPath::for_type("::Adt"), ItemKind::new_adt()).unwrap();
        prog.crates[0].items[id.index()].set_adt_info(info).unwrap();
        out.push(ItemRef { crate_id: c, item_id: id });
    }
    let _ = ctx;
    (prog, out)
}

#[test]
fn struct_layout_substitutes_the_fields() {
    let mut ctx = TypeContext::new();
    let i8_ty = int_ty(&mut ctx, IntWidth::I8);
    let i64_ty = int_ty(&mut ctx, IntWidth::I64);
    let p0 = ctx.intern(TypeKind::Param(0)).unwrap();
    let (prog, items) = adt_program(
        &mut ctx,
        vec![AdtInfo { variant_fields: vec![vec![i8_ty, p0]], kind: AdtKind::Struct, needs_drop: false }],
    );
    let l8 = ctx.intern_list(&vec![Sub::Type(i8_ty)]).unwrap();
    let l64 = ctx.intern_list(&vec![Sub::Type(i64_ty)]).unwrap();
    let small = ctx.intern(TypeKind::Adt(items[0], l8)).unwrap();
    let large = ctx.intern(TypeKind::Adt(items[0], l64)).unwrap();
    let ls = ctx.layout(&prog, small, 8).unwrap();
    let ll = ctx.layout(&prog, large, 8).unwrap();
    assert_eq!((ls.size, ls.align), (2, 1));
    assert_eq!((ll.size, ll.align), (16, 8));
    assert_eq!(ctx.field_offset(&ls, 0, 1), Ok(1));
    assert_eq!(ctx.field_offset(&ll, 0, 1), Ok(8));
    assert_eq!(ls.discriminant, Discriminant::Absent);
    assert_eq!(ls.discriminant_value(0), None);
}

#[test]
fn enum_layout_puts_the_discriminant_first() {
    let mut ctx = TypeContext::new();
    let i8_ty = int_ty(&mut ctx, IntWidth::I8);
    let i64_ty = int_ty(&mut ctx, IntWidth::I64);
    let disc = ctx.intern(TypeKind::Int(IntWidth::I16, IntSign::Unsigned)).unwrap();
    let (prog, items) = adt_program(
        &mut ctx,
        vec![AdtInfo {
            variant_fields: vec![vec![], vec![i8_ty, i8_ty], vec![i64_ty]],
            kind: AdtKind::EnumWithDiscriminant(disc),
            needs_drop: false,
        }],
    );
    let l0 = ctx.intern_list(&vec![]).unwrap();
    let ty = ctx.intern(TypeKind::Adt(items[0], l0)).unwrap();
    let l = ctx.layout(&prog, ty, 8).unwrap();
    assert_eq!((l.size, l.align), (16, 8));
    assert_eq!(l.variant_count, 3);
    assert_eq!(l.discriminant, Discriminant::Leading(Width::W16));
    assert_eq!(l.get_discriminant_width(), Some(Width::W16));
    assert_eq!(l.discriminant_value(2), Some(2));
    assert_eq!(ctx.field_count(&l, 0), Ok(0));
    assert_eq!(ctx.field_offset(&l, 1, 0), Ok(2));
    assert_eq!(ctx.field_offset(&l, 1, 1), Ok(3));
    assert_eq!(ctx.field_offset(&l, 2, 0), Ok(8));
}

#[test]
fn niche_enum_layout() {
    let mut ctx = TypeContext::new();
    let i64_ty = int_ty(&mut ctx, IntWidth::I64);
    let r = ctx.intern(TypeKind::Ref(i64_ty, Mutability::Const)).unwrap();
    let (prog, items) = adt_program(
        &mut ctx,
        vec![AdtInfo {
            variant_fields: vec![vec![], vec![r]],
            kind: AdtKind::EnumNonZero,
            needs_drop: false,
        }],
    );
    let l0 = ctx.intern_list(&vec![]).unwrap();
    let ty = ctx.intern(TypeKind::Adt(items[0], l0)).unwrap();
    let l = ctx.layout(&prog, ty, 8).unwrap();
    assert_eq!((l.size, l.align), (8, 8));
    assert_eq!(l.discriminant, Discriminant::NonZero(Width::W64));
    assert_eq!(l.discriminant_value(0), Some(0));
    assert_eq!(l.discriminant_value(1), None);
    assert_eq!(ctx.field_offset(&l, 1, 0), Ok(0));
}

#[test]
fn adt_layout_errors() {
    let mut ctx = TypeContext::new();
    let i8_ty = int_ty(&mut ctx, IntWidth::I8);
    let (mut prog, items) = adt_program(
        &mut ctx,
        vec![
            AdtInfo { variant_fields: vec![vec![i8_ty], vec![]], kind: AdtKind::Struct, needs_drop: false },
            AdtInfo { variant_fields: vec![vec![i8_ty]], kind: AdtKind::Struct, needs_drop: true },
        ],
    );
    let empty = prog.crates[0].add(ItemPath::for_type("::Later"), ItemKind::new_adt()).unwrap();
    let func = prog.crates[0].add(ItemPath::for_value("::f"), ItemKind::new_function()).unwrap();
    let l0 = ctx.intern_list(&vec![]).unwrap();
    let two_variants = ctx.intern(TypeKind::Adt(items[0], l0)).unwrap();
    assert_eq!(ctx.layout(&prog, two_variants, 8), Err(CompileError::BadType));
    let dropping = ctx.intern(TypeKind::Adt(items[1], l0)).unwrap();
    assert!(ctx.layout(&prog, dropping, 8).unwrap().needs_drop);
    let c = items[0].crate_id;
    let not_loaded = ctx.intern(TypeKind::Adt(ItemRef { crate_id: c, item_id: empty }, l0)).unwrap();
    assert_eq!(ctx.layout(&prog, not_loaded, 8), Err(CompileError::MissingIr));
    let not_adt = ctx.intern(TypeKind::Adt(ItemRef { crate_id: c, item_id: func }, l0)).unwrap();
    assert_eq!(ctx.layout(&prog, not_adt, 8), Err(CompileError::ItemMismatch));
}

#[test]
fn adt_info_kinds() {
    let s = AdtInfo { variant_fields: vec![], kind: AdtKind::Struct, needs_drop: false };
    let e = AdtInfo { variant_fields: vec![], kind: AdtKind::EnumWithDiscriminant(Type(3)), needs_drop: false };
    let n = AdtInfo { variant_fields: vec![], kind: AdtKind::EnumNonZero, needs_drop: false };
    assert!(!s.is_enum());
    assert!(e.is_enum());
    assert!(n.is_enum());
    assert_eq!(s.discriminant_ty(), None);
    assert_eq!(e.discriminant_ty(), Some(Type(3)));
    assert_eq!(n.discriminant_ty(), None);
}

#[test]
fn sizedness_follows_the_last_field() {
    let mut ctx = TypeContext::new();
    let i32_ty = int_ty(&mut ctx, IntWidth::I32);
    let p0 = ctx.intern(TypeKind::Param(0)).unwrap();
    let slice = ctx.intern(TypeKind::Slice(i32_ty)).unwrap();
    let arr = ctx.intern(TypeKind::Array(i32_ty, ArrayLen::Known(3))).unwrap();
    let (prog, items) = adt_program(
        &mut ctx,
        vec![
            AdtInfo { variant_fields: vec![vec![i32_ty, p0]], kind: AdtKind::Struct, needs_drop: false },
            AdtInfo { variant_fields: vec![vec![p0, i32_ty]], kind: AdtKind::Struct, needs_drop: false },
        ],
    );
    let l_slice = ctx.intern_list(&vec![Sub::Type(slice)]).unwrap();
    let l_arr = ctx.intern_list(&vec![Sub::Type(arr)]).unwrap();
    let tail_slice = ctx.intern(TypeKind::Adt(items[0], l_slice)).unwrap();
    let tail_arr = ctx.intern(TypeKind::Adt(items[0], l_arr)).unwrap();
    let head_arr = ctx.intern(TypeKind::Adt(items[1], l_arr)).unwrap();
    assert!(ctx.is_sized(&prog, i32_ty, 4));
    assert!(!ctx.is_sized(&prog, slice, 4));
    assert!(ctx.is_sized(&prog, arr, 4));
    assert!(!ctx.is_sized(&prog, tail_slice, 4));
    assert!(ctx.is_sized(&prog, tail_arr, 4));
    assert!(ctx.is_sized(&prog, head_arr, 4));
    let pair = tuple(&mut ctx, &[i32_ty, tail_slice]);
    assert!(!ctx.is_sized(&prog, pair, 4));
    // the search stops at the limit and then takes the type for sized
    assert!(ctx.is_sized(&prog, pair, 1));
    let thin = ctx.intern(TypeKind::Ref(tail_arr, Mutability::Const)).unwrap();
    let fat = ctx.intern(TypeKind::Ref(tail_slice, Mutability::Const)).unwrap();
    assert_eq!(ctx.layout(&prog, thin, LAYOUT_DEPTH).unwrap().size, 8);
    assert_eq!(ctx.layout(&prog, fat, LAYOUT_DEPTH).unwrap().size, 16);
    let fat_pair = ctx.intern(TypeKind::Ptr(pair, Mutability::Mut)).unwrap();
    assert_eq!(ctx.layout(&prog, fat_pair, LAYOUT_DEPTH).unwrap().size, 16);
}
