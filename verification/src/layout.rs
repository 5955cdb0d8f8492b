//! Layout of types: sizes, alignments and field offsets, computed once per
//! interned type and kept in the type table.

use vstd::prelude::*;
use crate::abi::{align, align_up, POINTER_SIZE};
use crate::error::CompileError;
use crate::instr::{FloatWidth, Width};
use crate::items::{AdtInfo, AdtKind};
use crate::program::Program;
use crate::types::{
    ArrayLen, Discriminant, IntWidth, Layout, Span, Sub, Type, TypeContext, TypeKind, TypesView,
};

verus! {

/// How deep types may nest by value before their layout is given up.
pub const LAYOUT_DEPTH: u32 = 64;

/// How far the last fields of structs and tuples are followed to find out
/// whether a type has a size.
pub const SIZED_DEPTH: u32 = 16;

/// Field offsets gathered for the variants of one type, with the extent,
/// alignment and drop obligation seen so far.
pub struct Agg {
    /// The offsets of all variants, one after the other.
    pub flat: Seq<u32>,
    /// The number of fields of each variant.
    pub lens: Seq<u32>,
    pub end: u32,
    pub align: u32,
    pub drop: bool,
}

/// The executable counterpart of `Agg`.
pub struct AggBuf {
    pub flat: Vec<u32>,
    pub lens: Vec<u32>,
    pub end: u32,
    pub align: u32,
    pub drop: bool,
}

impl View for AggBuf {
    type V = Agg;

    open spec fn view(&self) -> Agg {
        Agg { flat: self.flat@, lens: self.lens@, end: self.end, align: self.align, drop: self.drop }
    }
}

impl IntWidth {
    pub open spec fn bytes_spec(self) -> u32 {
        match self {
            IntWidth::I8 => 1,
            IntWidth::I16 => 2,
            IntWidth::I32 => 4,
            IntWidth::I64 => 8,
            IntWidth::I128 => 16,
            IntWidth::ISize => POINTER_SIZE,
        }
    }

    pub fn bytes(&self) -> (r: u32)
        ensures
            r == self.bytes_spec(),
    {
        match self {
            IntWidth::I8 => 1,
            IntWidth::I16 => 2,
            IntWidth::I32 => 4,
            IntWidth::I64 => 8,
            IntWidth::I128 => 16,
            IntWidth::ISize => POINTER_SIZE,
        }
    }
}

impl FloatWidth {
    pub open spec fn bytes_spec(self) -> u32 {
        match self {
            FloatWidth::F32 => 4,
            FloatWidth::F64 => 8,
        }
    }

    pub fn bytes(&self) -> (r: u32)
        ensures
            r == self.bytes_spec(),
    {
        match self {
            FloatWidth::F32 => 4,
            FloatWidth::F64 => 8,
        }
    }
}

impl TypeKind {
    /// Whether values of the kind have a stand-alone size.
    pub open spec fn sized_spec(self) -> bool {
        !(self is Slice || self is StringSlice || self is Dynamic)
    }

    pub fn is_sized(&self) -> (r: bool)
        ensures
            r == self.sized_spec(),
    {
        match self {
            TypeKind::Slice(_) | TypeKind::StringSlice | TypeKind::Dynamic { .. } => false,
            _ => true,
        }
    }
}

impl Layout {
    /// The layout of a value without fields.
    pub open spec fn scalar(size: u32, align: u32) -> Layout {
        Layout {
            size,
            align,
            sized: true,
            first_variant: 0,
            variant_count: 0,
            discriminant: Discriminant::Absent,
            needs_drop: false,
        }
    }

    /// The layout of a type without a stand-alone size.
    pub open spec fn unsized_spec() -> Layout {
        Layout {
            size: 0,
            align: 1,
            sized: false,
            first_variant: 0,
            variant_count: 0,
            discriminant: Discriminant::Absent,
            needs_drop: false,
        }
    }

    pub fn new_scalar(size: u32, align: u32) -> (r: Layout)
        ensures
            r == Layout::scalar(size, align),
    {
        Layout {
            size,
            align,
            sized: true,
            first_variant: 0,
            variant_count: 0,
            discriminant: Discriminant::Absent,
            needs_drop: false,
        }
    }

    pub fn new_unsized() -> (r: Layout)
        ensures
            r == Layout::unsized_spec(),
    {
        Layout {
            size: 0,
            align: 1,
            sized: false,
            first_variant: 0,
            variant_count: 0,
            discriminant: Discriminant::Absent,
            needs_drop: false,
        }
    }

    pub open spec fn size_spec(self) -> Result<u32, CompileError> {
        if self.sized {
            Ok(self.size)
        } else {
            Err(CompileError::Unsized)
        }
    }

    /// The size, for a type that has one.
    pub fn assert_size(&self) -> (r: Result<u32, CompileError>)
        ensures
            r == self.size_spec(),
    {
        if self.sized {
            Ok(self.size)
        } else {
            Err(CompileError::Unsized)
        }
    }

    /// The value that marks a variant, where the variant has one.
    pub open spec fn discriminant_spec(self, variant: u32) -> Option<i128> {
        match self.discriminant {
            Discriminant::Absent => None,
            Discriminant::Leading(_) => Some(variant as i128),
            Discriminant::NonZero(_) => if variant == 0 {
                Some(0i128)
            } else {
                None
            },
        }
    }

    pub fn discriminant_value(&self, variant: u32) -> (r: Option<i128>)
        ensures
            r == self.discriminant_spec(variant),
    {
        match self.discriminant {
            Discriminant::Absent => None,
            Discriminant::Leading(_) => Some(variant as i128),
            Discriminant::NonZero(_) => if variant == 0 {
                Some(0)
            } else {
                None
            },
        }
    }

    /// The width of the discriminant, for an enum.
    pub open spec fn discriminant_width(self) -> Option<Width> {
        match self.discriminant {
            Discriminant::Absent => None,
            Discriminant::Leading(w) => Some(w),
            Discriminant::NonZero(w) => Some(w),
        }
    }

    pub fn get_discriminant_width(&self) -> (r: Option<Width>)
        ensures
            r == self.discriminant_width(),
    {
        match self.discriminant {
            Discriminant::Absent => None,
            Discriminant::Leading(w) => Some(w),
            Discriminant::NonZero(w) => Some(w),
        }
    }
}

/// Where a field of layout `f` lands when the fields before it end at `cur`:
/// its offset, the next multiple of its alignment, and its end.
pub open spec fn place_field(cur: u32, f: Layout) -> Result<(u32, u32), CompileError> {
    if !f.sized {
        Err(CompileError::Unsized)
    } else {
        let off = align_up(cur as int, f.align as int);
        if off + f.size > u32::MAX {
            Err(CompileError::TooLarge)
        } else {
            Ok((off as u32, (off + f.size) as u32))
        }
    }
}

/// The spans of consecutive variants with the given field counts, the first
/// starting at `base`.
pub open spec fn spans_of(lens: Seq<u32>, base: int, i: int) -> Seq<Span>
    decreases lens.len() - i,
{
    if i < 0 || i >= lens.len() {
        Seq::empty()
    } else {
        seq![Span { start: base as u32, len: lens[i] }] + spans_of(lens, base + lens[i], i + 1)
    }
}

pub open spec fn total(lens: Seq<u32>, i: int) -> int
    decreases lens.len() - i,
{
    if i < 0 || i >= lens.len() {
        0
    } else {
        lens[i] + total(lens, i + 1)
    }
}

pub open spec fn max_u32(a: u32, b: u32) -> u32 {
    if a >= b {
        a
    } else {
        b
    }
}

impl TypesView {
    /// The cached layout of a type.
    pub open spec fn layout_of(self, ty: Type) -> Option<Layout> {
        if self.has_type(ty) {
            self.layouts[ty.0 as int]
        } else {
            None
        }
    }

    /// The offset of a field of a variant, for a layout of this table.
    pub open spec fn field_offset(self, l: Layout, variant: u32, field: u32) -> Result<
        u32,
        CompileError,
    > {
        if variant >= l.variant_count || l.first_variant + variant >= self.variants.len() {
            Err(CompileError::BadType)
        } else {
            let s = self.variants[l.first_variant + variant];
            if field >= s.len || s.start + field >= self.offsets.len() {
                Err(CompileError::BadType)
            } else {
                Ok(self.offsets[s.start + field])
            }
        }
    }

    /// The number of fields of a variant.
    pub open spec fn field_count(self, l: Layout, variant: u32) -> Result<u32, CompileError> {
        if variant >= l.variant_count || l.first_variant + variant >= self.variants.len() {
            Err(CompileError::BadType)
        } else {
            Ok(self.variants[l.first_variant + variant].len)
        }
    }

    /// Appends the offsets gathered in `agg` and one span for each variant.
    pub open spec fn push_variants(self, agg: Agg) -> (TypesView, Result<u32, CompileError>) {
        if total(agg.lens, 0) != agg.flat.len() {
            (self, Err(CompileError::BadType))
        } else if self.offsets.len() + agg.flat.len() > u32::MAX || self.variants.len()
            + agg.lens.len() > u32::MAX {
            (self, Err(CompileError::TableFull))
        } else {
            (
                TypesView {
                    offsets: self.offsets + agg.flat,
                    variants: self.variants + spans_of(agg.lens, self.offsets.len() as int, 0),
                    ..self
                },
                Ok(self.variants.len() as u32),
            )
        }
    }

    /// Substituting into each of the field types from `j` on.
    pub open spec fn sub_fields(self, fields: Seq<Type>, subs: Seq<Sub>, j: int, acc: Seq<Type>) -> (
        TypesView,
        Result<Seq<Type>, CompileError>,
    )
        decreases fields.len() - j,
    {
        if j < 0 || j >= fields.len() {
            (self, Ok(acc))
        } else {
            match self.sub(fields[j], subs) {
                (tv, Ok(t)) => tv.sub_fields(fields, subs, j + 1, acc.push(t)),
                (tv, Err(e)) => (tv, Err(e)),
            }
        }
    }

    /// The layout of `ty`: the cached one, or a new one that is cached.
    pub open spec fn layout(self, prog: Program, ty: Type, depth: nat) -> (
        TypesView,
        Result<Layout, CompileError>,
    )
        decreases depth, 3int, 0int,
    {
        if !self.has_type(ty) {
            (self, Err(CompileError::BadType))
        } else {
            match self.layouts[ty.0 as int] {
                Some(l) => (self, Ok(l)),
                None => match self.compute_layout(prog, ty, depth) {
                    (tv, Ok(l)) => (
                        if ty.0 < tv.layouts.len() {
                            TypesView { layouts: tv.layouts.update(ty.0 as int, Some(l)), ..tv }
                        } else {
                            tv
                        },
                        Ok(l),
                    ),
                    (tv, Err(e)) => (tv, Err(e)),
                },
            }
        }
    }

    /// The layout of a type by the rules for its kind.
    pub open spec fn compute_layout(self, prog: Program, ty: Type, depth: nat) -> (
        TypesView,
        Result<Layout, CompileError>,
    )
        decreases depth, 2int, 0int,
    {
        match self.kind(ty) {
            TypeKind::Int(w, _) => (self, Ok(Layout::scalar(w.bytes_spec(), w.bytes_spec()))),
            TypeKind::Float(w) => (self, Ok(Layout::scalar(w.bytes_spec(), w.bytes_spec()))),
            TypeKind::Bool => (self, Ok(Layout::scalar(1, 1))),
            TypeKind::Char => (self, Ok(Layout::scalar(4, 4))),
            TypeKind::Never => (self, Ok(Layout::scalar(0, 1))),
            TypeKind::FunctionDef(_, _) => (self, Ok(Layout::scalar(0, 1))),
            TypeKind::FunctionPointer(_, _) => (
                self,
                Ok(Layout::scalar(POINTER_SIZE, POINTER_SIZE)),
            ),
            TypeKind::Ref(c, _) => self.pointer_layout(prog, c),
            TypeKind::Ptr(c, _) => self.pointer_layout(prog, c),
            TypeKind::Slice(_) => (self, Ok(Layout::unsized_spec())),
            TypeKind::StringSlice => (self, Ok(Layout::unsized_spec())),
            TypeKind::Dynamic { .. } => (self, Ok(Layout::unsized_spec())),
            TypeKind::Param(_) => (self, Err(CompileError::NotConcrete)),
            TypeKind::Array(c, len) => match len {
                ArrayLen::Param(_) => (self, Err(CompileError::NotConcrete)),
                ArrayLen::Known(n) => self.array_layout(prog, c, n, depth),
            },
            TypeKind::Closure(_, env, _) => {
                if depth == 0 {
                    (self, Err(CompileError::DepthExceeded))
                } else {
                    self.layout(prog, env, (depth - 1) as nat)
                }
            },
            TypeKind::Tuple(l) => self.tuple_layout(prog, l, depth),
            TypeKind::Adt(item, l) => {
                if !self.has_list(l) {
                    (self, Err(CompileError::BadType))
                } else {
                    match prog.adt_of(item) {
                        Err(e) => (self, Err(e)),
                        Ok(info) => self.adt_layout(prog, info, self.list(l), depth),
                    }
                }
            },
        }
    }

    /// An array is as large as its elements together and aligned as one of them.
    pub open spec fn array_layout(self, prog: Program, c: Type, n: u32, depth: nat) -> (
        TypesView,
        Result<Layout, CompileError>,
    )
        decreases depth, 1int, 0int,
    {
        if depth == 0 {
            (self, Err(CompileError::DepthExceeded))
        } else {
            match self.layout(prog, c, (depth - 1) as nat) {
                (tv, Ok(e)) => (
                    tv,
                    if !e.sized {
                        Err(CompileError::Unsized)
                    } else if e.size * n > u32::MAX {
                        Err(CompileError::TooLarge)
                    } else {
                        Ok(
                            Layout {
                                size: (e.size * n) as u32,
                                align: e.align,
                                needs_drop: e.needs_drop,
                                ..Layout::scalar(0, 1)
                            },
                        )
                    },
                ),
                (tv, Err(e)) => (tv, Err(e)),
            }
        }
    }

    /// A tuple lays out its elements like the fields of a struct.
    pub open spec fn tuple_layout(self, prog: Program, l: crate::types::ListId, depth: nat) -> (
        TypesView,
        Result<Layout, CompileError>,
    )
        decreases depth, 1int, 0int,
    {
        if !self.has_list(l) {
            (self, Err(CompileError::BadType))
        } else {
            match Self::list_types(self.list(l), 0, Seq::empty()) {
                Ok(fields) => match self.fields_layout(
                    prog,
                    fields,
                    0,
                    0,
                    Self::empty_agg(0, 1, false),
                    depth,
                ) {
                    (tv, Ok((agg, end))) => if fields.len() > u32::MAX {
                        (tv, Err(CompileError::TooLarge))
                    } else {
                        tv.finish(
                            Self::close_variant(agg, fields.len() as u32, end),
                            Discriminant::Absent,
                        )
                    },
                    (tv, Err(e)) => (tv, Err(e)),
                },
                Err(e) => (self, Err(e)),
            }
        }
    }

    /// Whether values of the type have a stand-alone size. Slices, string
    /// slices and trait objects have none; a tuple has none where its last
    /// element has none, and a struct where its last field has none, be
    /// that by its own type or by the substitution for the parameter that
    /// it is. The last fields are followed for `depth` levels.
    pub open spec fn sized(self, prog: Program, ty: Type, depth: nat) -> bool
        decreases depth,
    {
        if !self.has_type(ty) {
            true
        } else {
            match self.kind(ty) {
                TypeKind::Slice(_) => false,
                TypeKind::StringSlice => false,
                TypeKind::Dynamic { .. } => false,
                TypeKind::Tuple(l) => if !self.has_list(l) || self.list(l).len() == 0 || depth
                    == 0 {
                    true
                } else {
                    match self.list(l).last() {
                        Sub::Type(t) => self.sized(prog, t, (depth - 1) as nat),
                        _ => true,
                    }
                },
                TypeKind::Adt(item, l) => match prog.adt_of(item) {
                    Ok(info) => if info.kind is Struct && info.variant_fields@.len() == 1
                        && info.variant_fields@[0]@.len() > 0 && self.has_list(l) {
                        let f = info.variant_fields@[0]@.last();
                        if !self.has_type(f) {
                            true
                        } else {
                            match self.kind(f) {
                                TypeKind::Param(n) => match Self::param_type(self.list(l), n) {
                                    Ok(t) => if depth == 0 {
                                        true
                                    } else {
                                        self.sized(prog, t, (depth - 1) as nat)
                                    },
                                    Err(_) => true,
                                },
                                k => k.sized_spec(),
                            }
                        }
                    } else {
                        true
                    },
                    Err(_) => true,
                },
                _ => true,
            }
        }
    }

    /// A thin pointer where the target has a size, a fat one where it has none.
    pub open spec fn pointer_layout(self, prog: Program, target: Type) -> (
        TypesView,
        Result<Layout, CompileError>,
    ) {
        if !self.has_type(target) {
            (self, Err(CompileError::BadType))
        } else if self.sized(prog, target, SIZED_DEPTH as nat) {
            (self, Ok(Layout::scalar(POINTER_SIZE, POINTER_SIZE)))
        } else {
            (self, Ok(Layout::scalar((2 * POINTER_SIZE) as u32, POINTER_SIZE)))
        }
    }

    pub open spec fn empty_agg(end: u32, align: u32, drop: bool) -> Agg {
        Agg { flat: Seq::empty(), lens: Seq::empty(), end, align, drop }
    }

    /// Records that a variant of `n` fields ends at `end`.
    pub open spec fn close_variant(agg: Agg, n: u32, end: u32) -> Agg {
        Agg { lens: agg.lens.push(n), end: max_u32(agg.end, end), ..agg }
    }

    /// The types of a list that holds nothing but types.
    pub open spec fn list_types(elems: Seq<Sub>, i: int, acc: Seq<Type>) -> Result<
        Seq<Type>,
        CompileError,
    >
        decreases elems.len() - i,
    {
        if i < 0 || i >= elems.len() {
            Ok(acc)
        } else {
            match elems[i] {
                Sub::Type(t) => Self::list_types(elems, i + 1, acc.push(t)),
                _ => Err(CompileError::BadType),
            }
        }
    }

    /// Lays out the fields from `i` on, in declaration order, each at the
    /// next multiple of its alignment after `cur`.
    pub open spec fn fields_layout(
        self,
        prog: Program,
        fields: Seq<Type>,
        i: int,
        cur: u32,
        agg: Agg,
        depth: nat,
    ) -> (TypesView, Result<(Agg, u32), CompileError>)
        decreases depth, 0int, fields.len() - i,
    {
        if i < 0 || i >= fields.len() {
            (self, Ok((agg, cur)))
        } else if depth == 0 {
            (self, Err(CompileError::DepthExceeded))
        } else {
            match self.layout(prog, fields[i], (depth - 1) as nat) {
                (tv, Ok(f)) => match place_field(cur, f) {
                    Ok((off, end)) => tv.fields_layout(
                        prog,
                        fields,
                        i + 1,
                        end,
                        Agg {
                            flat: agg.flat.push(off),
                            align: max_u32(agg.align, f.align),
                            drop: agg.drop || f.needs_drop,
                            ..agg
                        },
                        depth,
                    ),
                    Err(e) => (tv, Err(e)),
                },
                (tv, Err(e)) => (tv, Err(e)),
            }
        }
    }

    /// Lays out the variants from `v` on, each starting at `start`.
    pub open spec fn variants_layout(
        self,
        prog: Program,
        variant_fields: Seq<Vec<Type>>,
        subs: Seq<Sub>,
        v: int,
        start: u32,
        agg: Agg,
        depth: nat,
    ) -> (TypesView, Result<Agg, CompileError>)
        decreases depth, 1int, variant_fields.len() - v,
    {
        if v < 0 || v >= variant_fields.len() {
            (self, Ok(agg))
        } else if variant_fields[v]@.len() > u32::MAX {
            (self, Err(CompileError::TooLarge))
        } else {
            match self.sub_fields(variant_fields[v]@, subs, 0, Seq::empty()) {
                (tv, Ok(fields)) => match tv.fields_layout(prog, fields, 0, start, agg, depth) {
                    (tv2, Ok((agg2, end))) => tv2.variants_layout(
                        prog,
                        variant_fields,
                        subs,
                        v + 1,
                        start,
                        Self::close_variant(agg2, fields.len() as u32, end),
                        depth,
                    ),
                    (tv2, Err(e)) => (tv2, Err(e)),
                },
                (tv, Err(e)) => (tv, Err(e)),
            }
        }
    }

    /// Rounds the size up to the alignment and stores the offsets.
    pub open spec fn finish(self, agg: Agg, discriminant: Discriminant) -> (
        TypesView,
        Result<Layout, CompileError>,
    ) {
        let size = align_up(agg.end as int, agg.align as int);
        if size > u32::MAX || agg.lens.len() > u32::MAX {
            (self, Err(CompileError::TooLarge))
        } else {
            match self.push_variants(agg) {
                (tv, Ok(first)) => (
                    tv,
                    Ok(
                        Layout {
                            size: size as u32,
                            align: agg.align,
                            sized: true,
                            first_variant: first,
                            variant_count: agg.lens.len() as u32,
                            discriminant,
                            needs_drop: agg.drop,
                        },
                    ),
                ),
                (tv, Err(e)) => (tv, Err(e)),
            }
        }
    }

    /// The layout of a struct or enum. A struct lays out its fields in
    /// declaration order. An enum with a leading discriminant lays out each
    /// variant after the discriminant; one with a niche lays out each variant
    /// from the start.
    pub open spec fn adt_layout(self, prog: Program, info: AdtInfo, subs: Seq<Sub>, depth: nat) -> (
        TypesView,
        Result<Layout, CompileError>,
    )
        decreases depth, 1int, info.variant_fields@.len() + 1,
    {
        match info.kind {
            AdtKind::Struct => {
                if info.variant_fields@.len() != 1 {
                    (self, Err(CompileError::BadType))
                } else {
                    match self.variants_layout(
                        prog,
                        info.variant_fields@,
                        subs,
                        0,
                        0,
                        Self::empty_agg(0, 1, info.needs_drop),
                        depth,
                    ) {
                        (tv, Ok(agg)) => tv.finish(agg, Discriminant::Absent),
                        (tv, Err(e)) => (tv, Err(e)),
                    }
                }
            },
            AdtKind::EnumWithDiscriminant(d_ty) => {
                if depth == 0 {
                    (self, Err(CompileError::DepthExceeded))
                } else {
                    match self.layout(prog, d_ty, (depth - 1) as nat) {
                        (tv, Ok(d)) => match Width::of_bytes(d.size) {
                            Some(w) => match tv.variants_layout(
                                prog,
                                info.variant_fields@,
                                subs,
                                0,
                                d.size,
                                Self::empty_agg(d.size, d.align, info.needs_drop),
                                depth,
                            ) {
                                (tv2, Ok(agg)) => tv2.finish(agg, Discriminant::Leading(w)),
                                (tv2, Err(e)) => (tv2, Err(e)),
                            },
                            None => (tv, Err(CompileError::BadType)),
                        },
                        (tv, Err(e)) => (tv, Err(e)),
                    }
                }
            },
            AdtKind::EnumNonZero => match self.variants_layout(
                prog,
                info.variant_fields@,
                subs,
                0,
                0,
                Self::empty_agg(0, 1, info.needs_drop),
                depth,
            ) {
                (tv, Ok(agg)) => {
                    let size = align_up(agg.end as int, agg.align as int);
                    if size > u32::MAX {
                        (tv, Err(CompileError::TooLarge))
                    } else {
                        match Width::of_bytes(size as u32) {
                            Some(w) => tv.finish(agg, Discriminant::NonZero(w)),
                            None => (tv, Err(CompileError::BadType)),
                        }
                    }
                },
                (tv, Err(e)) => (tv, Err(e)),
            },
        }
    }
}


proof fn lemma_total_step(lens: Seq<u32>, i: int)
    requires
        0 <= i < lens.len(),
    ensures
        total(lens, i) == lens[i] + total(lens, i + 1),
        total(lens, lens.len() as int) == 0,
{
}

proof fn lemma_total_nonneg(lens: Seq<u32>, i: int)
    ensures
        total(lens, i) >= 0,
    decreases lens.len() - i,
{
    if 0 <= i < lens.len() {
        lemma_total_nonneg(lens, i + 1);
    }
}

impl AggBuf {
    pub fn new(end: u32, align: u32, drop: bool) -> (r: AggBuf)
        ensures
            r@ == TypesView::empty_agg(end, align, drop),
    {
        AggBuf { flat: Vec::new(), lens: Vec::new(), end, align, drop }
    }

    fn close_variant(&mut self, n: u32, end: u32)
        ensures
            final(self)@ == TypesView::close_variant(old(self)@, n, end),
    {
        self.lens.push(n);
        if end > self.end {
            self.end = end;
        }
    }
}

impl TypeContext {
    /// The layout of `ty` if it has been computed.
    pub fn cached_layout(&self, ty: Type) -> (r: Option<Layout>)
        ensures
            r == self@.layout_of(ty),
    {
        if (ty.0 as usize) < self.kinds.len() && self.layouts.len() == self.kinds.len() {
            self.layouts[ty.0 as usize]
        } else {
            None
        }
    }

    /// The offset of a field of a variant.
    pub fn field_offset(&self, l: &Layout, variant: u32, field: u32) -> (r: Result<
        u32,
        CompileError,
    >)
        ensures
            r == self@.field_offset(*l, variant, field),
    {
        if variant >= l.variant_count || l.first_variant as u64 + variant as u64
            >= self.variants.len() as u64 {
            return Err(CompileError::BadType);
        }
        let vi: u64 = l.first_variant as u64 + variant as u64;
        let s = self.variants[vi as usize];
        if field >= s.len || s.start as u64 + field as u64 >= self.offsets.len() as u64 {
            return Err(CompileError::BadType);
        }
        let oi: u64 = s.start as u64 + field as u64;
        Ok(self.offsets[oi as usize])
    }

    /// The number of fields of a variant.
    pub fn field_count(&self, l: &Layout, variant: u32) -> (r: Result<u32, CompileError>)
        ensures
            r == self@.field_count(*l, variant),
    {
        if variant >= l.variant_count || l.first_variant as u64 + variant as u64
            >= self.variants.len() as u64 {
            return Err(CompileError::BadType);
        }
        let vi: u64 = l.first_variant as u64 + variant as u64;
        Ok(self.variants[vi as usize].len)
    }

    fn push_variants(&mut self, agg: &AggBuf) -> (r: Result<u32, CompileError>)
        ensures
            (final(self)@, r) == old(self)@.push_variants(agg@),
    {
        let mut k: usize = 0;
        if !Self::lens_total_is(&agg.lens, agg.flat.len()) {
            return Err(CompileError::BadType);
        }
        if agg.flat.len() > u32::MAX as usize || self.offsets.len() > u32::MAX as usize
            - agg.flat.len() || agg.lens.len() > u32::MAX as usize || self.variants.len()
            > u32::MAX as usize - agg.lens.len() {
            return Err(CompileError::TableFull);
        }
        let base: usize = self.offsets.len();
        let first: usize = self.variants.len();
        while k < agg.flat.len()
            invariant
                k <= agg.flat.len(),
                self.offsets@ == old(self).offsets@ + agg.flat@.take(k as int),
                self.kinds == old(self).kinds,
                self.layouts == old(self).layouts,
                self.pool == old(self).pool,
                self.spans == old(self).spans,
                self.variants == old(self).variants,
            decreases agg.flat.len() - k,
        {
            self.offsets.push(agg.flat[k]);
            proof {
                assert(self.offsets@ =~= old(self).offsets@ + agg.flat@.take(k + 1));
            }
            k += 1;
        }
        proof {
            assert(agg.flat@.take(agg.flat.len() as int) =~= agg.flat@);
        }
        let mut cur: usize = base;
        let mut v: usize = 0;
        while v < agg.lens.len()
            invariant
                v <= agg.lens.len(),
                base + agg.flat.len() <= u32::MAX,
                cur + total(agg.lens@, v as int) == base + agg.flat.len(),
                self.variants@ + spans_of(agg.lens@, cur as int, v as int) == old(self).variants@
                    + spans_of(agg.lens@, base as int, 0),
                self.offsets@ == old(self).offsets@ + agg.flat@,
                self.kinds == old(self).kinds,
                self.layouts == old(self).layouts,
                self.pool == old(self).pool,
                self.spans == old(self).spans,
            decreases agg.lens.len() - v,
        {
            proof {
                lemma_total_step(agg.lens@, v as int);
                lemma_total_nonneg(agg.lens@, v + 1);
                assert(self.variants@.push(Span { start: cur as u32, len: agg.lens@[v as int] })
                    + spans_of(agg.lens@, cur + agg.lens@[v as int], v + 1) =~= self.variants@
                    + spans_of(agg.lens@, cur as int, v as int));
            }
            self.variants.push(Span { start: cur as u32, len: agg.lens[v] });
            cur = cur + agg.lens[v] as usize;
            v += 1;
        }
        proof {
            assert(self.variants@ + spans_of(agg.lens@, cur as int, v as int) =~= self.variants@);
        }
        Ok(first as u32)
    }

    fn lens_total_is(lens: &Vec<u32>, n: usize) -> (r: bool)
        ensures
            r == (total(lens@, 0) == n),
    {
        let mut left: usize = n;
        let mut i: usize = 0;
        while i < lens.len()
            invariant
                i <= lens.len(),
                total(lens@, 0) - n == total(lens@, i as int) - left,
            decreases lens.len() - i,
        {
            proof {
                lemma_total_step(lens@, i as int);
                lemma_total_nonneg(lens@, i + 1);
            }
            if lens[i] as usize > left {
                return false;
            }
            left = left - lens[i] as usize;
            i += 1;
        }
        left == 0
    }

    fn sub_fields(&mut self, fields: &Vec<Type>, subs: &Vec<Sub>) -> (r: Result<
        Vec<Type>,
        CompileError,
    >)
        ensures
            match r {
                Ok(v) => old(self)@.sub_fields(fields@, subs@, 0, Seq::empty()) == (
                    final(self)@,
                    Ok::<Seq<Type>, CompileError>(v@),
                ),
                Err(e) => old(self)@.sub_fields(fields@, subs@, 0, Seq::empty()) == (
                    final(self)@,
                    Err::<Seq<Type>, CompileError>(e),
                ),
            },
    {
        let mut out: Vec<Type> = Vec::new();
        let mut j: usize = 0;
        while j < fields.len()
            invariant
                j <= fields.len(),
                self@.sub_fields(fields@, subs@, j as int, out@) == old(self)@.sub_fields(
                    fields@,
                    subs@,
                    0,
                    Seq::empty(),
                ),
            decreases fields.len() - j,
        {
            let t = self.sub(fields[j], subs)?;
            out.push(t);
            j += 1;
        }
        Ok(out)
    }

    fn list_types(elems: &Vec<Sub>) -> (r: Result<Vec<Type>, CompileError>)
        ensures
            match r {
                Ok(v) => TypesView::list_types(elems@, 0, Seq::empty()) == Ok::<
                    Seq<Type>,
                    CompileError,
                >(v@),
                Err(e) => TypesView::list_types(elems@, 0, Seq::empty()) == Err::<
                    Seq<Type>,
                    CompileError,
                >(e),
            },
    {
        let mut out: Vec<Type> = Vec::new();
        let mut i: usize = 0;
        while i < elems.len()
            invariant
                i <= elems.len(),
                TypesView::list_types(elems@, i as int, out@) == TypesView::list_types(
                    elems@,
                    0,
                    Seq::empty(),
                ),
            decreases elems.len() - i,
        {
            match elems[i] {
                Sub::Type(t) => {
                    out.push(t);
                },
                _ => {
                    return Err(CompileError::BadType);
                },
            }
            i += 1;
        }
        Ok(out)
    }

    /// Whether values of the type have a stand-alone size.
    pub fn is_sized(&self, prog: &Program, ty: Type, depth: u32) -> (r: bool)
        ensures
            r == self@.sized(*prog, ty, depth as nat),
        decreases depth,
    {
        let kind = match self.kind(ty) {
            Ok(k) => k,
            Err(_) => {
                return true;
            },
        };
        match kind {
            TypeKind::Slice(_) | TypeKind::StringSlice | TypeKind::Dynamic { .. } => false,
            TypeKind::Tuple(l) => {
                let list = match self.list(l) {
                    Ok(v) => v,
                    Err(_) => {
                        return true;
                    },
                };
                if list.len() == 0 || depth == 0 {
                    return true;
                }
                match list[list.len() - 1] {
                    Sub::Type(t) => self.is_sized(prog, t, depth - 1),
                    _ => true,
                }
            },
            TypeKind::Adt(item, l) => {
                let info = match prog.adt_info(item) {
                    Ok(i) => i,
                    Err(_) => {
                        return true;
                    },
                };
                let is_struct = match info.kind {
                    AdtKind::Struct => true,
                    _ => false,
                };
                if !is_struct || info.variant_fields.len() != 1 || info.variant_fields[0].len()
                    == 0 {
                    return true;
                }
                let list = match self.list(l) {
                    Ok(v) => v,
                    Err(_) => {
                        return true;
                    },
                };
                let fields = &info.variant_fields[0];
                let f = fields[fields.len() - 1];
                match self.kind(f) {
                    Ok(TypeKind::Param(n)) => match Self::param_type(&list, n) {
                        Ok(t) => if depth == 0 {
                            true
                        } else {
                            self.is_sized(prog, t, depth - 1)
                        },
                        Err(_) => true,
                    },
                    Ok(k) => k.is_sized(),
                    Err(_) => true,
                }
            },
            _ => true,
        }
    }

    fn pointer_layout(&self, prog: &Program, target: Type) -> (r: Result<Layout, CompileError>)
        ensures
            (self@, r) == self@.pointer_layout(*prog, target),
    {
        self.kind(target)?;
        if self.is_sized(prog, target, SIZED_DEPTH) {
            Ok(Layout::new_scalar(POINTER_SIZE, POINTER_SIZE))
        } else {
            Ok(Layout::new_scalar(2 * POINTER_SIZE, POINTER_SIZE))
        }
    }

    /// The layout of `ty`, computed on the first request and kept.
    pub fn layout(&mut self, prog: &Program, ty: Type, depth: u32) -> (r: Result<
        Layout,
        CompileError,
    >)
        ensures
            (final(self)@, r) == old(self)@.layout(*prog, ty, depth as nat),
        decreases depth, 3int, 0int,
    {
        self.kind(ty)?;
        match self.layouts[ty.0 as usize] {
            Some(l) => Ok(l),
            None => {
                let l = self.compute_layout(prog, ty, depth)?;
                if (ty.0 as usize) < self.layouts.len() {
                    self.layouts.set(ty.0 as usize, Some(l));
                }
                Ok(l)
            },
        }
    }

    fn compute_layout(&mut self, prog: &Program, ty: Type, depth: u32) -> (r: Result<
        Layout,
        CompileError,
    >)
        requires
            old(self)@.has_type(ty),
        ensures
            (final(self)@, r) == old(self)@.compute_layout(*prog, ty, depth as nat),
        decreases depth, 2int, 0int,
    {
        let kind = self.kinds[ty.0 as usize];
        match kind {
            TypeKind::Int(w, _) => Ok(Layout::new_scalar(w.bytes(), w.bytes())),
            TypeKind::Float(w) => Ok(Layout::new_scalar(w.bytes(), w.bytes())),
            TypeKind::Bool => Ok(Layout::new_scalar(1, 1)),
            TypeKind::Char => Ok(Layout::new_scalar(4, 4)),
            TypeKind::Never => Ok(Layout::new_scalar(0, 1)),
            TypeKind::FunctionDef(_, _) => Ok(Layout::new_scalar(0, 1)),
            TypeKind::FunctionPointer(_, _) => Ok(Layout::new_scalar(POINTER_SIZE, POINTER_SIZE)),
            TypeKind::Ref(c, _) => self.pointer_layout(prog, c),
            TypeKind::Ptr(c, _) => self.pointer_layout(prog, c),
            TypeKind::Slice(_) => Ok(Layout::new_unsized()),
            TypeKind::StringSlice => Ok(Layout::new_unsized()),
            TypeKind::Dynamic { .. } => Ok(Layout::new_unsized()),
            TypeKind::Param(_) => Err(CompileError::NotConcrete),
            TypeKind::Array(c, len) => match len {
                ArrayLen::Param(_) => Err(CompileError::NotConcrete),
                ArrayLen::Known(n) => self.array_layout(prog, c, n, depth),
            },
            TypeKind::Closure(_, env, _) => {
                if depth == 0 {
                    return Err(CompileError::DepthExceeded);
                }
                self.layout(prog, env, depth - 1)
            },
            TypeKind::Tuple(l) => self.tuple_layout(prog, l, depth),
            TypeKind::Adt(item, l) => {
                let subs = self.list(l)?;
                let info = prog.adt_info(item)?;
                self.adt_layout(prog, info, &subs, depth)
            },
        }
    }

    fn array_layout(&mut self, prog: &Program, c: Type, n: u32, depth: u32) -> (r: Result<
        Layout,
        CompileError,
    >)
        ensures
            (final(self)@, r) == old(self)@.array_layout(*prog, c, n, depth as nat),
        decreases depth, 1int, 0int,
    {
        if depth == 0 {
            return Err(CompileError::DepthExceeded);
        }
        let e = self.layout(prog, c, depth - 1)?;
        if !e.sized {
            return Err(CompileError::Unsized);
        }
        assert(e.size as u64 * n as u64 <= 0xFFFF_FFFFu64 * 0xFFFF_FFFFu64) by (nonlinear_arith)
            requires
                e.size <= 0xFFFF_FFFFu32,
                n <= 0xFFFF_FFFFu32,
        ;
        let size: u64 = e.size as u64 * n as u64;
        if size > u32::MAX as u64 {
            return Err(CompileError::TooLarge);
        }
        Ok(
            Layout {
                size: size as u32,
                align: e.align,
                sized: true,
                first_variant: 0,
                variant_count: 0,
                discriminant: Discriminant::Absent,
                needs_drop: e.needs_drop,
            },
        )
    }

    fn tuple_layout(&mut self, prog: &Program, l: crate::types::ListId, depth: u32) -> (r: Result<
        Layout,
        CompileError,
    >)
        ensures
            (final(self)@, r) == old(self)@.tuple_layout(*prog, l, depth as nat),
        decreases depth, 1int, 0int,
    {
        let elems = self.list(l)?;
        let fields = Self::list_types(&elems)?;
        let mut agg = AggBuf::new(0, 1, false);
        let end = self.fields_layout(prog, &fields, 0, &mut agg, depth)?;
        if fields.len() > u32::MAX as usize {
            return Err(CompileError::TooLarge);
        }
        agg.close_variant(fields.len() as u32, end);
        self.finish(&agg, Discriminant::Absent)
    }

    fn fields_layout(
        &mut self,
        prog: &Program,
        fields: &Vec<Type>,
        start: u32,
        agg: &mut AggBuf,
        depth: u32,
    ) -> (r: Result<u32, CompileError>)
        ensures
            match r {
                Ok(end) => old(self)@.fields_layout(
                    *prog,
                    fields@,
                    0,
                    start,
                    old(agg)@,
                    depth as nat,
                ) == (final(self)@, Ok::<(Agg, u32), CompileError>((final(agg)@, end))),
                Err(e) => old(self)@.fields_layout(
                    *prog,
                    fields@,
                    0,
                    start,
                    old(agg)@,
                    depth as nat,
                ) == (final(self)@, Err::<(Agg, u32), CompileError>(e)),
            },
        decreases depth, 0int, fields.len(),
    {
        let mut cur: u32 = start;
        let mut i: usize = 0;
        while i < fields.len()
            invariant
                i <= fields.len(),
                self@.fields_layout(*prog, fields@, i as int, cur, agg@, depth as nat) == old(self)@.fields_layout(*prog, fields@, 0, start, old(agg)@, depth as nat),
            decreases fields.len() - i,
        {
            if depth == 0 {
                return Err(CompileError::DepthExceeded);
            }
            let f = self.layout(prog, fields[i], depth - 1)?;
            if !f.sized {
                return Err(CompileError::Unsized);
            }
            let off = match align(cur, f.align) {
                Some(o) => o,
                None => {
                    return Err(CompileError::TooLarge);
                },
            };
            if f.size > u32::MAX - off {
                return Err(CompileError::TooLarge);
            }
            agg.flat.push(off);
            if f.align > agg.align {
                agg.align = f.align;
            }
            agg.drop = agg.drop || f.needs_drop;
            cur = off + f.size;
            i += 1;
        }
        Ok(cur)
    }

    fn variants_layout(
        &mut self,
        prog: &Program,
        variant_fields: &Vec<Vec<Type>>,
        subs: &Vec<Sub>,
        start: u32,
        agg: &mut AggBuf,
        depth: u32,
    ) -> (r: Result<(), CompileError>)
        ensures
            match r {
                Ok(_) => old(self)@.variants_layout(
                    *prog,
                    variant_fields@,
                    subs@,
                    0,
                    start,
                    old(agg)@,
                    depth as nat,
                ) == (final(self)@, Ok::<Agg, CompileError>(final(agg)@)),
                Err(e) => old(self)@.variants_layout(
                    *prog,
                    variant_fields@,
                    subs@,
                    0,
                    start,
                    old(agg)@,
                    depth as nat,
                ) == (final(self)@, Err::<Agg, CompileError>(e)),
            },
        decreases depth, 1int, variant_fields.len(),
    {
        let mut v: usize = 0;
        while v < variant_fields.len()
            invariant
                v <= variant_fields.len(),
                self@.variants_layout(
                    *prog,
                    variant_fields@,
                    subs@,
                    v as int,
                    start,
                    agg@,
                    depth as nat,
                ) == old(self)@.variants_layout(
                    *prog,
                    variant_fields@,
                    subs@,
                    0,
                    start,
                    old(agg)@,
                    depth as nat,
                ),
            decreases variant_fields.len() - v,
        {
            if variant_fields[v].len() > u32::MAX as usize {
                return Err(CompileError::TooLarge);
            }
            let ghost before = self@;
            let fields = self.sub_fields(&variant_fields[v], subs)?;
            proof {
                lemma_sub_fields_len(before, variant_fields@[v as int]@, subs@);
            }
            let end = self.fields_layout(prog, &fields, start, agg, depth)?;
            agg.close_variant(fields.len() as u32, end);
            v += 1;
        }
        Ok(())
    }

    fn finish(&mut self, agg: &AggBuf, discriminant: Discriminant) -> (r: Result<
        Layout,
        CompileError,
    >)
        ensures
            (final(self)@, r) == old(self)@.finish(agg@, discriminant),
    {
        let size = match align(agg.end, agg.align) {
            Some(s) => s,
            None => {
                return Err(CompileError::TooLarge);
            },
        };
        if agg.lens.len() > u32::MAX as usize {
            return Err(CompileError::TooLarge);
        }
        let first = self.push_variants(agg)?;
        Ok(
            Layout {
                size,
                align: agg.align,
                sized: true,
                first_variant: first,
                variant_count: agg.lens.len() as u32,
                discriminant,
                needs_drop: agg.drop,
            },
        )
    }

    fn adt_layout(&mut self, prog: &Program, info: &AdtInfo, subs: &Vec<Sub>, depth: u32) -> (r:
        Result<Layout, CompileError>)
        ensures
            (final(self)@, r) == old(self)@.adt_layout(*prog, *info, subs@, depth as nat),
        decreases depth, 1int, info.variant_fields.len() + 1,
    {
        match info.kind {
            AdtKind::Struct => {
                if info.variant_fields.len() != 1 {
                    return Err(CompileError::BadType);
                }
                let mut agg = AggBuf::new(0, 1, info.needs_drop);
                self.variants_layout(prog, &info.variant_fields, subs, 0, &mut agg, depth)?;
                self.finish(&agg, Discriminant::Absent)
            },
            AdtKind::EnumWithDiscriminant(d_ty) => {
                if depth == 0 {
                    return Err(CompileError::DepthExceeded);
                }
                let d = self.layout(prog, d_ty, depth - 1)?;
                let w = match Width::from_bytes(d.size) {
                    Some(w) => w,
                    None => {
                        return Err(CompileError::BadType);
                    },
                };
                let mut agg = AggBuf::new(d.size, d.align, info.needs_drop);
                self.variants_layout(prog, &info.variant_fields, subs, d.size, &mut agg, depth)?;
                self.finish(&agg, Discriminant::Leading(w))
            },
            AdtKind::EnumNonZero => {
                let mut agg = AggBuf::new(0, 1, info.needs_drop);
                self.variants_layout(prog, &info.variant_fields, subs, 0, &mut agg, depth)?;
                let size = match align(agg.end, agg.align) {
                    Some(s) => s,
                    None => {
                        return Err(CompileError::TooLarge);
                    },
                };
                match Width::from_bytes(size) {
                    Some(w) => self.finish(&agg, Discriminant::NonZero(w)),
                    None => Err(CompileError::BadType),
                }
            },
        }
    }
}

/// Substituting into a list of field types keeps their number.
pub proof fn lemma_sub_fields_len(tv: TypesView, fields: Seq<Type>, subs: Seq<Sub>)
    ensures
        tv.sub_fields(fields, subs, 0, Seq::empty()).1 matches Ok(out) ==> out.len()
            == fields.len(),
{
    lemma_sub_fields_len_from(tv, fields, subs, 0, Seq::empty());
}

proof fn lemma_sub_fields_len_from(
    tv: TypesView,
    fields: Seq<Type>,
    subs: Seq<Sub>,
    j: int,
    acc: Seq<Type>,
)
    requires
        0 <= j <= fields.len(),
        acc.len() == j,
    ensures
        tv.sub_fields(fields, subs, j, acc).1 matches Ok(out) ==> out.len() == fields.len(),
    decreases fields.len() - j,
{
    if j < fields.len() {
        match tv.sub(fields[j], subs) {
            (tv2, Ok(t)) => {
                lemma_sub_fields_len_from(tv2, fields, subs, j + 1, acc.push(t));
            },
            (tv2, Err(e)) => {},
        }
    }
}

} // verus!
