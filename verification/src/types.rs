//! Interned types, substitution lists and the type table.

use vstd::prelude::*;
use crate::error::CompileError;
use crate::ids::ItemRef;
use crate::instr::{FloatWidth, Width};

verus! {

/// Handle of an interned type: its index in the type table.
#[derive(PartialEq, Eq, Clone, Copy, Debug, Structural)]
pub struct Type(pub u32);

/// Handle of an interned substitution list.
#[derive(PartialEq, Eq, Clone, Copy, Debug, Structural)]
pub struct ListId(pub u32);

#[derive(PartialEq, Eq, Clone, Copy, Debug, Structural)]
pub enum IntWidth {
    I8,
    I16,
    I32,
    I64,
    I128,
    ISize,
}

#[derive(PartialEq, Eq, Clone, Copy, Debug, Structural)]
pub enum IntSign {
    Signed,
    Unsigned,
}

#[derive(PartialEq, Eq, Clone, Copy, Debug, Structural)]
pub enum Mutability {
    Mut,
    Const,
}

/// Length of an array type: known, or the value of a constant parameter.
#[derive(PartialEq, Eq, Clone, Copy, Debug, Structural)]
pub enum ArrayLen {
    Known(u32),
    Param(u32),
}

/// One substitution: a lifetime, a type or a constant value.
#[derive(PartialEq, Eq, Clone, Copy, Debug, Structural)]
pub enum Sub {
    Lifetime,
    Type(Type),
    Const(i128),
}

/// An ordered list of substitutions.
#[derive(Debug)]
pub struct SubList {
    pub list: Vec<Sub>,
}

/// The closed set of type shapes. Children are handles into the same table.
#[derive(PartialEq, Eq, Clone, Copy, Debug, Structural)]
pub enum TypeKind {
    Int(IntWidth, IntSign),
    Float(FloatWidth),
    Bool,
    Char,
    Never,
    Tuple(ListId),
    Array(Type, ArrayLen),
    Slice(Type),
    StringSlice,
    Ref(Type, Mutability),
    Ptr(Type, Mutability),
    Adt(ItemRef, ListId),
    FunctionDef(ItemRef, ListId),
    /// Input types and output type.
    FunctionPointer(ListId, Type),
    /// Closure number, the tuple of captured values, and the substitutions.
    Closure(u32, Type, ListId),
    Dynamic { primary_trait: Option<ItemRef>, is_dyn_star: bool },
    Param(u32),
}

/// A run of entries in one of the table's pools.
#[derive(PartialEq, Eq, Clone, Copy, Debug, Structural)]
pub struct Span {
    pub start: u32,
    pub len: u32,
}

/// How an enum's variant is told from the others.
#[derive(PartialEq, Eq, Clone, Copy, Debug, Structural)]
pub enum Discriminant {
    /// Not an enum.
    Absent,
    /// An integer of the given width at offset 0; its value is the variant's index.
    Leading(Width),
    /// Variant 0 is the all-zero value of the given width; the others have no value.
    NonZero(Width),
}

/// Size, alignment and field offsets of a type. The offsets of variant `v`
/// are the span at `first_variant + v` of the table's variant list.
#[derive(PartialEq, Eq, Clone, Copy, Debug, Structural)]
pub struct Layout {
    pub size: u32,
    pub align: u32,
    pub sized: bool,
    pub first_variant: u32,
    pub variant_count: u32,
    pub discriminant: Discriminant,
    pub needs_drop: bool,
}

/// The type table: interned kinds, their cached layouts, and the pools that
/// the handles inside them point into.
pub struct TypeContext {
    pub kinds: Vec<TypeKind>,
    pub layouts: Vec<Option<Layout>>,
    pub pool: Vec<Sub>,
    pub spans: Vec<Span>,
    pub offsets: Vec<u32>,
    pub variants: Vec<Span>,
}

/// The type table as plain sequences.
pub struct TypesView {
    pub kinds: Seq<TypeKind>,
    pub layouts: Seq<Option<Layout>>,
    pub pool: Seq<Sub>,
    pub spans: Seq<Span>,
    pub offsets: Seq<u32>,
    pub variants: Seq<Span>,
}

impl View for TypeContext {
    type V = TypesView;

    open spec fn view(&self) -> TypesView {
        TypesView {
            kinds: self.kinds@,
            layouts: self.layouts@,
            pool: self.pool@,
            spans: self.spans@,
            offsets: self.offsets@,
            variants: self.variants@,
        }
    }
}

impl TypesView {
    pub open spec fn has_type(self, ty: Type) -> bool {
        ty.0 < self.kinds.len() && self.layouts.len() == self.kinds.len()
    }

    pub open spec fn kind(self, ty: Type) -> TypeKind {
        self.kinds[ty.0 as int]
    }

    pub open spec fn has_list(self, l: ListId) -> bool {
        l.0 < self.spans.len() && self.spans[l.0 as int].start + self.spans[l.0 as int].len
            <= self.pool.len()
    }

    /// The substitutions of an interned list.
    pub open spec fn list(self, l: ListId) -> Seq<Sub> {
        let s = self.spans[l.0 as int];
        self.pool.subrange(s.start as int, s.start + s.len)
    }

    /// The least index at or after `from` that holds `kind`; the table's length if none does.
    pub open spec fn first_kind(self, kind: TypeKind, from: int) -> int
        decreases self.kinds.len() - from,
    {
        if from < 0 || from >= self.kinds.len() {
            self.kinds.len() as int
        } else if self.kinds[from] == kind {
            from
        } else {
            self.first_kind(kind, from + 1)
        }
    }

    /// The least list handle at or after `from` whose list equals `elems`.
    pub open spec fn first_list(self, elems: Seq<Sub>, from: int) -> int
        decreases self.spans.len() - from,
    {
        if from < 0 || from >= self.spans.len() || from > u32::MAX {
            self.spans.len() as int
        } else if self.has_list(ListId(from as u32)) && self.list(ListId(from as u32)) == elems {
            from
        } else {
            self.first_list(elems, from + 1)
        }
    }

    /// Interning a kind: the handle of its first occurrence, or of a new last entry.
    pub open spec fn intern(self, kind: TypeKind) -> (TypesView, Result<Type, CompileError>) {
        let i = self.first_kind(kind, 0);
        if i < self.kinds.len() {
            (self, Ok(Type(i as u32)))
        } else if self.kinds.len() >= u32::MAX || self.layouts.len() != self.kinds.len() {
            (self, Err(CompileError::TableFull))
        } else {
            (
                TypesView { kinds: self.kinds.push(kind), layouts: self.layouts.push(None), ..self },
                Ok(Type(self.kinds.len() as u32)),
            )
        }
    }

    /// Interning a list: the handle of its first occurrence, or of a new last entry.
    pub open spec fn intern_list(self, elems: Seq<Sub>) -> (TypesView, Result<ListId, CompileError>) {
        let i = self.first_list(elems, 0);
        if i < self.spans.len() {
            (self, Ok(ListId(i as u32)))
        } else if self.spans.len() >= u32::MAX || self.pool.len() + elems.len() > u32::MAX {
            (self, Err(CompileError::TableFull))
        } else {
            (
                TypesView {
                    pool: self.pool + elems,
                    spans: self.spans.push(
                        Span { start: self.pool.len() as u32, len: elems.len() as u32 },
                    ),
                    ..self
                },
                Ok(ListId(self.spans.len() as u32)),
            )
        }
    }

    /// The type at parameter `n` of a substitution list.
    pub open spec fn param_type(subs: Seq<Sub>, n: u32) -> Result<Type, CompileError> {
        if n < subs.len() {
            match subs[n as int] {
                Sub::Type(t) => Ok(t),
                _ => Err(CompileError::MissingSub),
            }
        } else {
            Err(CompileError::MissingSub)
        }
    }

    /// The array length that a substitution list gives to `len`.
    pub open spec fn sub_len(len: ArrayLen, subs: Seq<Sub>) -> Result<ArrayLen, CompileError> {
        match len {
            ArrayLen::Known(n) => Ok(len),
            ArrayLen::Param(n) => {
                if n < subs.len() {
                    match subs[n as int] {
                        Sub::Const(v) => if 0 <= v <= u32::MAX {
                            Ok(ArrayLen::Known(v as u32))
                        } else {
                            Err(CompileError::TooLarge)
                        },
                        _ => Err(CompileError::MissingSub),
                    }
                } else {
                    Err(CompileError::MissingSub)
                }
            },
        }
    }

    /// Substituting `subs` into `ty`: every parameter `N` becomes the `N`th
    /// entry of `subs`, and the types built on the way are interned.
    pub open spec fn sub(self, ty: Type, subs: Seq<Sub>) -> (TypesView, Result<Type, CompileError>)
        decreases ty.0, 1int, 0int,
    {
        if !self.has_type(ty) {
            (self, Err(CompileError::BadType))
        } else {
            match self.kind(ty) {
                TypeKind::Param(n) => (self, Self::param_type(subs, n)),
                TypeKind::Ref(c, m) => {
                    if c.0 >= ty.0 {
                        (self, Err(CompileError::BadType))
                    } else {
                        match self.sub(c, subs) {
                            (tv, Ok(c2)) => tv.intern(TypeKind::Ref(c2, m)),
                            (tv, Err(e)) => (tv, Err(e)),
                        }
                    }
                },
                TypeKind::Ptr(c, m) => {
                    if c.0 >= ty.0 {
                        (self, Err(CompileError::BadType))
                    } else {
                        match self.sub(c, subs) {
                            (tv, Ok(c2)) => tv.intern(TypeKind::Ptr(c2, m)),
                            (tv, Err(e)) => (tv, Err(e)),
                        }
                    }
                },
                TypeKind::Slice(c) => {
                    if c.0 >= ty.0 {
                        (self, Err(CompileError::BadType))
                    } else {
                        match self.sub(c, subs) {
                            (tv, Ok(c2)) => tv.intern(TypeKind::Slice(c2)),
                            (tv, Err(e)) => (tv, Err(e)),
                        }
                    }
                },
                TypeKind::Array(c, len) => {
                    if c.0 >= ty.0 {
                        (self, Err(CompileError::BadType))
                    } else {
                        match self.sub(c, subs) {
                            (tv, Ok(c2)) => match Self::sub_len(len, subs) {
                                Ok(len2) => tv.intern(TypeKind::Array(c2, len2)),
                                Err(e) => (tv, Err(e)),
                            },
                            (tv, Err(e)) => (tv, Err(e)),
                        }
                    }
                },
                TypeKind::Tuple(l) => match self.sub_list(l, subs, ty.0) {
                    (tv, Ok(l2)) => tv.intern(TypeKind::Tuple(l2)),
                    (tv, Err(e)) => (tv, Err(e)),
                },
                TypeKind::Adt(item, l) => match self.sub_list(l, subs, ty.0) {
                    (tv, Ok(l2)) => tv.intern(TypeKind::Adt(item, l2)),
                    (tv, Err(e)) => (tv, Err(e)),
                },
                TypeKind::FunctionDef(item, l) => match self.sub_list(l, subs, ty.0) {
                    (tv, Ok(l2)) => tv.intern(TypeKind::FunctionDef(item, l2)),
                    (tv, Err(e)) => (tv, Err(e)),
                },
                TypeKind::FunctionPointer(l, out) => {
                    if out.0 >= ty.0 {
                        (self, Err(CompileError::BadType))
                    } else {
                        match self.sub_list(l, subs, ty.0) {
                            (tv, Ok(l2)) => match tv.sub(out, subs) {
                                (tv2, Ok(out2)) => tv2.intern(TypeKind::FunctionPointer(l2, out2)),
                                (tv2, Err(e)) => (tv2, Err(e)),
                            },
                            (tv, Err(e)) => (tv, Err(e)),
                        }
                    }
                },
                TypeKind::Closure(n, env, l) => {
                    if env.0 >= ty.0 {
                        (self, Err(CompileError::BadType))
                    } else {
                        match self.sub_list(l, subs, ty.0) {
                            (tv, Ok(l2)) => match tv.sub(env, subs) {
                                (tv2, Ok(env2)) => tv2.intern(TypeKind::Closure(n, env2, l2)),
                                (tv2, Err(e)) => (tv2, Err(e)),
                            },
                            (tv, Err(e)) => (tv, Err(e)),
                        }
                    }
                },
                _ => (self, Ok(ty)),
            }
        }
    }

    /// Substituting into each entry of an interned list, and interning the
    /// result. Type entries must be below `bound`.
    pub open spec fn sub_list(self, l: ListId, subs: Seq<Sub>, bound: u32) -> (
        TypesView,
        Result<ListId, CompileError>,
    )
        decreases bound, 0int, 1int,
    {
        if !self.has_list(l) {
            (self, Err(CompileError::BadType))
        } else {
            match self.sub_entries(self.list(l), subs, bound, 0, Seq::empty()) {
                (tv, Ok(out)) => tv.intern_list(out),
                (tv, Err(e)) => (tv, Err(e)),
            }
        }
    }

    /// Substituting into the entries of `elems` from index `i` on, appending to `acc`.
    pub open spec fn sub_entries(
        self,
        elems: Seq<Sub>,
        subs: Seq<Sub>,
        bound: u32,
        i: int,
        acc: Seq<Sub>,
    ) -> (TypesView, Result<Seq<Sub>, CompileError>)
        decreases bound, 0int, 0int, elems.len() - i,
    {
        if i < 0 || i >= elems.len() {
            (self, Ok(acc))
        } else {
            match elems[i] {
                Sub::Type(t) => {
                    if t.0 >= bound {
                        (self, Err(CompileError::BadType))
                    } else {
                        match self.sub(t, subs) {
                            (tv, Ok(t2)) => tv.sub_entries(
                                elems,
                                subs,
                                bound,
                                i + 1,
                                acc.push(Sub::Type(t2)),
                            ),
                            (tv, Err(e)) => (tv, Err(e)),
                        }
                    }
                },
                other => self.sub_entries(elems, subs, bound, i + 1, acc.push(other)),
            }
        }
    }
}


impl TypesView {
    /// No parameter placeholder occurs in `ty`.
    pub open spec fn concrete(self, ty: Type) -> bool
        decreases ty.0, 1int, 0int,
    {
        if !self.has_type(ty) {
            false
        } else {
            match self.kind(ty) {
                TypeKind::Param(_) => false,
                TypeKind::Ref(c, _) => c.0 < ty.0 && self.concrete(c),
                TypeKind::Ptr(c, _) => c.0 < ty.0 && self.concrete(c),
                TypeKind::Slice(c) => c.0 < ty.0 && self.concrete(c),
                TypeKind::Array(c, len) => len is Known && c.0 < ty.0 && self.concrete(c),
                TypeKind::Tuple(l) => self.list_concrete(l, ty.0),
                TypeKind::Adt(_, l) => self.list_concrete(l, ty.0),
                TypeKind::FunctionDef(_, l) => self.list_concrete(l, ty.0),
                TypeKind::FunctionPointer(l, out) => self.list_concrete(l, ty.0) && out.0 < ty.0
                    && self.concrete(out),
                TypeKind::Closure(_, env, l) => self.list_concrete(l, ty.0) && env.0 < ty.0
                    && self.concrete(env),
                _ => true,
            }
        }
    }

    pub open spec fn list_concrete(self, l: ListId, bound: u32) -> bool
        decreases bound, 0int, 1int,
    {
        self.has_list(l) && self.entries_concrete(self.list(l), bound, 0)
    }

    /// Every type among the entries from `i` on is below `bound` and concrete.
    pub open spec fn entries_concrete(self, elems: Seq<Sub>, bound: u32, i: int) -> bool
        decreases bound, 0int, 0int, elems.len() - i,
    {
        if i < 0 || i >= elems.len() {
            true
        } else {
            match elems[i] {
                Sub::Type(t) => t.0 < bound && self.concrete(t) && self.entries_concrete(
                    elems,
                    bound,
                    i + 1,
                ),
                _ => self.entries_concrete(elems, bound, i + 1),
            }
        }
    }
}

impl TypeContext {
    pub fn new() -> (r: Self)
        ensures
            r@.kinds.len() == 0,
            r@.layouts.len() == 0,
            r@.pool.len() == 0,
            r@.spans.len() == 0,
            r@.offsets.len() == 0,
            r@.variants.len() == 0,
    {
        TypeContext {
            kinds: Vec::new(),
            layouts: Vec::new(),
            pool: Vec::new(),
            spans: Vec::new(),
            offsets: Vec::new(),
            variants: Vec::new(),
        }
    }

    /// The kind of an interned type.
    pub fn kind(&self, ty: Type) -> (r: Result<TypeKind, CompileError>)
        ensures
            r == (if self@.has_type(ty) {
                Ok::<TypeKind, CompileError>(self@.kind(ty))
            } else {
                Err(CompileError::BadType)
            }),
    {
        if (ty.0 as usize) < self.kinds.len() && self.layouts.len() == self.kinds.len() {
            Ok(self.kinds[ty.0 as usize])
        } else {
            Err(CompileError::BadType)
        }
    }

    pub fn has_list(&self, l: ListId) -> (r: bool)
        ensures
            r == self@.has_list(l),
    {
        if (l.0 as usize) < self.spans.len() {
            let s = self.spans[l.0 as usize];
            s.start as u64 + s.len as u64 <= self.pool.len() as u64
        } else {
            false
        }
    }

    /// A copy of the entries of an interned list.
    pub fn list(&self, l: ListId) -> (r: Result<Vec<Sub>, CompileError>)
        ensures
            match r {
                Ok(v) => self@.has_list(l) && v@ == self@.list(l),
                Err(e) => !self@.has_list(l) && e == CompileError::BadType,
            },
    {
        if !self.has_list(l) {
            return Err(CompileError::BadType);
        }
        let s = self.spans[l.0 as usize];
        let start: usize = s.start as usize;
        let n: usize = s.len as usize;
        let mut out: Vec<Sub> = Vec::new();
        let mut k: usize = 0;
        while k < n
            invariant
                k <= n,
                start + n <= self.pool.len(),
                out@ == self.pool@.subrange(start as int, start + k),
            decreases n - k,
        {
            out.push(self.pool[start + k]);
            proof {
                assert(out@ =~= self.pool@.subrange(start as int, start + k + 1));
            }
            k += 1;
        }
        Ok(out)
    }

    fn list_equals(&self, l: ListId, elems: &Vec<Sub>) -> (r: bool)
        ensures
            r == (self@.has_list(l) && self@.list(l) == elems@),
    {
        if !self.has_list(l) {
            return false;
        }
        let s = self.spans[l.0 as usize];
        if s.len as usize != elems.len() {
            return false;
        }
        let start: usize = s.start as usize;
        let n: usize = s.len as usize;
        let mut k: usize = 0;
        while k < n
            invariant
                k <= n,
                n == elems.len(),
                start + n <= self.pool.len(),
                self@.list(l) == self.pool@.subrange(start as int, start + n),
                forall|m: int| 0 <= m < k ==> self@.list(l)[m] == elems@[m],
            decreases n - k,
        {
            assert(self@.list(l)[k as int] == self.pool@[start + k]);
            if self.pool[start + k] != elems[k] {
                return false;
            }
            k += 1;
        }
        assert(self@.list(l) =~= elems@);
        true
    }

    /// Interns a kind: the same kind always gets the same handle.
    pub fn intern(&mut self, kind: TypeKind) -> (r: Result<Type, CompileError>)
        ensures
            (final(self)@, r) == old(self)@.intern(kind),
    {
        let n: usize = self.kinds.len();
        let mut i: usize = 0;
        while i < n
            invariant
                i <= n,
                n == self.kinds.len(),
                self@ == old(self)@,
                self@.first_kind(kind, 0) == self@.first_kind(kind, i as int),
            decreases n - i,
        {
            if self.kinds[i] == kind {
                return Ok(Type(i as u32));
            }
            i += 1;
        }
        if n >= u32::MAX as usize || self.layouts.len() != n {
            return Err(CompileError::TableFull);
        }
        self.kinds.push(kind);
        self.layouts.push(None);
        Ok(Type(n as u32))
    }

    /// Interns a substitution list.
    pub fn intern_list(&mut self, elems: &Vec<Sub>) -> (r: Result<ListId, CompileError>)
        ensures
            (final(self)@, r) == old(self)@.intern_list(elems@),
    {
        let n: usize = self.spans.len();
        let mut i: usize = 0;
        while i < n && i <= u32::MAX as usize
            invariant
                i <= n,
                n == self.spans.len(),
                self@ == old(self)@,
                self@.first_list(elems@, 0) == self@.first_list(elems@, i as int),
            decreases n - i,
        {
            if self.list_equals(ListId(i as u32), elems) {
                return Ok(ListId(i as u32));
            }
            i += 1;
        }
        if n >= u32::MAX as usize || elems.len() > u32::MAX as usize || self.pool.len()
            > u32::MAX as usize - elems.len() {
            return Err(CompileError::TableFull);
        }
        let start: usize = self.pool.len();
        let mut k: usize = 0;
        while k < elems.len()
            invariant
                k <= elems.len(),
                start + elems.len() <= u32::MAX,
                self.pool@ == old(self).pool@ + elems@.subrange(0, k as int),
                self.kinds == old(self).kinds,
                self.layouts == old(self).layouts,
                self.spans == old(self).spans,
                self.offsets == old(self).offsets,
                self.variants == old(self).variants,
            decreases elems.len() - k,
        {
            self.pool.push(elems[k]);
            proof {
                assert(self.pool@ =~= old(self).pool@ + elems@.subrange(0, k + 1));
            }
            k += 1;
        }
        proof {
            assert(elems@.subrange(0, elems.len() as int) =~= elems@);
        }
        self.spans.push(Span { start: start as u32, len: elems.len() as u32 });
        Ok(ListId(n as u32))
    }

    /// The type at parameter `n` of a substitution list.
    pub fn param_type(subs: &Vec<Sub>, n: u32) -> (r: Result<Type, CompileError>)
        ensures
            r == TypesView::param_type(subs@, n),
    {
        if (n as usize) < subs.len() {
            match subs[n as usize] {
                Sub::Type(t) => Ok(t),
                _ => Err(CompileError::MissingSub),
            }
        } else {
            Err(CompileError::MissingSub)
        }
    }

    pub fn sub_len(len: ArrayLen, subs: &Vec<Sub>) -> (r: Result<ArrayLen, CompileError>)
        ensures
            r == TypesView::sub_len(len, subs@),
    {
        match len {
            ArrayLen::Known(_) => Ok(len),
            ArrayLen::Param(n) => {
                if (n as usize) < subs.len() {
                    match subs[n as usize] {
                        Sub::Const(v) => if 0 <= v && v <= u32::MAX as i128 {
                            Ok(ArrayLen::Known(v as u32))
                        } else {
                            Err(CompileError::TooLarge)
                        },
                        _ => Err(CompileError::MissingSub),
                    }
                } else {
                    Err(CompileError::MissingSub)
                }
            },
        }
    }

    /// Substitutes `subs` into `ty`.
    pub fn sub(&mut self, ty: Type, subs: &Vec<Sub>) -> (r: Result<Type, CompileError>)
        ensures
            (final(self)@, r) == old(self)@.sub(ty, subs@),
        decreases ty.0, 1int, 0int,
    {
        let kind = self.kind(ty)?;
        match kind {
            TypeKind::Param(n) => Self::param_type(subs, n),
            TypeKind::Ref(c, m) => {
                if c.0 >= ty.0 {
                    return Err(CompileError::BadType);
                }
                let c2 = self.sub(c, subs)?;
                self.intern(TypeKind::Ref(c2, m))
            },
            TypeKind::Ptr(c, m) => {
                if c.0 >= ty.0 {
                    return Err(CompileError::BadType);
                }
                let c2 = self.sub(c, subs)?;
                self.intern(TypeKind::Ptr(c2, m))
            },
            TypeKind::Slice(c) => {
                if c.0 >= ty.0 {
                    return Err(CompileError::BadType);
                }
                let c2 = self.sub(c, subs)?;
                self.intern(TypeKind::Slice(c2))
            },
            TypeKind::Array(c, len) => {
                if c.0 >= ty.0 {
                    return Err(CompileError::BadType);
                }
                let c2 = self.sub(c, subs)?;
                let len2 = Self::sub_len(len, subs)?;
                self.intern(TypeKind::Array(c2, len2))
            },
            TypeKind::Tuple(l) => {
                let l2 = self.sub_list(l, subs, ty.0)?;
                self.intern(TypeKind::Tuple(l2))
            },
            TypeKind::Adt(item, l) => {
                let l2 = self.sub_list(l, subs, ty.0)?;
                self.intern(TypeKind::Adt(item, l2))
            },
            TypeKind::FunctionDef(item, l) => {
                let l2 = self.sub_list(l, subs, ty.0)?;
                self.intern(TypeKind::FunctionDef(item, l2))
            },
            TypeKind::FunctionPointer(l, out) => {
                if out.0 >= ty.0 {
                    return Err(CompileError::BadType);
                }
                let l2 = self.sub_list(l, subs, ty.0)?;
                let out2 = self.sub(out, subs)?;
                self.intern(TypeKind::FunctionPointer(l2, out2))
            },
            TypeKind::Closure(n, env, l) => {
                if env.0 >= ty.0 {
                    return Err(CompileError::BadType);
                }
                let l2 = self.sub_list(l, subs, ty.0)?;
                let env2 = self.sub(env, subs)?;
                self.intern(TypeKind::Closure(n, env2, l2))
            },
            _ => Ok(ty),
        }
    }

    /// Substitutes `subs` into the types among `elems`, which must be below `bound`.
    pub fn sub_entries(&mut self, elems: &Vec<Sub>, subs: &Vec<Sub>, bound: u32) -> (r: Result<
        Vec<Sub>,
        CompileError,
    >)
        ensures
            match r {
                Ok(v) => old(self)@.sub_entries(elems@, subs@, bound, 0, Seq::empty()) == (
                    final(self)@,
                    Ok::<Seq<Sub>, CompileError>(v@),
                ),
                Err(e) => old(self)@.sub_entries(elems@, subs@, bound, 0, Seq::empty()) == (
                    final(self)@,
                    Err::<Seq<Sub>, CompileError>(e),
                ),
            },
        decreases bound, 0int, 0int, elems.len(),
    {
        let mut out: Vec<Sub> = Vec::new();
        let mut i: usize = 0;
        while i < elems.len()
            invariant
                i <= elems.len(),
                self@.sub_entries(elems@, subs@, bound, i as int, out@) == old(self)@.sub_entries(
                    elems@,
                    subs@,
                    bound,
                    0,
                    Seq::empty(),
                ),
            decreases elems.len() - i,
        {
            match elems[i] {
                Sub::Type(t) => {
                    if t.0 >= bound {
                        return Err(CompileError::BadType);
                    }
                    let t2 = self.sub(t, subs)?;
                    out.push(Sub::Type(t2));
                },
                other => {
                    out.push(other);
                },
            }
            i += 1;
        }
        Ok(out)
    }

    fn sub_list(&mut self, l: ListId, subs: &Vec<Sub>, bound: u32) -> (r: Result<
        ListId,
        CompileError,
    >)
        ensures
            (final(self)@, r) == old(self)@.sub_list(l, subs@, bound),
        decreases bound, 0int, 1int,
    {
        let elems = self.list(l)?;
        let out = self.sub_entries(&elems, subs, bound)?;
        self.intern_list(&out)
    }

    /// Whether `ty` is free of parameter placeholders.
    pub fn is_concrete(&self, ty: Type) -> (r: bool)
        ensures
            r == self@.concrete(ty),
        decreases ty.0, 1int, 0int,
    {
        let kind = match self.kind(ty) {
            Ok(k) => k,
            Err(_) => {
                return false;
            },
        };
        match kind {
            TypeKind::Param(_) => false,
            TypeKind::Ref(c, _) => c.0 < ty.0 && self.is_concrete(c),
            TypeKind::Ptr(c, _) => c.0 < ty.0 && self.is_concrete(c),
            TypeKind::Slice(c) => c.0 < ty.0 && self.is_concrete(c),
            TypeKind::Array(c, len) => {
                match len {
                    ArrayLen::Known(_) => c.0 < ty.0 && self.is_concrete(c),
                    ArrayLen::Param(_) => false,
                }
            },
            TypeKind::Tuple(l) => self.is_list_concrete(l, ty.0),
            TypeKind::Adt(_, l) => self.is_list_concrete(l, ty.0),
            TypeKind::FunctionDef(_, l) => self.is_list_concrete(l, ty.0),
            TypeKind::FunctionPointer(l, out) => self.is_list_concrete(l, ty.0) && out.0 < ty.0
                && self.is_concrete(out),
            TypeKind::Closure(_, env, l) => self.is_list_concrete(l, ty.0) && env.0 < ty.0
                && self.is_concrete(env),
            _ => true,
        }
    }

    /// Whether the types among `elems` are below `bound` and concrete.
    pub fn are_concrete(&self, elems: &Vec<Sub>, bound: u32) -> (r: bool)
        ensures
            r == self@.entries_concrete(elems@, bound, 0),
        decreases bound, 0int, 0int, elems.len(),
    {
        let mut i: usize = 0;
        while i < elems.len()
            invariant
                i <= elems.len(),
                self@.entries_concrete(elems@, bound, i as int) == self@.entries_concrete(
                    elems@,
                    bound,
                    0,
                ),
            decreases elems.len() - i,
        {
            match elems[i] {
                Sub::Type(t) => {
                    if t.0 >= bound || !self.is_concrete(t) {
                        return false;
                    }
                },
                _ => {},
            }
            i += 1;
        }
        true
    }

    fn is_list_concrete(&self, l: ListId, bound: u32) -> (r: bool)
        ensures
            r == self@.list_concrete(l, bound),
        decreases bound, 0int, 1int,
    {
        match self.list(l) {
            Ok(elems) => self.are_concrete(&elems, bound),
            Err(_) => false,
        }
    }
}

} // verus!
