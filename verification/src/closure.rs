//! Closures: a base body and its three specializations, one for each of the
//! traits through which a closure is called.

use vstd::prelude::*;
use std::sync::Arc;
use crate::error::CompileError;
use crate::ir::{FieldPattern, FunctionSig, IRFunction, Pattern, PatternId, PatternKind};
use crate::shared::arc_clone;
use crate::types::{Mutability, Sub, Type, TypeContext, TypeKind, TypesView};

pub use crate::ir::FnTrait;

verus! {

/// Plays the part of a function item for a closure: holds the body as the
/// front end gave it, and the bodies derived from it.
pub struct Closure {
    pub ir_base: Option<Arc<IRFunction>>,
    pub ir_fn: Option<Arc<IRFunction>>,
    pub ir_mut: Option<Arc<IRFunction>>,
    pub ir_once: Option<Arc<IRFunction>>,
    pub unique_id: u32,
}

/// The input types of a signature as a substitution list.
pub open spec fn types_as_subs(tys: Seq<Type>) -> Seq<Sub> {
    Seq::new(tys.len(), |i: int| Sub::Type(tys[i]))
}

/// The field patterns that bind the closure's own parameters from the argument tuple.
pub open spec fn param_fields(params: Seq<PatternId>) -> Seq<FieldPattern> {
    Seq::new(params.len(), |i: int| FieldPattern { field: i as u32, pattern: params[i] })
}

/// The type of the `self` parameter: a reference to the captured
/// environment for `Fn` and `FnMut`, the environment itself for `FnOnce`.
pub open spec fn self_param_type(tv: TypesView, kind: FnTrait, self_ty: Type) -> (
    TypesView,
    Result<Type, CompileError>,
) {
    match kind {
        FnTrait::Fn => tv.intern(TypeKind::Ref(self_ty, Mutability::Const)),
        FnTrait::FnMut => tv.intern(TypeKind::Ref(self_ty, Mutability::Mut)),
        FnTrait::FnOnce => (tv, Ok(self_ty)),
    }
}

/// The types that a specialized body adds: the `self` parameter's type, then
/// the tuple of the argument types of the closure.
pub open spec fn trait_types(tv: TypesView, inputs: Seq<Type>, kind: FnTrait, self_ty: Type) -> (
    TypesView,
    Result<(Type, Type), CompileError>,
) {
    match self_param_type(tv, kind, self_ty) {
        (tv1, Ok(self_p)) => match tv1.intern_list(types_as_subs(inputs)) {
            (tv2, Ok(l)) => match tv2.intern(TypeKind::Tuple(l)) {
                (tv3, Ok(tuple)) => (tv3, Ok((self_p, tuple))),
                (tv3, Err(e)) => (tv3, Err(e)),
            },
            (tv2, Err(e)) => (tv2, Err(e)),
        },
        (tv1, Err(e)) => (tv1, Err(e)),
    }
}

/// The types that the three specialized bodies add, for `Fn`, `FnMut` and
/// `FnOnce` in this order.
pub open spec fn trait_types_all(tv: TypesView, inputs: Seq<Type>, self_ty: Type) -> (
    TypesView,
    Result<((Type, Type), (Type, Type), (Type, Type)), CompileError>,
) {
    match trait_types(tv, inputs, FnTrait::Fn, self_ty) {
        (tv1, Ok(a)) => match trait_types(tv1, inputs, FnTrait::FnMut, self_ty) {
            (tv2, Ok(b)) => match trait_types(tv2, inputs, FnTrait::FnOnce, self_ty) {
                (tv3, Ok(c)) => (tv3, Ok((a, b, c))),
                (tv3, Err(e)) => (tv3, Err(e)),
            },
            (tv2, Err(e)) => (tv2, Err(e)),
        },
        (tv1, Err(e)) => (tv1, Err(e)),
    }
}

/// `r` is `base` specialized for a closure trait: tagged with the trait,
/// with the signature `(self, tuple of the arguments)`, and with two
/// patterns appended, a hole for `self` and a struct pattern that binds the
/// closure's own parameters from the tuple.
pub open spec fn is_trait_ir(
    base: IRFunction,
    kind: FnTrait,
    self_p: Type,
    tuple: Type,
    r: IRFunction,
) -> bool {
    let n = base.patterns@.len() as int;
    &&& r.closure_kind == Some(kind)
    &&& r.exprs == base.exprs
    &&& r.root_expr == base.root_expr
    &&& r.is_constant == base.is_constant
    &&& r.sig.output == base.sig.output
    &&& r.sig.inputs@ == seq![self_p, tuple]
    &&& n + 2 <= u32::MAX
    &&& r.params@ == seq![PatternId(n as u32), PatternId((n + 1) as u32)]
    &&& r.patterns@.len() == n + 2
    &&& r.patterns@.take(n) == base.patterns@
    &&& r.patterns@[n].ty == self_p
    &&& r.patterns@[n].kind is Hole
    &&& r.patterns@[n + 1].ty == tuple
    &&& r.patterns@[n + 1].kind matches PatternKind::Struct { fields } && fields@ == param_fields(
        base.params@,
    )
}

fn input_subs(inputs: &Vec<Type>) -> (r: Vec<Sub>)
    ensures
        r@ == types_as_subs(inputs@),
{
    let mut out: Vec<Sub> = Vec::new();
    let mut i: usize = 0;
    while i < inputs.len()
        invariant
            i <= inputs.len(),
            out@ == types_as_subs(inputs@.take(i as int)),
        decreases inputs.len() - i,
    {
        out.push(Sub::Type(inputs[i]));
        proof {
            assert(out@ =~= types_as_subs(inputs@.take(i + 1)));
        }
        i += 1;
    }
    proof {
        assert(inputs@.take(inputs.len() as int) =~= inputs@);
    }
    out
}

fn share_patterns(patterns: &Vec<Arc<Pattern>>) -> (r: Vec<Arc<Pattern>>)
    ensures
        r@ == patterns@,
{
    let mut out: Vec<Arc<Pattern>> = Vec::new();
    let mut i: usize = 0;
    while i < patterns.len()
        invariant
            i <= patterns.len(),
            out@ == patterns@.take(i as int),
        decreases patterns.len() - i,
    {
        out.push(arc_clone(&patterns[i]));
        proof {
            assert(out@ =~= patterns@.take(i + 1));
        }
        i += 1;
    }
    proof {
        assert(patterns@.take(patterns.len() as int) =~= patterns@);
    }
    out
}

fn field_patterns(params: &Vec<PatternId>) -> (r: Vec<FieldPattern>)
    requires
        params.len() <= u32::MAX,
    ensures
        r@ == param_fields(params@),
{
    let mut out: Vec<FieldPattern> = Vec::new();
    let mut i: usize = 0;
    while i < params.len()
        invariant
            i <= params.len(),
            params.len() <= u32::MAX,
            out@ == param_fields(params@.take(i as int)),
        decreases params.len() - i,
    {
        out.push(FieldPattern { field: i as u32, pattern: params[i] });
        proof {
            assert(out@ =~= param_fields(params@.take(i + 1)));
        }
        i += 1;
    }
    proof {
        assert(params@.take(params.len() as int) =~= params@);
    }
    out
}

/// Specializes a closure body for one of the closure traits.
///
/// Fails only where the type table is full or the pattern ids are used up.
pub fn build_ir_for_trait(
    types: &mut TypeContext,
    ir_in: &IRFunction,
    kind: FnTrait,
    self_ty: Type,
) -> (r: Result<IRFunction, CompileError>)
    ensures
        match r {
            Ok(ir) => trait_types(old(types)@, ir_in.sig.inputs@, kind, self_ty) matches (
                tv,
                Ok(tys),
            ) && final(types)@ == tv && is_trait_ir(*ir_in, kind, tys.0, tys.1, ir),
            Err(e) => match trait_types(old(types)@, ir_in.sig.inputs@, kind, self_ty) {
                (tv, Err(e2)) => e == e2 && final(types)@ == tv,
                (tv, Ok(_)) => e == CompileError::TableFull && final(types)@ == tv && (
                ir_in.patterns@.len() + 2 > u32::MAX || ir_in.params@.len() > u32::MAX),
            },
        },
{
    let self_p = match kind {
        FnTrait::Fn => types.intern(TypeKind::Ref(self_ty, Mutability::Const))?,
        FnTrait::FnMut => types.intern(TypeKind::Ref(self_ty, Mutability::Mut))?,
        FnTrait::FnOnce => self_ty,
    };
    let subs = input_subs(&ir_in.sig.inputs);
    let l = types.intern_list(&subs)?;
    let tuple = types.intern(TypeKind::Tuple(l))?;
    let n: usize = ir_in.patterns.len();
    if n >= (u32::MAX - 1) as usize || ir_in.params.len() > u32::MAX as usize {
        return Err(CompileError::TableFull);
    }
    let mut patterns = share_patterns(&ir_in.patterns);
    patterns.push(Arc::new(Pattern { kind: PatternKind::Hole, ty: self_p }));
    let fields = field_patterns(&ir_in.params);
    patterns.push(Arc::new(Pattern { kind: PatternKind::Struct { fields }, ty: tuple }));
    let mut inputs: Vec<Type> = Vec::new();
    inputs.push(self_p);
    inputs.push(tuple);
    let mut params: Vec<PatternId> = Vec::new();
    params.push(PatternId(n as u32));
    params.push(PatternId((n + 1) as u32));
    let new_ir = IRFunction {
        sig: FunctionSig { inputs, output: ir_in.sig.output },
        params,
        root_expr: ir_in.root_expr,
        exprs: arc_clone(&ir_in.exprs),
        patterns,
        closure_kind: Some(kind),
        is_constant: ir_in.is_constant,
    };
    proof {
        assert(new_ir.sig.inputs@ =~= seq![self_p, tuple]);
        assert(new_ir.params@ =~= seq![PatternId(n as u32), PatternId((n + 1) as u32)]);
        assert(new_ir.patterns@.take(n as int) =~= ir_in.patterns@);
    }
    Ok(new_ir)
}

impl Closure {
    pub fn new(unique_id: u32) -> (r: Self)
        ensures
            r.unique_id == unique_id,
            r.ir_base is None,
            r.ir_fn is None,
            r.ir_mut is None,
            r.ir_once is None,
    {
        Self { ir_base: None, ir_fn: None, ir_mut: None, ir_once: None, unique_id }
    }

    /// Closures are the same when their numbers are.
    pub fn same(&self, other: &Closure) -> (r: bool)
        ensures
            r == (self.unique_id == other.unique_id),
    {
        self.unique_id == other.unique_id
    }

    /// The body as the front end gave it.
    pub fn ir_base(&self) -> (r: Result<Arc<IRFunction>, CompileError>)
        ensures
            r == (match self.ir_base {
                Some(ir) => Ok(ir),
                None => Err(CompileError::MissingIr),
            }),
    {
        match &self.ir_base {
            Some(ir) => Ok(arc_clone(ir)),
            None => Err(CompileError::MissingIr),
        }
    }

    pub open spec fn trait_ir(&self, kind: FnTrait) -> Option<Arc<IRFunction>> {
        match kind {
            FnTrait::Fn => self.ir_fn,
            FnTrait::FnMut => self.ir_mut,
            FnTrait::FnOnce => self.ir_once,
        }
    }

    /// The body specialized for a closure trait.
    pub fn ir_for_trait(&self, kind: FnTrait) -> (r: Result<Arc<IRFunction>, CompileError>)
        ensures
            r == (match self.trait_ir(kind) {
                Some(ir) => Ok(ir),
                None => Err(CompileError::MissingIr),
            }),
    {
        let slot = match kind {
            FnTrait::Fn => &self.ir_fn,
            FnTrait::FnMut => &self.ir_mut,
            FnTrait::FnOnce => &self.ir_once,
        };
        match slot {
            Some(ir) => Ok(arc_clone(ir)),
            None => Err(CompileError::MissingIr),
        }
    }

    /// Stores the body of the closure and derives the three specialized
    /// bodies from it, for a closure of type `self_ty`. Does nothing when a
    /// body is stored already. Where it fails, the closure is as it was.
    pub fn set_ir_base(&mut self, types: &mut TypeContext, ir: IRFunction, self_ty: Type) -> (r:
        Result<(), CompileError>)
        ensures
            final(self).unique_id == old(self).unique_id,
            old(self).ir_base is Some ==> r is Ok && *final(self) == *old(self) && final(types)@
                == old(types)@,
            old(self).ir_base is None ==> match r {
                Ok(_) => trait_types_all(old(types)@, ir.sig.inputs@, self_ty).1 is Ok && final(types)@ == trait_types_all(old(types)@, ir.sig.inputs@, self_ty).0 && final(self).ir_base == Some(Arc::new(ir)) && final(self).ir_fn is Some && final(self).ir_mut
                    is Some && final(self).ir_once is Some && is_trait_ir(
                    ir,
                    FnTrait::Fn,
                    trait_types_all(old(types)@, ir.sig.inputs@, self_ty).1->Ok_0.0.0,
                    trait_types_all(old(types)@, ir.sig.inputs@, self_ty).1->Ok_0.0.1,
                    *final(self).ir_fn->Some_0,
                ) && is_trait_ir(
                    ir,
                    FnTrait::FnMut,
                    trait_types_all(old(types)@, ir.sig.inputs@, self_ty).1->Ok_0.1.0,
                    trait_types_all(old(types)@, ir.sig.inputs@, self_ty).1->Ok_0.1.1,
                    *final(self).ir_mut->Some_0,
                ) && is_trait_ir(
                    ir,
                    FnTrait::FnOnce,
                    trait_types_all(old(types)@, ir.sig.inputs@, self_ty).1->Ok_0.2.0,
                    trait_types_all(old(types)@, ir.sig.inputs@, self_ty).1->Ok_0.2.1,
                    *final(self).ir_once->Some_0,
                ),
                Err(e) => *final(self) == *old(self) && (if ir.patterns@.len() + 2 > u32::MAX
                    || ir.params@.len() > u32::MAX {
                    e == CompileError::TableFull || trait_types(
                        old(types)@,
                        ir.sig.inputs@,
                        FnTrait::Fn,
                        self_ty,
                    ).1 == Err::<(Type, Type), CompileError>(e)
                } else {
                    trait_types_all(old(types)@, ir.sig.inputs@, self_ty) == (
                        final(types)@,
                        Err::<((Type, Type), (Type, Type), (Type, Type)), CompileError>(e),
                    )
                }),
            },
    {
        if self.ir_base.is_some() {
            return Ok(());
        }
        let ir_fn = build_ir_for_trait(types, &ir, FnTrait::Fn, self_ty)?;
        let ir_mut = build_ir_for_trait(types, &ir, FnTrait::FnMut, self_ty)?;
        let ir_once = build_ir_for_trait(types, &ir, FnTrait::FnOnce, self_ty)?;
        self.ir_fn = Some(Arc::new(ir_fn));
        self.ir_mut = Some(Arc::new(ir_mut));
        self.ir_once = Some(Arc::new(ir_once));
        self.ir_base = Some(Arc::new(ir));
        Ok(())
    }
}

} // verus!
