//! The intermediate representation that the compiler consumes: a function
//! signature, parameter patterns, and index-addressed expressions and patterns.

use vstd::prelude::*;
use std::sync::Arc;
use crate::error::CompileError;
use crate::ids::ItemRef;
use crate::types::{ArrayLen, ListId, Mutability, Type};

verus! {

#[derive(PartialEq, Eq, Clone, Copy, Debug, Structural)]
pub struct ExprId(pub u32);

#[derive(PartialEq, Eq, Clone, Copy, Debug, Structural)]
pub struct PatternId(pub u32);

#[derive(PartialEq, Eq, Clone, Copy, Debug, Structural)]
pub struct LoopId(pub u32);

/// Which of the three closure traits a function body was specialized for.
#[derive(PartialEq, Eq, Clone, Copy, Debug, Structural)]
pub enum FnTrait {
    Fn,
    FnMut,
    FnOnce,
}

#[derive(PartialEq, Eq, Clone, Copy, Debug, Structural)]
pub enum BinaryOp {
    Add,
    Sub,
    Mul,
    Div,
    Rem,
    BitAnd,
    BitOr,
    BitXor,
    ShiftR,
    ShiftL,
    Eq,
    NotEq,
    Lt,
    Gt,
    LtEq,
    GtEq,
}

#[derive(PartialEq, Eq, Clone, Copy, Debug, Structural)]
pub enum UnaryOp {
    Neg,
    Not,
}

#[derive(PartialEq, Eq, Clone, Copy, Debug, Structural)]
pub enum LogicOp {
    And,
    Or,
}

#[derive(PartialEq, Eq, Clone, Copy, Debug, Structural)]
pub enum PointerCast {
    UnSize,
    MutToConstPointer,
    ReifyFnPointer,
    ClosureFnPointer,
    UnsafeFnPointer,
    ArrayToPointer,
}

#[derive(PartialEq, Eq, Clone, Copy, Debug, Structural)]
pub enum BindingMode {
    Value,
    Ref,
}

#[derive(PartialEq, Eq, Clone, Copy, Debug, Structural)]
pub enum MatchGuard {
    Unguarded,
    If(ExprId),
    IfLet,
}

/// Whether an expression may be evaluated once, ahead of time.
#[derive(PartialEq, Eq, Clone, Copy, Debug, Structural)]
pub enum ConstStatus {
    /// Statically evaluable: a shared reference to it is promoted to a constant.
    CanPromote,
    /// Must be evaluated where it stands.
    NotConst,
}

#[derive(PartialEq, Eq, Clone, Copy, Debug, Structural)]
pub struct MatchArm {
    pub pattern: PatternId,
    pub guard: MatchGuard,
    pub body: ExprId,
}

#[derive(PartialEq, Eq, Clone, Copy, Debug, Structural)]
pub struct FieldPattern {
    pub field: u32,
    pub pattern: PatternId,
}

/// A variable captured by a closure: its position in the captured
/// environment, and whether it was captured by reference.
#[derive(PartialEq, Eq, Clone, Copy, Debug, Structural)]
pub struct UpVar {
    pub index: u32,
    pub is_ref: bool,
}

#[derive(PartialEq, Eq, Clone, Copy, Debug, Structural)]
pub enum Stmt {
    Let { pattern: PatternId, init: Option<ExprId>, else_block: Option<ExprId> },
    Expr(ExprId),
}

pub struct Block {
    pub stmts: Vec<Stmt>,
    pub result: Option<ExprId>,
}

#[allow(inconsistent_fields)]
pub enum ExprKind {
    /// Stands for its argument.
    Dummy(ExprId),
    Block(Block),
    LiteralValue(i128),
    LiteralVoid,
    LiteralBytes(Vec<u8>),
    Unary(UnaryOp, ExprId),
    Cast(ExprId),
    Binary(BinaryOp, ExprId, ExprId),
    Assign(ExprId, ExprId),
    AssignOp(BinaryOp, ExprId, ExprId),
    Call { func: ExprId, args: Vec<ExprId> },
    If { cond: ExprId, then: ExprId, else_opt: Option<ExprId> },
    LogicOp(LogicOp, ExprId, ExprId),
    Loop(Block, LoopId),
    Break { loop_id: LoopId, value: Option<ExprId> },
    Continue { loop_id: LoopId },
    Return(Option<ExprId>),
    Ref(ExprId, Mutability),
    DeRef(ExprId),
    PointerCast(ExprId, PointerCast),
    Tuple(Vec<ExprId>),
    Array(Vec<ExprId>),
    ArrayRepeat(ExprId, ArrayLen),
    /// Field index and value of each field given; `rest` supplies the others.
    Adt { variant: u32, fields: Vec<(u32, ExprId)>, rest: Option<ExprId> },
    Let { pattern: PatternId, init: ExprId },
    Match { arg: ExprId, arms: Vec<MatchArm> },
    VarRef(u32),
    UpVar(UpVar),
    Field { lhs: ExprId, variant: u32, field: u32 },
    Index { lhs: ExprId, index: ExprId },
    ConstParam(u32),
    ConstBlock(Arc<IRFunction>),
    NamedConst(ItemRef, ListId),
    Static(ItemRef),
}

pub struct Expr {
    pub kind: ExprKind,
    pub ty: Type,
    pub const_status: ConstStatus,
    /// The value lives in a constant allocation.
    pub const_alloc: bool,
}

#[allow(inconsistent_fields)]
pub enum PatternKind {
    LocalBinding { local_id: u32, mode: BindingMode, sub_pattern: Option<PatternId> },
    Struct { fields: Vec<FieldPattern> },
    Enum { fields: Vec<FieldPattern>, variant_index: u32 },
    Or { options: Vec<PatternId> },
    DeRef { sub_pattern: PatternId },
    LiteralValue(i128),
    NamedConst(ItemRef, ListId),
    LiteralBytes(Vec<u8>),
    Range { start: Option<ExprId>, end: Option<ExprId>, end_is_inclusive: bool },
    Slice { start: Vec<PatternId>, mid: Option<PatternId>, end: Vec<PatternId> },
    Hole,
    Error,
}

pub struct Pattern {
    pub kind: PatternKind,
    pub ty: Type,
}

/// Input and output types of a function.
#[derive(Debug)]
pub struct FunctionSig {
    pub inputs: Vec<Type>,
    pub output: Type,
}

/// One function body. Expressions are shared between the specializations of
/// a closure; each pattern is shared on its own.
pub struct IRFunction {
    pub sig: FunctionSig,
    pub params: Vec<PatternId>,
    pub root_expr: ExprId,
    pub exprs: Arc<Vec<Expr>>,
    pub patterns: Vec<Arc<Pattern>>,
    pub closure_kind: Option<FnTrait>,
    pub is_constant: bool,
}

impl IRFunction {
    pub open spec fn has_expr(&self, id: ExprId) -> bool {
        id.0 < self.exprs@.len()
    }

    pub open spec fn expr_at(&self, id: ExprId) -> Expr {
        self.exprs@[id.0 as int]
    }

    pub open spec fn has_pattern(&self, id: PatternId) -> bool {
        id.0 < self.patterns@.len()
    }

    pub open spec fn pattern_at(&self, id: PatternId) -> Pattern {
        *self.patterns@[id.0 as int]
    }

    pub fn expr(&self, id: ExprId) -> (r: Result<&Expr, CompileError>)
        ensures
            match r {
                Ok(e) => self.has_expr(id) && *e == self.expr_at(id),
                Err(e) => !self.has_expr(id) && e == CompileError::BadExpr,
            },
    {
        if (id.0 as usize) < self.exprs.len() {
            Ok(&self.exprs[id.0 as usize])
        } else {
            Err(CompileError::BadExpr)
        }
    }

    pub fn pattern(&self, id: PatternId) -> (r: Result<&Pattern, CompileError>)
        ensures
            match r {
                Ok(p) => self.has_pattern(id) && *p == self.pattern_at(id),
                Err(e) => !self.has_pattern(id) && e == CompileError::BadPattern,
            },
    {
        if (id.0 as usize) < self.patterns.len() {
            Ok(&self.patterns[id.0 as usize])
        } else {
            Err(CompileError::BadPattern)
        }
    }

    /// Appends a pattern and returns its id; `None` when the ids are used up.
    pub fn insert_pattern(&mut self, kind: PatternKind, ty: Type) -> (r: Option<PatternId>)
        ensures
            match r {
                Some(id) => id.0 == old(self).patterns@.len() && final(self).patterns@
                    == old(self).patterns@.push(final(self).patterns@[id.0 as int])
                    && final(self).pattern_at(id) == (Pattern { kind, ty }),
                None => old(self).patterns@.len() >= u32::MAX && final(self).patterns@ == old(self).patterns@,
            },
            final(self).sig == old(self).sig,
            final(self).params == old(self).params,
            final(self).root_expr == old(self).root_expr,
            final(self).exprs == old(self).exprs,
            final(self).closure_kind == old(self).closure_kind,
            final(self).is_constant == old(self).is_constant,
    {
        let n: usize = self.patterns.len();
        if n >= u32::MAX as usize {
            return None;
        }
        self.patterns.push(Arc::new(Pattern { kind, ty }));
        Some(PatternId(n as u32))
    }
}

/// Collects expressions and patterns, children first, and closes them into a function.
pub struct IRFunctionBuilder {
    pub exprs: Vec<Expr>,
    pub patterns: Vec<Arc<Pattern>>,
}

impl IRFunctionBuilder {
    pub fn new() -> (r: Self)
        ensures
            r.exprs@.len() == 0,
            r.patterns@.len() == 0,
    {
        IRFunctionBuilder { exprs: Vec::new(), patterns: Vec::new() }
    }

    /// Appends an expression that is not constant-promotable.
    pub fn add_expr(&mut self, kind: ExprKind, ty: Type) -> (r: Option<ExprId>)
        ensures
            final(self).patterns == old(self).patterns,
            match r {
                Some(id) => id.0 == old(self).exprs@.len() && final(self).exprs@ == old(self).exprs@.push(
                    Expr { kind, ty, const_status: ConstStatus::NotConst, const_alloc: false },
                ),
                None => old(self).exprs@.len() >= u32::MAX && final(self).exprs@ == old(self).exprs@,
            },
    {
        self.add_expr_with(
            Expr { kind, ty, const_status: ConstStatus::NotConst, const_alloc: false },
        )
    }

    /// Appends an expression and returns its id; `None` when the ids are used up.
    pub fn add_expr_with(&mut self, expr: Expr) -> (r: Option<ExprId>)
        ensures
            final(self).patterns == old(self).patterns,
            match r {
                Some(id) => id.0 == old(self).exprs@.len() && final(self).exprs@ == old(self).exprs@.push(expr),
                None => old(self).exprs@.len() >= u32::MAX && final(self).exprs@ == old(self).exprs@,
            },
    {
        let n: usize = self.exprs.len();
        if n >= u32::MAX as usize {
            return None;
        }
        self.exprs.push(expr);
        Some(ExprId(n as u32))
    }

    /// Appends a pattern and returns its id; `None` when the ids are used up.
    pub fn add_pattern(&mut self, kind: PatternKind, ty: Type) -> (r: Option<PatternId>)
        ensures
            final(self).exprs == old(self).exprs,
            match r {
                Some(id) => id.0 == old(self).patterns@.len() && final(self).patterns@.len()
                    == old(self).patterns@.len() + 1 && *final(self).patterns@[id.0 as int] == (
                    Pattern { kind, ty }
                ) && final(self).patterns@.take(id.0 as int) == old(self).patterns@,
                None => old(self).patterns@.len() >= u32::MAX && final(self).patterns@ == old(self).patterns@,
            },
    {
        let n: usize = self.patterns.len();
        if n >= u32::MAX as usize {
            return None;
        }
        self.patterns.push(Arc::new(Pattern { kind, ty }));
        proof {
            assert(self.patterns@.take(n as int) =~= old(self).patterns@);
        }
        Some(PatternId(n as u32))
    }

    /// Closes the collected nodes into a function body.
    pub fn finish(
        self,
        sig: FunctionSig,
        params: Vec<PatternId>,
        root_expr: ExprId,
        is_constant: bool,
    ) -> (r: IRFunction)
        ensures
            r.sig == sig,
            r.params == params,
            r.root_expr == root_expr,
            *r.exprs == self.exprs,
            r.patterns == self.patterns,
            r.closure_kind == None::<FnTrait>,
            r.is_constant == is_constant,
    {
        IRFunction {
            sig,
            params,
            root_expr,
            exprs: Arc::new(self.exprs),
            patterns: self.patterns,
            closure_kind: None,
            is_constant,
        }
    }
}

} // verus!
