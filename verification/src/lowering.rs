//! What the bytecode compiler produces, as a function of its state: the
//! model that the executable compiler is held to.
//!
//! The state is the compiler's own (bytecode so far, slot stack, locals,
//! loops) together with the machine's (type table, functions, constants).

use vstd::prelude::*;
use crate::abi::POINTER_SIZE;
use crate::error::CompileError;
use crate::ids::ItemRef;
use crate::instr::{FuncId, Instr, Slot, Width};
use crate::ir::{
    BinaryOp, BindingMode, Block, ConstStatus, Expr, ExprId, ExprKind, FieldPattern, FnTrait,
    IRFunction, LogicOp, LoopId, MatchArm, MatchGuard, Pattern, PatternId, PatternKind,
    PointerCast, Stmt, UnaryOp, UpVar,
};
use crate::items::{FunctionAbi, ItemKind};
use crate::layout::LAYOUT_DEPTH;
use crate::program::Program;
use crate::select::{
    binary_spec, cast_spec, copy_from_ptr_spec, copy_spec, copy_to_ptr_spec, literal_spec,
    unary_spec, BinaryCtor,
};
use crate::stack::{Place, PointerKind, StackScope, StackView};
use crate::types::{
    ArrayLen, Discriminant, Layout, ListId, Mutability, Sub, Type, TypeKind, TypesView,
};
use crate::vm::{VmView, CONST_BASE, FUNC_BASE};

verus! {

/// What the compiler knows of the closure whose body it compiles.
#[derive(Debug, Clone, Copy, PartialEq, Eq, Structural)]
pub struct ClosureInfo {
    pub kind: FnTrait,
    pub self_slot: Slot,
    pub self_ty: Type,
}

/// A loop that is being compiled.
#[derive(Debug, Clone, Copy, PartialEq, Eq, Structural)]
pub struct LoopInfo {
    pub loop_id: LoopId,
    pub result_slot: Slot,
    pub start_index: u32,
}

/// A `break` whose jump is still to be patched in.
#[derive(Debug, Clone, Copy, PartialEq, Eq, Structural)]
pub struct BreakInfo {
    pub loop_id: LoopId,
    pub break_index: u32,
}

/// A local variable and the slot that it is bound to.
#[derive(Debug, Clone, Copy, PartialEq, Eq, Structural)]
pub struct Local {
    pub id: u32,
    pub slot: Slot,
}

/// A jump that is patched into a gap.
#[derive(Debug, Clone, Copy, PartialEq, Eq, Structural)]
pub enum Patch {
    Jump,
    JumpF(Slot),
    JumpT(Slot),
}

pub struct CompilerView {
    pub out: Seq<Instr>,
    pub stack: StackView,
    pub locals: Seq<Local>,
    pub loops: Seq<LoopInfo>,
    pub breaks: Seq<BreakInfo>,
    pub closure: Option<ClosureInfo>,
}

/// The compiler's state and the machine's.
pub struct St {
    pub c: CompilerView,
    pub vm: VmView,
}

/// What a function is compiled from.
pub struct Env<'a> {
    pub prog: Program<'a>,
    pub ir: IRFunction,
    pub subs: Seq<Sub>,
}

pub type R<T> = Result<(St, T), CompileError>;

/// The layout of a thin pointer and of pointer-sized integers.
pub open spec fn word_layout() -> Layout {
    Layout::scalar(POINTER_SIZE, POINTER_SIZE)
}

pub open spec fn bool_layout() -> Layout {
    Layout::scalar(1, 1)
}

pub open spec fn shift(slot: Slot, n: int) -> Result<Slot, CompileError> {
    match slot.shifted(n) {
        Some(s) => if n <= i32::MAX {
            Ok(s)
        } else {
            Err(CompileError::TooLarge)
        },
        None => Err(CompileError::TooLarge),
    }
}

pub open spec fn shift_place(p: Place, n: int) -> Result<Place, CompileError> {
    if n > i32::MAX || n < i32::MIN {
        Err(CompileError::TooLarge)
    } else {
        match p.shifted(n) {
            Some(q) => Ok(q),
            None => Err(CompileError::TooLarge),
        }
    }
}

/// The first local with the id, from index `i` on.
pub open spec fn find_local(locals: Seq<Local>, id: u32, i: int) -> Option<Slot>
    decreases locals.len() - i,
{
    if i < 0 || i >= locals.len() {
        None
    } else if locals[i].id == id {
        Some(locals[i].slot)
    } else {
        find_local(locals, id, i + 1)
    }
}

/// The first loop with the id, from index `i` on.
pub open spec fn find_loop(loops: Seq<LoopInfo>, id: LoopId, i: int) -> Option<LoopInfo>
    decreases loops.len() - i,
{
    if i < 0 || i >= loops.len() {
        None
    } else if loops[i].loop_id == id {
        Some(loops[i])
    } else {
        find_loop(loops, id, i + 1)
    }
}

impl<'a> Env<'a> {
    pub open spec fn has_expr(self, id: ExprId) -> bool {
        self.ir.has_expr(id)
    }

    pub open spec fn expr(self, id: ExprId) -> Expr {
        self.ir.expr_at(id)
    }

    pub open spec fn has_pattern(self, id: PatternId) -> bool {
        self.ir.has_pattern(id)
    }

    pub open spec fn pattern(self, id: PatternId) -> Pattern {
        self.ir.pattern_at(id)
    }

    /// Whether an expression denotes a place: a dereference, a variable, a
    /// captured variable, a field, an indexed element, or a constant.
    pub open spec fn is_place(self, id: ExprId) -> Result<bool, CompileError>
        decreases id.0,
    {
        if !self.has_expr(id) {
            Err(CompileError::BadExpr)
        } else {
            match self.expr(id).kind {
                ExprKind::Dummy(v) => if v.0 < id.0 {
                    self.is_place(v)
                } else {
                    Err(CompileError::BadExpr)
                },
                ExprKind::DeRef(_) | ExprKind::VarRef(_) | ExprKind::UpVar(_) | ExprKind::Field {
                    ..
                } | ExprKind::Index { .. } | ExprKind::ConstBlock(_) | ExprKind::NamedConst(
                    _,
                    _,
                ) | ExprKind::Static(_) => Ok(true),
                _ => Ok(false),
            }
        }
    }
}

impl St {
    pub open spec fn with_types(self, tv: TypesView) -> St {
        St { vm: VmView { types: tv, ..self.vm }, ..self }
    }

    pub open spec fn with_stack(self, s: StackView) -> St {
        St { c: CompilerView { stack: s, ..self.c }, ..self }
    }

    /// Appending an instruction.
    pub open spec fn emit(self, i: Instr) -> St {
        St { c: CompilerView { out: self.c.out.push(i), ..self.c }, ..self }
    }

    /// Appending an instruction if there is one.
    pub open spec fn emit_opt(self, i: Option<Instr>) -> St {
        match i {
            Some(x) => self.emit(x),
            None => self,
        }
    }

    /// Appending an instruction that must exist.
    pub open spec fn emit_some(self, i: Option<Instr>) -> Result<St, CompileError> {
        match i {
            Some(x) => Ok(self.emit(x)),
            None => Err(CompileError::BadOperand),
        }
    }

    pub open spec fn emit_ok(self, i: Result<Instr, CompileError>) -> Result<St, CompileError> {
        match i {
            Ok(x) => Ok(self.emit(x)),
            Err(e) => Err(e),
        }
    }

    /// Allocating a slot for a value of the layout.
    pub open spec fn alloc_slot(self, l: Layout) -> R<Slot> {
        match self.c.stack.alloc_slot(l) {
            Ok((s, slot)) => Ok((self.with_stack(s), slot)),
            Err(e) => Err(e),
        }
    }

    /// The destination if one is given, else a new slot.
    pub open spec fn dst_or_alloc(self, dst: Option<Slot>, l: Layout) -> R<Slot> {
        match dst {
            Some(d) => Ok((self, d)),
            None => self.alloc_slot(l),
        }
    }

    pub open spec fn push_scope(self) -> R<StackScope> {
        match self.c.stack.push_scope() {
            Ok((s, scope)) => Ok((self.with_stack(s), scope)),
            Err(e) => Err(e),
        }
    }

    pub open spec fn pop_scope(self, scope: StackScope) -> Result<St, CompileError> {
        match self.c.stack.pop_scope(scope) {
            Ok(s) => Ok(self.with_stack(s)),
            Err(e) => Err(e),
        }
    }

    /// A type with the function's substitutions applied, and its layout.
    pub open spec fn ty_layout(self, env: Env, ty: Type) -> R<(Type, Layout)> {
        match self.vm.types.sub(ty, env.subs) {
            (tv, Ok(t)) => match tv.layout(env.prog, t, LAYOUT_DEPTH as nat) {
                (tv2, Ok(l)) => Ok((self.with_types(tv2), (t, l))),
                (_, Err(e)) => Err(e),
            },
            (_, Err(e)) => Err(e),
        }
    }

    /// The type of an expression with the function's substitutions applied,
    /// and its layout.
    pub open spec fn expr_layout(self, env: Env, id: ExprId) -> R<(Type, Layout)> {
        if !env.has_expr(id) {
            Err(CompileError::BadExpr)
        } else {
            self.ty_layout(env, env.expr(id).ty)
        }
    }

    pub open spec fn pattern_layout(self, env: Env, id: PatternId) -> R<(Type, Layout)> {
        if !env.has_pattern(id) {
            Err(CompileError::BadPattern)
        } else {
            self.ty_layout(env, env.pattern(id).ty)
        }
    }

    pub open spec fn kind(self, ty: Type) -> Result<TypeKind, CompileError> {
        if self.vm.types.has_type(ty) {
            Ok(self.vm.types.kind(ty))
        } else {
            Err(CompileError::BadType)
        }
    }

    /// Leaving a gap for a jump: the gap's index.
    pub open spec fn skip(self) -> R<u32> {
        if self.c.out.len() >= i32::MAX {
            Err(CompileError::TooLarge)
        } else {
            Ok((self.emit(Instr::Skipped), self.c.out.len() as u32))
        }
    }

    /// Filling the gap at `index` with a jump to the end of the bytecode so far.
    pub open spec fn patch(self, index: u32, p: Patch) -> Result<St, CompileError> {
        if index >= self.c.out.len() || self.c.out.len() > i32::MAX {
            Err(CompileError::TooLarge)
        } else {
            let off = (self.c.out.len() - index) as i32;
            Ok(
                St {
                    c: CompilerView {
                        out: self.c.out.update(
                            index as int,
                            match p {
                                Patch::Jump => Instr::Jump(off),
                                Patch::JumpF(s) => Instr::JumpF(off, s),
                                Patch::JumpT(s) => Instr::JumpT(off, s),
                            },
                        ),
                        ..self.c
                    },
                    ..self
                },
            )
        }
    }

    /// Filling each of the gaps from index `i` on.
    pub open spec fn patch_all(self, gaps: Seq<u32>, p: Patch, i: int) -> Result<St, CompileError>
        decreases gaps.len() - i,
    {
        if i < 0 || i >= gaps.len() {
            Ok(self)
        } else {
            match self.patch(gaps[i], p) {
                Ok(s) => s.patch_all(gaps, p, i + 1),
                Err(e) => Err(e),
            }
        }
    }

    /// Appending a jump back to the instruction at `target`.
    pub open spec fn jump_back(self, target: u32) -> Result<St, CompileError> {
        if self.c.out.len() > i32::MAX || target > self.c.out.len() {
            Err(CompileError::TooLarge)
        } else {
            Ok(self.emit(Instr::Jump((target - self.c.out.len()) as i32)))
        }
    }

    /// Where a jump gap is the last instruction, it is taken out again: a
    /// jump to the next instruction does nothing.
    pub open spec fn trim_gap(self, gaps: Seq<u32>) -> (St, Seq<u32>) {
        if gaps.len() > 0 && gaps.last() + 1 == self.c.out.len() {
            (
                St { c: CompilerView { out: self.c.out.drop_last(), ..self.c }, ..self },
                gaps.drop_last(),
            )
        } else {
            (self, gaps)
        }
    }

    pub open spec fn find_local(self, id: u32) -> Result<Slot, CompileError> {
        match find_local(self.c.locals, id, 0) {
            Some(s) => Ok(s),
            None => Err(CompileError::MissingLocal),
        }
    }

    /// The slot of a local: the one it is bound to, or a new one.
    pub open spec fn find_or_alloc_local(self, id: u32, l: Layout) -> R<Slot> {
        match find_local(self.c.locals, id, 0) {
            Some(s) => Ok((self, s)),
            None => match self.alloc_slot(l) {
                Ok((s, slot)) => Ok(
                    (
                        St {
                            c: CompilerView { locals: s.c.locals.push(Local { id, slot }), ..s.c },
                            ..s
                        },
                        slot,
                    ),
                ),
                Err(e) => Err(e),
            },
        }
    }

    /// Binding a local to the slot that its value is in already.
    pub open spec fn alias_local(self, id: u32, slot: Slot) -> Result<St, CompileError> {
        match find_local(self.c.locals, id, 0) {
            Some(_) => Err(CompileError::LocalRedefined),
            None => Ok(
                St {
                    c: CompilerView { locals: self.c.locals.push(Local { id, slot }), ..self.c },
                    ..self
                },
            ),
        }
    }

    /// Writing a pointer-sized literal.
    pub open spec fn emit_word(self, v: i128, slot: Slot) -> St {
        self.emit(Instr::Const(Width::W64, slot, v))
    }

    /// Copying a value to the destination, if one is given.
    pub open spec fn deliver(self, dst: Option<Slot>, from: Slot, size: u32) -> (St, Slot) {
        match dst {
            Some(d) => (self.emit_opt(copy_spec(d, from, size)), d),
            None => (self, from),
        }
    }

    /// The value of a place, copied to the destination or left where it is.
    pub open spec fn load_place(self, place: Place, dst: Option<Slot>, l: Layout) -> R<Slot> {
        match l.size_spec() {
            Err(e) => Err(e),
            Ok(size) => match place {
                Place::Local(slot) => Ok(self.deliver(dst, slot, size)),
                Place::Ptr(p, off, _) => match self.dst_or_alloc(dst, l) {
                    Ok((s, d)) => Ok((s.emit_opt(copy_from_ptr_spec(d, p, size, off)), d)),
                    Err(e) => Err(e),
                },
            },
        }
    }

    /// The value of a place in a slot of its own choosing: a local stays
    /// where it is, a value behind a pointer is copied out.
    pub open spec fn place_value(self, place: Place, l: Layout) -> R<Slot> {
        self.load_place(place, None, l)
    }
}

} // verus!
