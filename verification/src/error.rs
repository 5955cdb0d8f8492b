//! The failures that compilation, type handling and item lookup report.

use vstd::prelude::*;

verus! {

/// Why a request could not be carried out. Well-formed, type-checked input
/// never produces any of these but `NoImpl`, `ConstEval` and the resource limits.
#[derive(Debug, Clone, Copy, PartialEq, Eq, Structural)]
pub enum CompileError {
    /// A type handle or list handle that the type table does not hold, or a
    /// type that refers to a later one.
    BadType,
    /// The substitution list has no type (or constant) at a parameter's index.
    MissingSub,
    /// A parameter placeholder where a concrete type is needed.
    NotConcrete,
    /// A table has reached the limit of its 32-bit handles.
    TableFull,
    /// A size or frame offset does not fit in 32 bits.
    TooLarge,
    /// The nesting limit for layouts, trait resolution or constant evaluation was reached.
    DepthExceeded,
    /// A value of a type without a stand-alone size was needed.
    Unsized,
    /// A type with a runtime drop obligation was to be placed on the stack.
    DropObligation,
    /// An item of another kind than the operation needs, or no such item.
    ItemMismatch,
    /// The item has no intermediate representation loaded.
    MissingIr,
    /// An expression id out of range, or a child that does not precede its parent.
    BadExpr,
    /// A pattern id out of range, or a pattern whose shape does not fit its type.
    BadPattern,
    /// A construct the compiler has no lowering for.
    Unsupported,
    /// A local variable was read before any pattern bound it.
    MissingLocal,
    /// A local variable was bound twice by aliasing.
    LocalRedefined,
    /// A refutable pattern was compiled without a result slot.
    MissingResult,
    /// An enum variant without a discriminant value was to be tested or written.
    NoDiscriminant,
    /// A scope was left that is not the innermost one.
    ScopeOrder,
    /// `break` or `continue` outside the loop it names.
    NoLoop,
    /// A call whose callee is neither a function item nor a function pointer.
    BadCall,
    /// A call of an intrinsic; the intrinsics table is not part of this library.
    Intrinsic,
    /// No operation exists for the operand type.
    BadOperand,
    /// No trait implementation matches.
    NoImpl,
    /// Evaluating a constant did not run to its `Return`.
    ConstEval,
}

} // verus!
