//! The slot stack of the compiler: aligned allocation of typed regions in
//! the frame, with scopes for cheap reclamation; and places.

use vstd::prelude::*;
use crate::abi::{align, align_up, CALL_ALIGN};
use crate::error::CompileError;
use crate::instr::Slot;
use crate::types::Layout;

verus! {

/// Whether a pointer carries metadata beside the address.
#[derive(Debug, Clone, Copy, PartialEq, Eq, Structural)]
pub enum PointerKind {
    Thin,
    Fat,
}

impl PointerKind {
    pub fn is_fat(&self) -> (r: bool)
        ensures
            r == (*self == PointerKind::Fat),
    {
        match self {
            PointerKind::Thin => false,
            PointerKind::Fat => true,
        }
    }

    pub fn is_thin(&self) -> (r: bool)
        ensures
            r == (*self == PointerKind::Thin),
    {
        !self.is_fat()
    }
}

/// Where a value lives while code is generated for it: in a slot, or behind
/// the pointer held in a slot, at an offset.
#[derive(Debug, Clone, Copy, PartialEq, Eq, Structural)]
pub enum Place {
    Local(Slot),
    Ptr(Slot, i32, PointerKind),
}

impl Place {
    pub open spec fn shifted(self, n: int) -> Option<Place> {
        match self {
            Place::Local(slot) => match slot.shifted(n) {
                Some(s) => Some(Place::Local(s)),
                None => None,
            },
            Place::Ptr(slot, offset, kind) => if i32::MIN <= offset + n <= i32::MAX {
                Some(Place::Ptr(slot, (offset + n) as i32, kind))
            } else {
                None
            },
        }
    }

    /// The place `n` bytes further on: the later slot, or the same pointer
    /// with a larger offset. `None` when the result cannot be represented.
    pub fn offset_by(&self, n: i32) -> (r: Option<Place>)
        ensures
            r == self.shifted(n as int),
    {
        match self {
            Place::Local(slot) => match slot.offset_by(n) {
                Some(s) => Some(Place::Local(s)),
                None => None,
            },
            Place::Ptr(slot, offset, kind) => {
                let v: i64 = *offset as i64 + n as i64;
                if i32::MIN as i64 <= v && v <= i32::MAX as i64 {
                    Some(Place::Ptr(*slot, v as i32, *kind))
                } else {
                    None
                }
            },
        }
    }
}

/// One allocated region of the frame.
#[derive(Debug, Clone, Copy, PartialEq, Eq, Structural)]
pub struct StackEntry {
    pub base: u32,
    pub size: u32,
}

/// What `push_scope` hands out and `pop_scope` takes back.
#[derive(Debug, Clone, Copy, PartialEq, Eq, Structural)]
pub struct StackScope {
    pub old_entries: usize,
    pub old_top: u32,
    /// The number of scopes that were open when this one was entered.
    pub level: u32,
}

/// Hands out increasing, aligned byte offsets for values of known layout.
pub struct CompilerStack {
    pub entries: Vec<StackEntry>,
    pub top: u32,
    /// The number of scopes that are open.
    pub open_scopes: u32,
}

pub struct StackView {
    pub entries: Seq<StackEntry>,
    pub top: u32,
    pub open_scopes: u32,
}

impl View for CompilerStack {
    type V = StackView;

    open spec fn view(&self) -> StackView {
        StackView { entries: self.entries@, top: self.top, open_scopes: self.open_scopes }
    }
}

impl StackView {
    pub open spec fn empty() -> StackView {
        StackView { entries: Seq::empty(), top: 0, open_scopes: 0 }
    }

    /// Advancing the top to the next multiple of `a`.
    pub open spec fn align(self, a: u32) -> Result<StackView, CompileError> {
        if align_up(self.top as int, a as int) > u32::MAX {
            Err(CompileError::TooLarge)
        } else {
            Ok(StackView { top: align_up(self.top as int, a as int) as u32, ..self })
        }
    }

    /// Allocating a region of the layout's size at the next multiple of its
    /// alignment: the new stack, and the region's base.
    pub open spec fn alloc_no_drop(self, l: Layout) -> Result<(StackView, Slot), CompileError> {
        if !l.sized {
            Err(CompileError::Unsized)
        } else {
            match self.align(l.align) {
                Err(e) => Err(e),
                Ok(s) => if s.top + l.size > u32::MAX {
                    Err(CompileError::TooLarge)
                } else {
                    Ok(
                        (
                            StackView {
                                entries: s.entries.push(StackEntry { base: s.top, size: l.size }),
                                top: (s.top + l.size) as u32,
                                ..s
                            },
                            Slot(s.top),
                        ),
                    )
                },
            }
        }
    }

    /// As `alloc_no_drop`, but types with a drop obligation are rejected.
    pub open spec fn alloc_slot(self, l: Layout) -> Result<(StackView, Slot), CompileError> {
        if l.needs_drop {
            Err(CompileError::DropObligation)
        } else {
            self.alloc_no_drop(l)
        }
    }

    /// Advancing the top to the base of a call frame.
    pub open spec fn align_for_call(self) -> Result<(StackView, Slot), CompileError> {
        match self.align(CALL_ALIGN) {
            Err(e) => Err(e),
            Ok(s) => Ok((s, Slot(s.top))),
        }
    }

    pub open spec fn push_scope(self) -> Result<(StackView, StackScope), CompileError> {
        if self.open_scopes >= u32::MAX {
            Err(CompileError::TooLarge)
        } else {
            Ok(
                (
                    StackView { open_scopes: (self.open_scopes + 1) as u32, ..self },
                    StackScope {
                        old_entries: self.entries.len() as usize,
                        old_top: self.top,
                        level: self.open_scopes,
                    },
                ),
            )
        }
    }

    /// Leaving the innermost scope: the regions allocated in it are given up.
    pub open spec fn pop_scope(self, scope: StackScope) -> Result<StackView, CompileError> {
        if scope.level + 1 != self.open_scopes || scope.old_entries > self.entries.len() {
            Err(CompileError::ScopeOrder)
        } else {
            Ok(
                StackView {
                    entries: self.entries.take(scope.old_entries as int),
                    top: scope.old_top,
                    open_scopes: scope.level,
                },
            )
        }
    }
}

impl CompilerStack {
    pub fn new() -> (r: Self)
        ensures
            r@ == StackView::empty(),
    {
        CompilerStack { entries: Vec::new(), top: 0, open_scopes: 0 }
    }

    /// Allocates a region for a value of the given layout and returns its
    /// base. Types with a drop obligation are rejected.
    pub fn alloc_slot(&mut self, layout: Layout) -> (r: Result<Slot, CompileError>)
        ensures
            match r {
                Ok(slot) => old(self)@.alloc_slot(layout) == Ok::<(StackView, Slot), CompileError>(
                    (final(self)@, slot),
                ),
                Err(e) => old(self)@.alloc_slot(layout) == Err::<(StackView, Slot), CompileError>(e)
                    && final(self)@ == old(self)@,
            },
    {
        if layout.needs_drop {
            return Err(CompileError::DropObligation);
        }
        self.alloc_no_drop(layout)
    }

    /// Allocates a region for a value of the given layout and returns its base.
    pub fn alloc_no_drop(&mut self, layout: Layout) -> (r: Result<Slot, CompileError>)
        ensures
            match r {
                Ok(slot) => old(self)@.alloc_no_drop(layout) == Ok::<
                    (StackView, Slot),
                    CompileError,
                >((final(self)@, slot)),
                Err(e) => old(self)@.alloc_no_drop(layout) == Err::<
                    (StackView, Slot),
                    CompileError,
                >(e) && final(self)@ == old(self)@,
            },
    {
        if !layout.sized {
            return Err(CompileError::Unsized);
        }
        let base = match align(self.top, layout.align) {
            Some(b) => b,
            None => {
                return Err(CompileError::TooLarge);
            },
        };
        if layout.size > u32::MAX - base {
            return Err(CompileError::TooLarge);
        }
        self.entries.push(StackEntry { base, size: layout.size });
        self.top = base + layout.size;
        Ok(Slot::new(base))
    }

    /// Advances the top to the next multiple of `a`.
    pub fn align(&mut self, a: u32) -> (r: Result<(), CompileError>)
        ensures
            match r {
                Ok(_) => old(self)@.align(a) == Ok::<StackView, CompileError>(final(self)@),
                Err(e) => old(self)@.align(a) == Err::<StackView, CompileError>(e) && final(self)@ == old(self)@,
            },
    {
        match align(self.top, a) {
            Some(t) => {
                self.top = t;
                Ok(())
            },
            None => Err(CompileError::TooLarge),
        }
    }

    /// Advances the top to a 16-byte boundary and returns it: the base of a call frame.
    pub fn align_for_call(&mut self) -> (r: Result<Slot, CompileError>)
        ensures
            match r {
                Ok(slot) => old(self)@.align_for_call() == Ok::<(StackView, Slot), CompileError>(
                    (final(self)@, slot),
                ),
                Err(e) => old(self)@.align_for_call() == Err::<(StackView, Slot), CompileError>(
                    e,
                ) && final(self)@ == old(self)@,
            },
    {
        self.align(CALL_ALIGN)?;
        Ok(Slot::new(self.top))
    }

    /// Enters a scope.
    pub fn push_scope(&mut self, _name: &'static str) -> (r: Result<StackScope, CompileError>)
        ensures
            match r {
                Ok(scope) => old(self)@.push_scope() == Ok::<
                    (StackView, StackScope),
                    CompileError,
                >((final(self)@, scope)),
                Err(e) => old(self)@.push_scope() == Err::<(StackView, StackScope), CompileError>(
                    e,
                ) && final(self)@ == old(self)@,
            },
    {
        if self.open_scopes >= u32::MAX {
            return Err(CompileError::TooLarge);
        }
        let scope = StackScope {
            old_entries: self.entries.len(),
            old_top: self.top,
            level: self.open_scopes,
        };
        self.open_scopes = self.open_scopes + 1;
        Ok(scope)
    }

    /// Leaves the innermost scope and gives up what was allocated in it.
    pub fn pop_scope(&mut self, scope: StackScope) -> (r: Result<(), CompileError>)
        ensures
            match r {
                Ok(_) => old(self)@.pop_scope(scope) == Ok::<StackView, CompileError>(
                    final(self)@,
                ),
                Err(e) => old(self)@.pop_scope(scope) == Err::<StackView, CompileError>(e)
                    && final(self)@ == old(self)@,
            },
    {
        if scope.level as u64 + 1 != self.open_scopes as u64 || scope.old_entries
            > self.entries.len() {
            return Err(CompileError::ScopeOrder);
        }
        self.entries.truncate(scope.old_entries);
        self.top = scope.old_top;
        self.open_scopes = scope.level;
        Ok(())
    }
}

/// A frame laid out ahead of a call: only the top is tracked.
pub struct CallFrame {
    pub top: u32,
}

impl CallFrame {
    pub fn new() -> (r: Self)
        ensures
            r.top == 0,
    {
        CallFrame { top: 0 }
    }

    /// Allocates a region of the layout's size at the next multiple of its alignment.
    pub fn alloc_slot(&mut self, layout: Layout) -> (r: Result<Slot, CompileError>)
        ensures
            match r {
                Ok(slot) => layout.sized && slot.0 == align_up(
                    old(self).top as int,
                    layout.align as int,
                ) && final(self).top == slot.0 + layout.size,
                Err(e) => final(self).top == old(self).top && (if !layout.sized {
                    e == CompileError::Unsized
                } else {
                    e == CompileError::TooLarge && align_up(
                        old(self).top as int,
                        layout.align as int,
                    ) + layout.size > u32::MAX
                }),
            },
    {
        if !layout.sized {
            return Err(CompileError::Unsized);
        }
        let base = match align(self.top, layout.align) {
            Some(b) => b,
            None => {
                return Err(CompileError::TooLarge);
            },
        };
        if layout.size > u32::MAX - base {
            return Err(CompileError::TooLarge);
        }
        self.top = base + layout.size;
        Ok(Slot::new(base))
    }

    /// Advances the top to the next multiple of `a`.
    pub fn align(&mut self, a: u32) -> (r: Result<(), CompileError>)
        ensures
            match r {
                Ok(_) => final(self).top == align_up(old(self).top as int, a as int),
                Err(e) => e == CompileError::TooLarge && final(self).top == old(self).top
                    && align_up(old(self).top as int, a as int) > u32::MAX,
            },
    {
        match align(self.top, a) {
            Some(t) => {
                self.top = t;
                Ok(())
            },
            None => Err(CompileError::TooLarge),
        }
    }
}

} // verus!
