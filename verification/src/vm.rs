//! The machine's state: the type table, the table of monomorphic functions,
//! the bytecode and constant arenas, and the caches that make every request
//! for a monomorphization or a constant answer with the same handle.

use vstd::prelude::*;
use crate::error::CompileError;
use crate::ids::{CrateId, ItemRef};
use crate::instr::{FuncId, Instr};
use crate::maps::{mono_entries, mono_get, mono_insert, mono_new, MonoKey, MonoMap};
use crate::program::Program;
use crate::shared::str_starts_with;
use crate::types::{ListId, Span, Sub, SubList, TypeContext, TypesView};

verus! {

/// Address of the first byte of a thread's stack.
pub const STACK_BASE: u64 = 0x1000_0000;

/// Size of a thread's stack, in bytes.
pub const STACK_SIZE: u32 = 0x1_0000;

/// Address of the first byte of the constant arena.
pub const CONST_BASE: u64 = 0x1_0000_0000;

/// The value that stands for the function with handle 0 in a function pointer.
pub const FUNC_BASE: u64 = 0x8000_0000_0000;

/// The functions that run outside the machine.
#[derive(Debug, Clone, Copy, PartialEq, Eq, Structural)]
pub enum Builtin {
    PrintInt,
    PrintUint,
    PrintFloat,
    PrintBool,
    PrintChar,
}

/// Where a function's body comes from.
#[derive(Debug, Clone, Copy, PartialEq, Eq, Structural)]
pub enum FunctionSource {
    Item(ItemRef),
    /// A closure, by its number.
    Closure(u32),
}

/// A monomorphic function: a source with concrete substitutions, and its
/// bytecode once that has been published.
#[derive(Debug, Clone, Copy, PartialEq, Eq, Structural)]
pub struct Function {
    pub source: FunctionSource,
    pub subs: ListId,
    pub native: Option<Builtin>,
    /// The function's run of the bytecode arena.
    pub bytecode: Option<Span>,
}

pub struct VM {
    pub types: TypeContext,
    pub is_verbose: bool,
    pub core_crate: Option<CrateId>,
    pub functions: Vec<Function>,
    /// The bytecode arena: the published bytecode of all functions.
    pub code: Vec<Instr>,
    /// The constant arena.
    pub constants: Vec<u8>,
    /// Function handles by item and substitutions.
    pub mono: MonoMap,
    /// Function handles by closure and substitutions.
    pub closure_mono: MonoMap,
    /// Offsets of evaluated constants in the constant arena.
    pub const_values: MonoMap,
    /// Offsets of vtables in the constant arena, by trait and type.
    pub vtables: MonoMap,
    /// How deep constant evaluation, layouts and trait resolution may nest.
    pub depth_limit: u32,
    /// How many instructions the evaluation of one constant may take.
    pub step_limit: u64,
}

pub struct VmView {
    pub types: TypesView,
    pub is_verbose: bool,
    pub core_crate: Option<CrateId>,
    pub functions: Seq<Function>,
    pub code: Seq<Instr>,
    pub constants: Seq<u8>,
    pub mono: Map<MonoKey, u32>,
    pub closure_mono: Map<MonoKey, u32>,
    pub const_values: Map<MonoKey, u32>,
    pub vtables: Map<MonoKey, u32>,
    pub depth_limit: u32,
    pub step_limit: u64,
}

impl View for VM {
    type V = VmView;

    open spec fn view(&self) -> VmView {
        VmView {
            types: self.types@,
            is_verbose: self.is_verbose,
            core_crate: self.core_crate,
            functions: self.functions@,
            code: self.code@,
            constants: self.constants@,
            mono: mono_entries(self.mono),
            closure_mono: mono_entries(self.closure_mono),
            const_values: mono_entries(self.const_values),
            vtables: mono_entries(self.vtables),
            depth_limit: self.depth_limit,
            step_limit: self.step_limit,
        }
    }
}

/// The builtin that a path names: `None` for a path outside `::_builtin::`,
/// an error for an unknown name inside it.
pub open spec fn builtin_of(path: Seq<char>) -> Result<Option<Builtin>, CompileError> {
    if !("::_builtin::"@.len() <= path.len() && path.subrange(0, "::_builtin::"@.len() as int)
        == "::_builtin::"@) {
        Ok(None)
    } else if path == "::_builtin::print_int"@ {
        Ok(Some(Builtin::PrintInt))
    } else if path == "::_builtin::print_uint"@ {
        Ok(Some(Builtin::PrintUint))
    } else if path == "::_builtin::print_float"@ {
        Ok(Some(Builtin::PrintFloat))
    } else if path == "::_builtin::print_bool"@ {
        Ok(Some(Builtin::PrintBool))
    } else if path == "::_builtin::print_char"@ {
        Ok(Some(Builtin::PrintChar))
    } else {
        Err(CompileError::Unsupported)
    }
}

fn find_builtin(path: &str) -> (r: Result<Option<Builtin>, CompileError>)
    ensures
        r == builtin_of(path@),
{
    if !str_starts_with(path, "::_builtin::") {
        return Ok(None);
    }
    let p = path.to_owned();
    if p == "::_builtin::print_int".to_owned() {
        Ok(Some(Builtin::PrintInt))
    } else if p == "::_builtin::print_uint".to_owned() {
        Ok(Some(Builtin::PrintUint))
    } else if p == "::_builtin::print_float".to_owned() {
        Ok(Some(Builtin::PrintFloat))
    } else if p == "::_builtin::print_bool".to_owned() {
        Ok(Some(Builtin::PrintBool))
    } else if p == "::_builtin::print_char".to_owned() {
        Ok(Some(Builtin::PrintChar))
    } else {
        Err(CompileError::Unsupported)
    }
}

impl VmView {
    pub open spec fn has_func(self, f: FuncId) -> bool {
        f.0 < self.functions.len()
    }

    pub open spec fn func(self, f: FuncId) -> Function {
        self.functions[f.0 as int]
    }

    /// The published bytecode of a function.
    pub open spec fn bytecode(self, f: FuncId) -> Option<Seq<Instr>> {
        if !self.has_func(f) {
            None
        } else {
            match self.func(f).bytecode {
                Some(s) => if s.start + s.len <= self.code.len() {
                    Some(self.code.subrange(s.start as int, s.start + s.len))
                } else {
                    None
                },
                None => None,
            }
        }
    }

    /// The builtin that a source stands for.
    pub open spec fn native_of(prog: Program, source: FunctionSource) -> Result<
        Option<Builtin>,
        CompileError,
    > {
        match source {
            FunctionSource::Item(item) => if prog.has_item(item) {
                builtin_of(prog.item_at(item).path.1@)
            } else {
                Err(CompileError::ItemMismatch)
            },
            FunctionSource::Closure(_) => Ok(None),
        }
    }

    /// A new function without bytecode, at the end of the table.
    pub open spec fn alloc_function(self, prog: Program, source: FunctionSource, subs: ListId) -> (
        VmView,
        Result<FuncId, CompileError>,
    ) {
        if self.functions.len() >= u32::MAX {
            (self, Err(CompileError::TableFull))
        } else {
            match Self::native_of(prog, source) {
                Err(e) => (self, Err(e)),
                Ok(native) => (
                    VmView {
                        functions: self.functions.push(
                            Function { source, subs, native, bytecode: None },
                        ),
                        ..self
                    },
                    Ok(FuncId(self.functions.len() as u32)),
                ),
            }
        }
    }

    /// The function for an item and concrete substitutions: the cached
    /// handle, or a new function that is cached.
    pub open spec fn func_mono(self, prog: Program, item: ItemRef, subs: Seq<Sub>) -> (
        VmView,
        Result<FuncId, CompileError>,
    ) {
        if !prog.has_item(item) || !(prog.item_at(item).kind is Function) {
            (self, Err(CompileError::ItemMismatch))
        } else {
            match self.types.intern_list(subs) {
                (tv, Err(e)) => (VmView { types: tv, ..self }, Err(e)),
                (tv, Ok(l)) => {
                    let s1 = VmView { types: tv, ..self };
                    let key = (item.crate_id.0, item.item_id.0, l.0);
                    if !tv.entries_concrete(subs, u32::MAX, 0) {
                        (s1, Err(CompileError::NotConcrete))
                    } else if s1.mono.dom().contains(key) {
                        (s1, Ok(FuncId(s1.mono[key])))
                    } else {
                        match s1.alloc_function(prog, FunctionSource::Item(item), l) {
                            (s2, Ok(f)) => (VmView { mono: s2.mono.insert(key, f.0), ..s2 }, Ok(f)),
                            (s2, Err(e)) => (s2, Err(e)),
                        }
                    }
                },
            }
        }
    }

    /// The function for a closure and concrete substitutions.
    pub open spec fn closure_mono(self, prog: Program, closure: u32, subs: Seq<Sub>) -> (
        VmView,
        Result<FuncId, CompileError>,
    ) {
        if closure >= prog.closures@.len() {
            (self, Err(CompileError::ItemMismatch))
        } else {
            match self.types.intern_list(subs) {
                (tv, Err(e)) => (VmView { types: tv, ..self }, Err(e)),
                (tv, Ok(l)) => {
                    let s1 = VmView { types: tv, ..self };
                    let key = (0u32, closure, l.0);
                    if !tv.entries_concrete(subs, u32::MAX, 0) {
                        (s1, Err(CompileError::NotConcrete))
                    } else if s1.closure_mono.dom().contains(key) {
                        (s1, Ok(FuncId(s1.closure_mono[key])))
                    } else {
                        match s1.alloc_function(prog, FunctionSource::Closure(closure), l) {
                            (s2, Ok(f)) => (
                                VmView { closure_mono: s2.closure_mono.insert(key, f.0), ..s2 },
                                Ok(f),
                            ),
                            (s2, Err(e)) => (s2, Err(e)),
                        }
                    }
                },
            }
        }
    }

    /// Appending bytes to the constant arena: the new state and the offset
    /// of the first byte.
    pub open spec fn alloc_constant(self, bytes: Seq<u8>) -> (VmView, Result<u32, CompileError>) {
        if self.constants.len() + bytes.len() > u32::MAX {
            (self, Err(CompileError::TableFull))
        } else {
            (
                VmView { constants: self.constants + bytes, ..self },
                Ok(self.constants.len() as u32),
            )
        }
    }

    /// Publishing bytecode for a function. The first publication wins: a
    /// function that has bytecode keeps it.
    pub open spec fn set_bytecode(self, f: FuncId, bc: Seq<Instr>) -> (
        VmView,
        Result<(), CompileError>,
    ) {
        if !self.has_func(f) {
            (self, Err(CompileError::ItemMismatch))
        } else if self.func(f).bytecode is Some {
            (self, Ok(()))
        } else if self.code.len() + bc.len() > u32::MAX {
            (self, Err(CompileError::TableFull))
        } else {
            (
                VmView {
                    code: self.code + bc,
                    functions: self.functions.update(
                        f.0 as int,
                        Function {
                            bytecode: Some(
                                Span { start: self.code.len() as u32, len: bc.len() as u32 },
                            ),
                            ..self.func(f)
                        },
                    ),
                    ..self
                },
                Ok(()),
            )
        }
    }
}

impl VM {
    pub fn new(is_verbose: bool) -> (r: Self)
        ensures
            r@.is_verbose == is_verbose,
            r@.core_crate is None,
            r@.functions.len() == 0,
            r@.code.len() == 0,
            r@.constants.len() == 0,
            r@.types.kinds.len() == 0,
            r@.types.spans.len() == 0,
            r@.mono =~= Map::empty(),
            r@.closure_mono =~= Map::empty(),
            r@.const_values =~= Map::empty(),
            r@.vtables =~= Map::empty(),
            r@.depth_limit == 64,
            r@.step_limit == 1_000_000,
    {
        VM {
            types: TypeContext::new(),
            is_verbose,
            core_crate: None,
            functions: Vec::new(),
            code: Vec::new(),
            constants: Vec::new(),
            mono: mono_new(),
            closure_mono: mono_new(),
            const_values: mono_new(),
            vtables: mono_new(),
            depth_limit: 64,
            step_limit: 1_000_000,
        }
    }

    fn native_of(prog: &Program, source: FunctionSource) -> (r: Result<
        Option<Builtin>,
        CompileError,
    >)
        ensures
            r == VmView::native_of(*prog, source),
    {
        match source {
            FunctionSource::Item(item) => {
                let it = prog.item(item)?;
                find_builtin(it.path.as_string())
            },
            FunctionSource::Closure(_) => Ok(None),
        }
    }

    /// Adds a monomorphic function without bytecode. Items under
    /// `::_builtin::` become the native functions of those names.
    pub fn alloc_function(&mut self, prog: &Program, source: FunctionSource, subs: ListId) -> (r:
        Result<FuncId, CompileError>)
        ensures
            (final(self)@, r) == old(self)@.alloc_function(*prog, source, subs),
    {
        let n: usize = self.functions.len();
        if n >= u32::MAX as usize {
            return Err(CompileError::TableFull);
        }
        let native = Self::native_of(prog, source)?;
        self.functions.push(Function { source, subs, native, bytecode: None });
        Ok(FuncId(n as u32))
    }

    /// The monomorphic function of a function item for the given
    /// substitutions, which must be concrete. Every request for the same
    /// item and substitutions returns the same handle.
    pub fn func_mono(&mut self, prog: &Program, item: ItemRef, subs: &SubList) -> (r: Result<
        FuncId,
        CompileError,
    >)
        ensures
            (final(self)@, r) == old(self)@.func_mono(*prog, item, subs.list@),
    {
        let it = prog.item(item)?;
        if !it.is_function() {
            return Err(CompileError::ItemMismatch);
        }
        let l = self.types.intern_list(&subs.list)?;
        if !self.types.are_concrete(&subs.list, u32::MAX) {
            return Err(CompileError::NotConcrete);
        }
        let key = (item.crate_id.0, item.item_id.0, l.0);
        match mono_get(&self.mono, key) {
            Some(f) => Ok(FuncId(f)),
            None => {
                let f = self.alloc_function(prog, FunctionSource::Item(item), l)?;
                mono_insert(&mut self.mono, key, f.0);
                Ok(f)
            },
        }
    }

    /// The monomorphic function of a closure for the given substitutions.
    pub fn closure_mono(&mut self, prog: &Program, closure: u32, subs: &SubList) -> (r: Result<
        FuncId,
        CompileError,
    >)
        ensures
            (final(self)@, r) == old(self)@.closure_mono(*prog, closure, subs.list@),
    {
        if closure as usize >= prog.closures.len() {
            return Err(CompileError::ItemMismatch);
        }
        let l = self.types.intern_list(&subs.list)?;
        if !self.types.are_concrete(&subs.list, u32::MAX) {
            return Err(CompileError::NotConcrete);
        }
        let key = (0u32, closure, l.0);
        match mono_get(&self.closure_mono, key) {
            Some(f) => Ok(FuncId(f)),
            None => {
                let f = self.alloc_function(prog, FunctionSource::Closure(closure), l)?;
                mono_insert(&mut self.closure_mono, key, f.0);
                Ok(f)
            },
        }
    }

    /// Copies bytes into the constant arena and returns the offset of the first.
    pub fn alloc_constant(&mut self, bytes: &Vec<u8>) -> (r: Result<u32, CompileError>)
        ensures
            (final(self)@, r) == old(self)@.alloc_constant(bytes@),
    {
        let start: usize = self.constants.len();
        if bytes.len() > u32::MAX as usize || start > u32::MAX as usize - bytes.len() {
            return Err(CompileError::TableFull);
        }
        let mut k: usize = 0;
        while k < bytes.len()
            invariant
                k <= bytes.len(),
                self.constants@ == old(self).constants@ + bytes@.take(k as int),
                self.types == old(self).types,
                self.is_verbose == old(self).is_verbose,
                self.core_crate == old(self).core_crate,
                self.functions == old(self).functions,
                self.code == old(self).code,
                self.mono == old(self).mono,
                self.closure_mono == old(self).closure_mono,
                self.const_values == old(self).const_values,
                self.vtables == old(self).vtables,
                self.depth_limit == old(self).depth_limit,
                self.step_limit == old(self).step_limit,
            decreases bytes.len() - k,
        {
            self.constants.push(bytes[k]);
            proof {
                assert(self.constants@ =~= old(self).constants@ + bytes@.take(k + 1));
            }
            k += 1;
        }
        proof {
            assert(bytes@.take(bytes.len() as int) =~= bytes@);
        }
        Ok(start as u32)
    }

    /// The published bytecode of a function: its run of the bytecode arena.
    pub fn get_bytecode(&self, f: FuncId) -> (r: Option<Span>)
        ensures
            r == (if self@.has_func(f) {
                self@.func(f).bytecode
            } else {
                None
            }),
    {
        if (f.0 as usize) < self.functions.len() {
            self.functions[f.0 as usize].bytecode
        } else {
            None
        }
    }

    /// The native function that a function stands for, if it is one.
    pub fn get_native(&self, f: FuncId) -> (r: Option<Builtin>)
        ensures
            r == (if self@.has_func(f) {
                self@.func(f).native
            } else {
                None
            }),
    {
        if (f.0 as usize) < self.functions.len() {
            self.functions[f.0 as usize].native
        } else {
            None
        }
    }

    /// Makes a function native.
    pub fn set_native(&mut self, f: FuncId, native: Builtin) -> (r: Result<(), CompileError>)
        ensures
            match r {
                Ok(_) => old(self)@.has_func(f) && final(self)@ == (VmView {
                    functions: old(self)@.functions.update(
                        f.0 as int,
                        Function { native: Some(native), ..old(self)@.func(f) },
                    ),
                    ..old(self)@
                }),
                Err(e) => !old(self)@.has_func(f) && e == CompileError::ItemMismatch && final(self)@ == old(self)@,
            },
    {
        if (f.0 as usize) >= self.functions.len() {
            return Err(CompileError::ItemMismatch);
        }
        let mut func = self.functions[f.0 as usize];
        func.native = Some(native);
        self.functions.set(f.0 as usize, func);
        Ok(())
    }

    /// Publishes bytecode for a function, unless it has bytecode already.
    pub fn set_bytecode(&mut self, f: FuncId, bc: &Vec<Instr>) -> (r: Result<(), CompileError>)
        ensures
            (final(self)@, r) == old(self)@.set_bytecode(f, bc@),
    {
        if (f.0 as usize) >= self.functions.len() {
            return Err(CompileError::ItemMismatch);
        }
        let mut func = self.functions[f.0 as usize];
        if func.bytecode.is_some() {
            return Ok(());
        }
        let start: usize = self.code.len();
        if bc.len() > u32::MAX as usize || start > u32::MAX as usize - bc.len() {
            return Err(CompileError::TableFull);
        }
        let mut k: usize = 0;
        while k < bc.len()
            invariant
                k <= bc.len(),
                f.0 < self.functions.len(),
                self.code@ == old(self).code@ + bc@.take(k as int),
                self.types == old(self).types,
                self.is_verbose == old(self).is_verbose,
                self.core_crate == old(self).core_crate,
                self.functions == old(self).functions,
                self.constants == old(self).constants,
                self.mono == old(self).mono,
                self.closure_mono == old(self).closure_mono,
                self.const_values == old(self).const_values,
                self.vtables == old(self).vtables,
                self.depth_limit == old(self).depth_limit,
                self.step_limit == old(self).step_limit,
            decreases bc.len() - k,
        {
            self.code.push(bc[k]);
            proof {
                assert(self.code@ =~= old(self).code@ + bc@.take(k + 1));
            }
            k += 1;
        }
        proof {
            assert(bc@.take(bc.len() as int) =~= bc@);
        }
        func.bytecode = Some(Span { start: start as u32, len: bc.len() as u32 });
        self.functions.set(f.0 as usize, func);
        Ok(())
    }
}

} // verus!
