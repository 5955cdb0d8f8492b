//! Paths of items: interning of their text, and the paths that the
//! definition paths of a front end stand for.
//!
//! The text of paths lives in a `colosseum::sync::Arena`, and the texts
//! that are known are kept in an `ahash::AHashSet`. Verus does not look
//! inside either: what the set holds is named by an uninterpreted
//! function, and the operations used are small wrappers whose contracts
//! are believed, not proved.

use vstd::prelude::*;
use vstd::string::StringExecFns;
use ahash::AHashSet;
use colosseum::sync::Arena;
use crate::error::CompileError;
use crate::items::{ItemPath, NameSpace};

verus! {

/// `ahash::AHashSet`, carried as an opaque value: what it holds is known
/// only through `path_set_entries`.
#[verifier::external_type_specification]
#[verifier::external_body]
#[verifier::reject_recursive_types(T)]
#[verifier::reject_recursive_types(S)]
pub struct ExAHashSet<T, S>(AHashSet<T, S>);

/// `colosseum::sync::Arena`, carried as an opaque value. Nothing is stated
/// of what it holds.
#[verifier::external_type_specification]
#[verifier::external_body]
#[verifier::reject_recursive_types(T)]
pub struct ExArena<T>(Arena<T>);

/// The texts that a set of paths holds, as character sequences.
pub uninterp spec fn path_set_entries(s: AHashSet<&str>) -> Set<Seq<char>>;

/// `AHashSet::new`: a set without entries.
#[verifier::external_body]
pub(crate) fn path_set_new<'vm>() -> (s: AHashSet<&'vm str>)
    ensures
        path_set_entries(s) =~= Set::empty(),
{
    AHashSet::new()
}

/// `HashSet::get`, which `AHashSet` derefs to: the entry that equals the
/// text, if the set holds one.
#[verifier::external_body]
pub(crate) fn path_set_get<'vm>(s: &AHashSet<&'vm str>, path: &str) -> (r: Option<&'vm str>)
    ensures
        match r {
            Some(x) => x@ == path@ && path_set_entries(*s).contains(path@),
            None => !path_set_entries(*s).contains(path@),
        },
{
    s.get(path).copied()
}

/// `HashSet::insert`, which `AHashSet` derefs to: afterwards the set holds
/// the text beside what it held.
#[verifier::external_body]
pub(crate) fn path_set_insert<'vm>(s: &mut AHashSet<&'vm str>, path: &'vm str)
    ensures
        path_set_entries(*final(s)) == path_set_entries(*old(s)).insert(path@),
{
    s.insert(path);
}

/// `Arena::alloc`: the string moves into the arena, and a reference to it
/// that lives as long as the arena comes back.
#[verifier::external_body]
pub(crate) fn arena_alloc<'vm>(arena: &'vm Arena<String>, text: String) -> (r: &'vm str)
    ensures
        r@ == text@,
{
    arena.alloc(text).as_str()
}

/// Hands out one shared text for each distinct path.
pub struct PathInterner<'vm> {
    pub arena: &'vm Arena<String>,
    pub known: AHashSet<&'vm str>,
}

impl<'vm> PathInterner<'vm> {
    pub fn new(arena: &'vm Arena<String>) -> (r: Self)
        ensures
            path_set_entries(r.known) =~= Set::empty(),
    {
        PathInterner { arena, known: path_set_new() }
    }

    /// The shared text that equals `path`. Afterwards the text is known.
    pub fn alloc_path(&mut self, path: &str) -> (r: &'vm str)
        ensures
            r@ == path@,
            path_set_entries(final(self).known) == path_set_entries(old(self).known).insert(
                path@,
            ),
    {
        match path_set_get(&self.known, path) {
            Some(existing) => {
                proof {
                    assert(path_set_entries(self.known).insert(path@) =~= path_set_entries(
                        self.known,
                    ));
                }
                existing
            },
            None => {
                let res = arena_alloc(self.arena, path.to_owned());
                path_set_insert(&mut self.known, res);
                res
            },
        }
    }
}

/// One element of a definition path as a front end gives it.
pub enum DefPathData {
    ValueNs(String),
    TypeNs(String),
    Impl,
    ClosureExpr,
    Ctor,
    ForeignMod,
    /// Any other element; no path can be made of it.
    Other,
}

/// The text that the elements from index `i` on add to `acc`: `::` and the
/// name for each named element, `::{impl}` and `::{closure}` for
/// implementations and closures, nothing for constructors and foreign
/// modules.
pub open spec fn def_text(elems: Seq<DefPathData>, i: int, acc: Seq<char>) -> Result<
    Seq<char>,
    CompileError,
>
    decreases elems.len() - i,
{
    if i < 0 || i >= elems.len() {
        Ok(acc)
    } else {
        match elems[i] {
            DefPathData::ValueNs(s) => def_text(elems, i + 1, acc + "::"@ + s@),
            DefPathData::TypeNs(s) => def_text(elems, i + 1, acc + "::"@ + s@),
            DefPathData::Impl => def_text(elems, i + 1, acc + "::{impl}"@),
            DefPathData::ClosureExpr => def_text(elems, i + 1, acc + "::{closure}"@),
            DefPathData::Ctor => def_text(elems, i + 1, acc),
            DefPathData::ForeignMod => def_text(elems, i + 1, acc),
            DefPathData::Other => Err(CompileError::Unsupported),
        }
    }
}

/// Whether an element from index `i` on makes the path one that serves
/// for messages only: an implementation, a closure, or the name `_`.
pub open spec fn def_is_debug(elems: Seq<DefPathData>, i: int) -> bool
    decreases elems.len() - i,
{
    if i < 0 || i >= elems.len() {
        false
    } else {
        (match elems[i] {
            DefPathData::ValueNs(s) => s@ == "_"@,
            DefPathData::TypeNs(s) => s@ == "_"@,
            DefPathData::Impl => true,
            DefPathData::ClosureExpr => true,
            _ => false,
        }) || def_is_debug(elems, i + 1)
    }
}

/// The namespace of a definition path: that of its last element, unless
/// the path serves for messages only.
pub open spec fn def_namespace(elems: Seq<DefPathData>) -> Result<NameSpace, CompileError> {
    if def_text(elems, 0, Seq::empty()) is Err {
        Err(CompileError::Unsupported)
    } else if def_is_debug(elems, 0) {
        Ok(NameSpace::DebugOnly)
    } else if elems.len() == 0 {
        Err(CompileError::Unsupported)
    } else {
        match elems[elems.len() - 1] {
            DefPathData::ValueNs(_) => Ok(NameSpace::Value),
            DefPathData::TypeNs(_) => Ok(NameSpace::Type),
            DefPathData::Ctor => Ok(NameSpace::Value),
            _ => Err(CompileError::Unsupported),
        }
    }
}

/// The namespace and name that the last element of a definition path
/// gives on its own.
pub open spec fn def_ident(elems: Seq<DefPathData>) -> Result<(NameSpace, Seq<char>), CompileError> {
    if elems.len() == 0 {
        Err(CompileError::Unsupported)
    } else {
        match elems[elems.len() - 1] {
            DefPathData::ValueNs(s) => Ok((NameSpace::Value, s@)),
            DefPathData::TypeNs(s) => Ok((NameSpace::Type, s@)),
            _ => Err(CompileError::Unsupported),
        }
    }
}

fn is_underscore(s: &String) -> (r: bool)
    ensures
        r == (s@ == "_"@),
{
    s.as_str().to_owned() == "_".to_owned()
}

/// The path that a definition path stands for.
pub fn path_from_def<'vm>(in_path: &Vec<DefPathData>, interner: &mut PathInterner<'vm>) -> (r:
    Result<ItemPath<'vm>, CompileError>)
    ensures
        match r {
            Ok(p) => def_namespace(in_path@) == Ok::<NameSpace, CompileError>(p.0) && def_text(
                in_path@,
                0,
                Seq::empty(),
            ) == Ok::<Seq<char>, CompileError>(p.1@) && path_set_entries(final(interner).known)
                == path_set_entries(old(interner).known).insert(p.1@),
            Err(e) => e == CompileError::Unsupported && def_namespace(in_path@) is Err
                && final(interner).known == old(interner).known,
        },
{
    let mut result = String::new();
    let mut is_debug = false;
    let mut i: usize = 0;
    while i < in_path.len()
        invariant
            i <= in_path.len(),
            def_text(in_path@, i as int, result@) == def_text(in_path@, 0, Seq::empty()),
            (is_debug || def_is_debug(in_path@, i as int)) == def_is_debug(in_path@, 0),
            interner.known == old(interner).known,
        decreases in_path.len() - i,
    {
        match &in_path[i] {
            DefPathData::ValueNs(sym) | DefPathData::TypeNs(sym) => {
                if is_underscore(sym) {
                    is_debug = true;
                }
                result.append("::");
                result.append(sym.as_str());
            },
            DefPathData::Impl => {
                result.append("::{impl}");
                is_debug = true;
            },
            DefPathData::ClosureExpr => {
                result.append("::{closure}");
                is_debug = true;
            },
            DefPathData::Ctor => {},
            DefPathData::ForeignMod => {},
            DefPathData::Other => {
                return Err(CompileError::Unsupported);
            },
        }
        i += 1;
    }
    let ns = if is_debug {
        NameSpace::DebugOnly
    } else if in_path.len() == 0 {
        return Err(CompileError::Unsupported);
    } else {
        match &in_path[in_path.len() - 1] {
            DefPathData::ValueNs(_) => NameSpace::Value,
            DefPathData::TypeNs(_) => NameSpace::Type,
            DefPathData::Ctor => NameSpace::Value,
            _ => {
                return Err(CompileError::Unsupported);
            },
        }
    };
    let text = interner.alloc_path(result.as_str());
    Ok(ItemPath(ns, text))
}

/// The single identifier that the last element of a definition path gives.
pub fn ident_from_def<'vm>(in_path: &Vec<DefPathData>, interner: &mut PathInterner<'vm>) -> (r:
    Result<ItemPath<'vm>, CompileError>)
    ensures
        match r {
            Ok(p) => def_ident(in_path@) == Ok::<(NameSpace, Seq<char>), CompileError>(
                (p.0, p.1@),
            ) && path_set_entries(final(interner).known) == path_set_entries(
                old(interner).known,
            ).insert(p.1@),
            Err(e) => e == CompileError::Unsupported && def_ident(in_path@) is Err && final(interner).known == old(interner).known,
        },
{
    if in_path.len() == 0 {
        return Err(CompileError::Unsupported);
    }
    match &in_path[in_path.len() - 1] {
        DefPathData::ValueNs(sym) => {
            let text = interner.alloc_path(sym.as_str());
            Ok(ItemPath(NameSpace::Value, text))
        },
        DefPathData::TypeNs(sym) => {
            let text = interner.alloc_path(sym.as_str());
            Ok(ItemPath(NameSpace::Type, text))
        },
        _ => Err(CompileError::Unsupported),
    }
}

} // verus!
