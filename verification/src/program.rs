//! The program as the provider of intermediate representation hands it
//! over: the items of each crate, and the closures.

use vstd::prelude::*;
use std::sync::Arc;
use crate::closure::Closure;
use crate::error::CompileError;
use crate::ids::{CrateId, ItemId, ItemRef};
use crate::ir::IRFunction;
use crate::items::{AdtInfo, Item, ItemPath};

verus! {

/// The items of one crate, by index.
pub struct CrateItems<'vm> {
    pub crate_id: CrateId,
    pub items: Vec<Item<'vm>>,
}

impl<'vm> CrateItems<'vm> {
    pub fn new(crate_id: CrateId) -> (r: Self)
        ensures
            r.crate_id == crate_id,
            r.items@.len() == 0,
    {
        CrateItems { crate_id, items: Vec::new() }
    }

    pub open spec fn has_item(&self, id: ItemId) -> bool {
        id.0 < self.items@.len()
    }

    /// The least index at or after `from` of an item that can be looked up
    /// and has the path; the number of items if there is none.
    pub open spec fn first_with_path(&self, path: ItemPath, from: int) -> int
        decreases self.items@.len() - from,
    {
        if from < 0 || from >= self.items@.len() {
            self.items@.len() as int
        } else if self.items@[from].path.equals(path) {
            from
        } else {
            self.first_with_path(path, from + 1)
        }
    }

    /// Lookup by identity.
    pub fn item_by_id(&self, id: ItemId) -> (r: Result<&Item<'vm>, CompileError>)
        ensures
            match r {
                Ok(item) => self.has_item(id) && *item == self.items@[id.0 as int],
                Err(e) => !self.has_item(id) && e == CompileError::ItemMismatch,
            },
    {
        if (id.0 as usize) < self.items.len() {
            Ok(&self.items[id.0 as usize])
        } else {
            Err(CompileError::ItemMismatch)
        }
    }

    /// Lookup by path. Paths of the debug-only namespace find nothing.
    pub fn item_by_path(&self, path: &ItemPath) -> (r: Option<&Item<'vm>>)
        ensures
            match r {
                Some(item) => path.0 != crate::items::NameSpace::DebugOnly && self.first_with_path(
                    *path,
                    0,
                ) < self.items@.len() && *item == self.items@[self.first_with_path(*path, 0)],
                None => path.0 == crate::items::NameSpace::DebugOnly || self.first_with_path(
                    *path,
                    0,
                ) == self.items@.len(),
            },
    {
        if !path.can_lookup() {
            return None;
        }
        let mut i: usize = 0;
        while i < self.items.len()
            invariant
                i <= self.items.len(),
                path.0 != crate::items::NameSpace::DebugOnly,
                self.first_with_path(*path, 0) == self.first_with_path(*path, i as int),
            decreases self.items.len() - i,
        {
            if self.items[i].path.same(path) {
                return Some(&self.items[i]);
            }
            i += 1;
        }
        None
    }

    /// The body of a function or constant.
    pub fn build_ir(&self, id: ItemId) -> (r: Result<Arc<IRFunction>, CompileError>)
        ensures
            r == (if !self.has_item(id) || !self.items@[id.0 as int].has_body() {
                Err::<Arc<IRFunction>, CompileError>(CompileError::ItemMismatch)
            } else {
                match self.items@[id.0 as int].stored_ir() {
                    Some(ir) => Ok(ir),
                    None => Err(CompileError::MissingIr),
                }
            }),
    {
        let item = self.item_by_id(id)?;
        match item.raw_ir()? {
            Some(ir) => Ok(ir),
            None => Err(CompileError::MissingIr),
        }
    }

    pub open spec fn adt_at(&self, id: ItemId) -> Result<AdtInfo, CompileError> {
        if !self.has_item(id) {
            Err(CompileError::ItemMismatch)
        } else {
            match self.items@[id.0 as int].kind {
                crate::items::ItemKind::Adt { info } => match info {
                    Some(a) => Ok(a),
                    None => Err(CompileError::MissingIr),
                },
                _ => Err(CompileError::ItemMismatch),
            }
        }
    }

    /// The variants and fields of a struct or enum.
    pub fn build_adt(&self, id: ItemId) -> (r: Result<&AdtInfo, CompileError>)
        ensures
            match r {
                Ok(a) => self.adt_at(id) == Ok::<AdtInfo, CompileError>(*a),
                Err(e) => self.adt_at(id) == Err::<AdtInfo, CompileError>(e),
            },
    {
        let item = self.item_by_id(id)?;
        item.adt_info()
    }

    /// Appends an item and returns its index; `None` when the indices are used up.
    pub fn add(&mut self, path: ItemPath<'vm>, kind: crate::items::ItemKind) -> (r: Option<
        ItemId,
    >)
        ensures
            final(self).crate_id == old(self).crate_id,
            match r {
                Some(id) => id.0 == old(self).items@.len() && final(self).items@ == old(self).items@.push(
                    Item { crate_id: old(self).crate_id, item_id: id, path, kind },
                ),
                None => old(self).items@.len() >= u32::MAX && final(self).items@ == old(self).items@,
            },
    {
        let n: usize = self.items.len();
        if n >= u32::MAX as usize {
            return None;
        }
        let id = ItemId(n as u32);
        self.items.push(Item::new(self.crate_id, id, path, kind));
        Some(id)
    }
}

/// Everything that compilation and execution read but never change.
pub struct Program<'vm> {
    pub crates: Vec<CrateItems<'vm>>,
    pub closures: Vec<Closure>,
}

impl<'vm> Program<'vm> {
    pub fn new() -> (r: Self)
        ensures
            r.crates@.len() == 0,
            r.closures@.len() == 0,
    {
        Program { crates: Vec::new(), closures: Vec::new() }
    }

    pub open spec fn has_item(&self, r: ItemRef) -> bool {
        r.crate_id.0 < self.crates@.len() && self.crates@[r.crate_id.0 as int].has_item(
            r.item_id,
        )
    }

    pub open spec fn item_at(&self, r: ItemRef) -> Item<'vm> {
        self.crates@[r.crate_id.0 as int].items@[r.item_id.0 as int]
    }

    /// The items of a crate.
    pub fn crate_provider(&self, crate_id: CrateId) -> (r: Result<&CrateItems<'vm>, CompileError>)
        ensures
            match r {
                Ok(c) => crate_id.0 < self.crates@.len() && *c == self.crates@[crate_id.0 as int],
                Err(e) => crate_id.0 >= self.crates@.len() && e == CompileError::ItemMismatch,
            },
    {
        if (crate_id.0 as usize) < self.crates.len() {
            Ok(&self.crates[crate_id.0 as usize])
        } else {
            Err(CompileError::ItemMismatch)
        }
    }

    /// The item with the given identity.
    pub fn item(&self, r: ItemRef) -> (res: Result<&Item<'vm>, CompileError>)
        ensures
            match res {
                Ok(item) => self.has_item(r) && *item == self.item_at(r),
                Err(e) => !self.has_item(r) && e == CompileError::ItemMismatch,
            },
    {
        let c = self.crate_provider(r.crate_id)?;
        c.item_by_id(r.item_id)
    }

    pub open spec fn adt_of(&self, r: ItemRef) -> Result<AdtInfo, CompileError> {
        if !self.has_item(r) {
            Err(CompileError::ItemMismatch)
        } else {
            match self.item_at(r).kind {
                crate::items::ItemKind::Adt { info } => match info {
                    Some(a) => Ok(a),
                    None => Err(CompileError::MissingIr),
                },
                _ => Err(CompileError::ItemMismatch),
            }
        }
    }

    /// The variants and fields of the struct or enum with the given identity.
    pub fn adt_info(&self, r: ItemRef) -> (res: Result<&AdtInfo, CompileError>)
        ensures
            match res {
                Ok(a) => self.adt_of(r) == Ok::<AdtInfo, CompileError>(*a),
                Err(e) => self.adt_of(r) == Err::<AdtInfo, CompileError>(e),
            },
    {
        let item = self.item(r)?;
        item.adt_info()
    }

    /// Adds a crate without items and returns its id; `None` when the ids are used up.
    pub fn add_crate(&mut self) -> (r: Option<CrateId>)
        ensures
            final(self).closures == old(self).closures,
            match r {
                Some(id) => id.0 == old(self).crates@.len() && final(self).crates@.len() == old(self).crates@.len() + 1 && final(self).crates@.take(id.0 as int) == old(self).crates@ && final(self).crates@[id.0 as int].crate_id == id && final(self).crates@[id.0 as int].items@.len() == 0,
                None => old(self).crates@.len() >= u32::MAX && final(self).crates@ == old(self).crates@,
            },
    {
        let n: usize = self.crates.len();
        if n >= u32::MAX as usize {
            return None;
        }
        let id = CrateId(n as u32);
        self.crates.push(CrateItems::new(id));
        proof {
            assert(self.crates@.take(n as int) =~= old(self).crates@);
        }
        Some(id)
    }

    /// Adds a closure without a body and returns its number.
    pub fn alloc_closure(&mut self) -> (r: Option<u32>)
        ensures
            final(self).crates == old(self).crates,
            match r {
                Some(n) => n == old(self).closures@.len() && final(self).closures@.len() == n + 1
                    && final(self).closures@.take(n as int) == old(self).closures@ && final(self).closures@[n as int].unique_id == n && final(self).closures@[n as int].ir_base
                    is None,
                None => old(self).closures@.len() >= u32::MAX && final(self).closures@ == old(self).closures@,
            },
    {
        let n: usize = self.closures.len();
        if n >= u32::MAX as usize {
            return None;
        }
        self.closures.push(Closure::new(n as u32));
        proof {
            assert(self.closures@.take(n as int) =~= old(self).closures@);
        }
        Some(n as u32)
    }
}

} // verus!
