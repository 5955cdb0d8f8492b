//! Identities of crates and items.

use vstd::prelude::*;

verus! {

/// Index of a crate among the loaded providers.
#[derive(PartialEq, Eq, Clone, Copy, Debug, Structural)]
pub struct CrateId(pub u32);

impl CrateId {
    pub fn new(n: u32) -> (r: Self)
        ensures
            r == CrateId(n),
    {
        Self(n)
    }

    pub fn index(&self) -> (r: usize)
        ensures
            r == self.0,
    {
        self.0 as usize
    }
}

/// Index of an item within its crate.
#[derive(PartialEq, Eq, Clone, Copy, Debug, Structural)]
pub struct ItemId(pub u32);

impl ItemId {
    pub fn new(n: u32) -> (r: Self)
        ensures
            r == ItemId(n),
    {
        Self(n)
    }

    pub fn index(&self) -> (r: usize)
        ensures
            r == self.0,
    {
        self.0 as usize
    }
}

/// The stable identity of an item: its crate and its index there.
#[derive(PartialEq, Eq, Clone, Copy, Debug, Structural)]
pub struct ItemRef {
    pub crate_id: CrateId,
    pub item_id: ItemId,
}

} // verus!
