use vstd::prelude::*;

verus! {

/// Number of wands an actor carries.
pub const MAX_WANDS: usize = 4;

/// Number of spell slots in one wand.
pub const MAX_SPELLS_IN_WAND: usize = 8;

/// Number of item rows in the inventory.
pub const MAX_ITEMS_IN_INVENTORY_ROW: usize = 8;

/// Number of item columns in the inventory.
pub const MAX_ITEMS_IN_INVENTORY_COLUMN: usize = 8;

/// Number of item cells in the inventory.
pub const MAX_ITEMS_IN_INVENTORY: usize = 64;

} // verus!
