//! The stock ledger: the rule that an order may never take more stock than is
//! recorded, and the conditional write that applies the decrement.

use vstd::prelude::*;

verus! {

/// Why an order could not be placed.
#[derive(Debug, Clone, Copy, PartialEq, Eq, Structural)]
pub enum OrderError {
    /// The item does not exist in the store.
    ItemNotFound,
    /// More units were asked for than the store records.
    InsufficientStock,
    /// The storage layer failed before anything was written.
    PersistenceError,
    /// An order record exists that no stock decrement matches.
    PartialFailure,
}

/// The stock record of one item, as read from the store.
#[derive(Debug, Clone)]
pub struct ItemStock {
    pub item_id: String,
    pub quantity_available: u64,
    /// Version marker assigned by the store; only ever compared for equality.
    pub revision: String,
}

/// Mathematical value of an [`ItemStock`].
pub struct ItemStockView {
    pub item_id: Seq<char>,
    pub quantity_available: nat,
    pub revision: Seq<char>,
}

impl View for ItemStock {
    type V = ItemStockView;

    open spec fn view(&self) -> ItemStockView {
        ItemStockView {
            item_id: self.item_id@,
            quantity_available: self.quantity_available as nat,
            revision: self.revision@,
        }
    }
}

/// The new quantity written to an item.
#[derive(Debug, Clone, Copy, PartialEq, Eq, Structural)]
pub struct ItemQuantityUpdate {
    pub quantity: u64,
}

/// A conditional write: set the item's quantity, but only while the item still
/// carries `expected_revision`.
#[derive(Debug, Clone)]
pub struct StockUpdate {
    pub item_id: String,
    pub expected_revision: String,
    pub patch: ItemQuantityUpdate,
}

/// Mathematical value of a [`StockUpdate`].
pub struct StockUpdateView {
    pub item_id: Seq<char>,
    pub expected_revision: Seq<char>,
    pub new_quantity: nat,
}

impl View for StockUpdate {
    type V = StockUpdateView;

    open spec fn view(&self) -> StockUpdateView {
        StockUpdateView {
            item_id: self.item_id@,
            expected_revision: self.expected_revision@,
            new_quantity: self.patch.quantity as nat,
        }
    }
}

/// What the ledger decides for `quantity` units against `stock`: the
/// conditional write that takes them, or the refusal.
pub open spec fn spec_reserve(stock: ItemStockView, quantity: nat) -> Result<
    StockUpdateView,
    OrderError,
> {
    if quantity > stock.quantity_available {
        Err(OrderError::InsufficientStock)
    } else {
        Ok(
            StockUpdateView {
                item_id: stock.item_id,
                expected_revision: stock.revision,
                new_quantity: (stock.quantity_available - quantity) as nat,
            },
        )
    }
}

/// Views of a ledger decision.
pub open spec fn reserve_view(r: Result<StockUpdate, OrderError>) -> Result<
    StockUpdateView,
    OrderError,
> {
    match r {
        Ok(u) => Ok(u@),
        Err(e) => Err(e),
    }
}

/// Decides whether `quantity` units can be taken from `stock`, and if so
/// produces the conditional write that takes exactly that many.
pub fn reserve(stock: &ItemStock, quantity: u64) -> (r: Result<StockUpdate, OrderError>)
    ensures
        reserve_view(r) == spec_reserve(stock@, quantity as nat),
{
    if quantity > stock.quantity_available {
        Err(OrderError::InsufficientStock)
    } else {
        Ok(
            StockUpdate {
                item_id: stock.item_id.clone(),
                expected_revision: stock.revision.clone(),
                patch: ItemQuantityUpdate { quantity: stock.quantity_available - quantity },
            },
        )
    }
}

/// The quantity that a signed number stands for: itself, unless it is
/// negative, which is no quantity.
pub open spec fn spec_quantity(raw: i64) -> Option<u64> {
    if raw < 0 {
        None
    } else {
        Some(raw as u64)
    }
}

/// Reads a quantity from a signed number, as requests and stored documents
/// carry it. A negative number is no quantity.
pub fn quantity_from(raw: i64) -> (quantity: Option<u64>)
    ensures
        quantity == spec_quantity(raw),
{
    if raw < 0 {
        None
    } else {
        Some(raw as u64)
    }
}

} // verus!
