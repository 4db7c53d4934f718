//! Inventory levels: the quantities of an inventory item at a location.
use vstd::prelude::*;

use crate::domain::error::DomainError;

verus! {

#[derive(Clone, Copy, Debug, PartialEq, Eq, Structural)]
pub enum InventoryType {
    Available,
    Incoming,
    Committed,
    Damaged,
    SafetyStock,
    Reserved,
}

#[derive(Clone, Copy, Debug, PartialEq, Eq, Structural)]
pub struct Quantity {
    pub quantity: u32,
    pub inventory_type: InventoryType,
}

impl Quantity {
    /// A quantity of one inventory type; every value is accepted.
    pub fn new(quantity: u32, inventory_type: InventoryType) -> (r: Result<Quantity, DomainError>)
        ensures
            r == Ok::<Quantity, DomainError>(Quantity { quantity, inventory_type }),
    {
        Ok(Quantity { quantity, inventory_type })
    }
}

#[derive(Clone, Debug)]
pub struct InventoryLevel {
    pub id: String,
    pub inventory_item_id: String,
    pub location_id: String,
    pub quantities: Vec<Quantity>,
}

impl InventoryLevel {
    /// An inventory level; its id, item id and location id must not be empty.
    pub fn new(id: String, inventory_item_id: String, location_id: String, quantities: Vec<Quantity>) -> (r: Result<
        InventoryLevel,
        DomainError,
    >)
        ensures
            (id@.len() == 0 || inventory_item_id@.len() == 0 || location_id@.len() == 0) ==> r == Err::<
                InventoryLevel,
                DomainError,
            >(DomainError::ValidationError),
            (id@.len() > 0 && inventory_item_id@.len() > 0 && location_id@.len() > 0) ==> r == Ok::<
                InventoryLevel,
                DomainError,
            >(InventoryLevel { id, inventory_item_id, location_id, quantities }),
    {
        if id.as_str().unicode_len() == 0 || inventory_item_id.as_str().unicode_len() == 0
            || location_id.as_str().unicode_len() == 0 {
            return Err(DomainError::ValidationError);
        }
        Ok(InventoryLevel { id, inventory_item_id, location_id, quantities })
    }
}

} // verus!
