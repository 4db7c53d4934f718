//! Inventory items: the stock-keeping side of a product variant.
use vstd::prelude::*;

use crate::domain::error::DomainError;
use crate::domain::time::Timestamp;

verus! {

#[derive(Clone, Debug)]
pub struct InventoryItem {
    pub id: String,
    pub variant_id: String,
    pub requires_shipping: bool,
    pub is_tracked: bool,
    pub created_at: Timestamp,
    pub updated_at: Timestamp,
}

impl InventoryItem {
    /// An inventory item; its id and variant id must not be empty.
    pub fn new(
        id: String,
        variant_id: String,
        requires_shipping: bool,
        is_tracked: bool,
        created_at: Timestamp,
        updated_at: Timestamp,
    ) -> (r: Result<InventoryItem, DomainError>)
        ensures
            (id@.len() == 0 || variant_id@.len() == 0) ==> r == Err::<InventoryItem, DomainError>(
                DomainError::ValidationError,
            ),
            (id@.len() > 0 && variant_id@.len() > 0) ==> r == Ok::<InventoryItem, DomainError>(
                InventoryItem { id, variant_id, requires_shipping, is_tracked, created_at, updated_at },
            ),
    {
        if id.as_str().unicode_len() == 0 || variant_id.as_str().unicode_len() == 0 {
            return Err(DomainError::ValidationError);
        }
        Ok(InventoryItem { id, variant_id, requires_shipping, is_tracked, created_at, updated_at })
    }
}

} // verus!
