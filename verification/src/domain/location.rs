//! Locations where inventory is stocked.
use vstd::prelude::*;

use crate::domain::address::Address;
use crate::domain::error::DomainError;

verus! {

pub type Id = String;

#[derive(Clone, Debug)]
pub struct Location {
    pub id: Id,
    pub name: String,
    pub is_active: bool,
    pub fulfills_online_orders: bool,
    pub address: Address,
    pub suggested_addresses: Vec<Address>,
}

impl Location {
    /// A location; its id must not be empty.
    pub fn new(
        id: Id,
        name: String,
        is_active: bool,
        fulfills_online_orders: bool,
        address: Address,
        suggested_addresses: Vec<Address>,
    ) -> (r: Result<Location, DomainError>)
        ensures
            id@.len() == 0 ==> r == Err::<Location, DomainError>(DomainError::ValidationError),
            id@.len() > 0 ==> r == Ok::<Location, DomainError>(
                Location { id, name, is_active, fulfills_online_orders, address, suggested_addresses },
            ),
    {
        if id.as_str().unicode_len() == 0 {
            return Err(DomainError::ValidationError);
        }
        Ok(Location { id, name, is_active, fulfills_online_orders, address, suggested_addresses })
    }
}

} // verus!
