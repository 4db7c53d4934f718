//! Addresses as the Admin API returns them.
use vstd::prelude::*;

use crate::domain::address::Address;
use crate::domain::error::DomainError;

verus! {

#[derive(Debug)]
pub struct AddressNode {
    pub address1: Option<String>,
    pub address2: Option<String>,
    pub city: Option<String>,
    pub coordinates_validated: bool,
    pub country: Option<String>,
    pub first_name: Option<String>,
    pub last_name: Option<String>,
    pub province: Option<String>,
    pub zip: Option<String>,
    pub phone: Option<String>,
}

/// The domain address holds every part of the node unchanged.
pub open spec fn address_of_node(node: AddressNode) -> Address {
    Address {
        address1: node.address1,
        address2: node.address2,
        city: node.city,
        coordinates_validated: node.coordinates_validated,
        country: node.country,
        first_name: node.first_name,
        last_name: node.last_name,
        province: node.province,
        zip: node.zip,
        phone: node.phone,
    }
}

impl AddressNode {
    pub fn to_domain(self) -> (r: Result<Address, DomainError>)
        ensures
            r == Ok::<Address, DomainError>(address_of_node(self)),
    {
        Address::new(
            self.address1,
            self.address2,
            self.city,
            self.coordinates_validated,
            self.country,
            self.first_name,
            self.last_name,
            self.province,
            self.zip,
            self.phone,
        )
    }
}

} // verus!
