//! Addresses as mutations take them.
use vstd::prelude::*;
use vstd::std_specs::convert::FromSpecImpl;

use crate::domain::address::Address;

verus! {

#[derive(Debug)]
pub struct AddressInput {
    pub address1: Option<String>,
    pub address2: Option<String>,
    pub city: Option<String>,
    pub country: Option<String>,
    pub first_name: Option<String>,
    pub last_name: Option<String>,
    pub province: Option<String>,
    pub zip: Option<String>,
    pub phone: Option<String>,
}

impl From<Address> for AddressInput {
    fn from(address: Address) -> (r: Self)
        ensures
            r.address1 == address.address1,
            r.address2 == address.address2,
            r.city == address.city,
            r.country == address.country,
            r.first_name == address.first_name,
            r.last_name == address.last_name,
            r.province == address.province,
            r.zip == address.zip,
            r.phone == address.phone,
    {
        AddressInput {
            address1: address.address1,
            address2: address.address2,
            city: address.city,
            country: address.country,
            first_name: address.first_name,
            last_name: address.last_name,
            province: address.province,
            zip: address.zip,
            phone: address.phone,
        }
    }
}

/// The address input for an address: every part but the validation flag, unchanged.
pub open spec fn address_input_from(address: Address) -> AddressInput {
    AddressInput {
        address1: address.address1,
        address2: address.address2,
        city: address.city,
        country: address.country,
        first_name: address.first_name,
        last_name: address.last_name,
        province: address.province,
        zip: address.zip,
        phone: address.phone,
    }
}

impl FromSpecImpl<Address> for AddressInput {
    open spec fn obeys_from_spec() -> bool {
        true
    }

    open spec fn from_spec(address: Address) -> AddressInput {
        address_input_from(address)
    }
}

/// The address input carries every part of the address under the same name: the city as
/// the city, the province as the province, and so on for each field.
pub proof fn lemma_address_input_keeps_fields(address: Address)
    ensures
        address_input_from(address).address1 == address.address1,
        address_input_from(address).address2 == address.address2,
        address_input_from(address).city == address.city,
        address_input_from(address).country == address.country,
        address_input_from(address).first_name == address.first_name,
        address_input_from(address).last_name == address.last_name,
        address_input_from(address).province == address.province,
        address_input_from(address).zip == address.zip,
        address_input_from(address).phone == address.phone,
{
}

} // verus!
