//! Postal addresses.
use vstd::prelude::*;

use crate::domain::error::DomainError;

verus! {

#[derive(Clone, Debug)]
pub struct Address {
    pub address1: Option<String>,
    pub address2: Option<String>,
    pub city: Option<String>,
    pub coordinates_validated: bool,
    pub country: Option<String>,
    pub first_name: Option<String>,
    pub last_name: Option<String>,
    pub province: Option<String>,
    pub zip: Option<String>,
    pub phone: Option<String>,
}

impl Address {
    /// An address; every part is optional, so every combination is accepted.
    pub fn new(
        address1: Option<String>,
        address2: Option<String>,
        city: Option<String>,
        coordinates_validated: bool,
        country: Option<String>,
        first_name: Option<String>,
        last_name: Option<String>,
        province: Option<String>,
        zip: Option<String>,
        phone: Option<String>,
    ) -> (r: Result<Address, DomainError>)
        ensures
            r == Ok::<Address, DomainError>(
                Address {
                    address1,
                    address2,
                    city,
                    coordinates_validated,
                    country,
                    first_name,
                    last_name,
                    province,
                    zip,
                    phone,
                },
            ),
    {
        Ok(
            Address {
                address1,
                address2,
                city,
                coordinates_validated,
                country,
                first_name,
                last_name,
                province,
                zip,
                phone,
            },
        )
    }
}

} // verus!
