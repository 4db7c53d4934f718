//! Customers of the shop.
use vstd::prelude::*;

use crate::domain::address::Address;
use crate::domain::email::Email;
use crate::domain::error::DomainError;
use crate::domain::media::Image;
use crate::domain::phone::Phone;
use crate::domain::time::Timestamp;

verus! {

pub type Id = String;

#[derive(Clone, Copy, Debug, PartialEq, Eq, Structural)]
pub enum CustomerStatus {
    Active,
    Inactive,
}

#[derive(Clone, Debug)]
pub struct Customer {
    pub id: Id,
    pub user_id: String,
    pub addresses: Vec<Address>,
    pub can_delete: bool,
    pub default_address: Option<Address>,
    pub display_name: String,
    pub email: Option<Email>,
    pub first_name: Option<String>,
    pub last_name: Option<String>,
    pub image: Option<Image>,
    pub phone: Option<Phone>,
    pub note: Option<String>,
    pub status: CustomerStatus,
    pub verified_email: bool,
    pub created_at: Timestamp,
    pub updated_at: Timestamp,
}

impl Customer {
    /// A customer; its id must not be empty.
    pub fn new(
        id: Id,
        user_id: String,
        addresses: Vec<Address>,
        can_delete: bool,
        default_address: Option<Address>,
        display_name: String,
        email: Option<Email>,
        first_name: Option<String>,
        last_name: Option<String>,
        image: Option<Image>,
        phone: Option<Phone>,
        note: Option<String>,
        status: CustomerStatus,
        verified_email: bool,
        created_at: Timestamp,
        updated_at: Timestamp,
    ) -> (r: Result<Customer, DomainError>)
        ensures
            id@.len() == 0 ==> r == Err::<Customer, DomainError>(DomainError::ValidationError),
            id@.len() > 0 ==> r == Ok::<Customer, DomainError>(
                Customer {
                    id,
                    user_id,
                    addresses,
                    can_delete,
                    default_address,
                    display_name,
                    email,
                    first_name,
                    last_name,
                    image,
                    phone,
                    note,
                    status,
                    verified_email,
                    created_at,
                    updated_at,
                },
            ),
    {
        if id.as_str().unicode_len() == 0 {
            return Err(DomainError::ValidationError);
        }
        Ok(
            Customer {
                id,
                user_id,
                addresses,
                can_delete,
                default_address,
                display_name,
                email,
                first_name,
                last_name,
                image,
                phone,
                note,
                status,
                verified_email,
                created_at,
                updated_at,
            },
        )
    }
}

} // verus!
