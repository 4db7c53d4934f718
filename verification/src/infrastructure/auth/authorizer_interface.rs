//! The authorization interface of the infrastructure layer.
use vstd::prelude::*;

use crate::domain::error::DomainError;
use crate::infrastructure::auth::idp_user::IdpUser;

verus! {

#[derive(Clone, Copy, Debug, PartialEq, Eq, Structural)]
pub enum Resource {
    Product,
    Order,
    Customer,
    Inventory,
}

#[derive(Clone, Copy, Debug, PartialEq, Eq, Structural)]
pub enum Action {
    Read,
    Write,
    Delete,
    All,
}

/// Authorization interface.
pub trait Authorizer {
    /// Authorize the given request.
    fn authorize(&self, user: &IdpUser, resource: &Resource, action: &Action) -> Result<(), DomainError>;
}

} // verus!
