//! Conversions from the identifiers and names stored in the permission database.
use vstd::prelude::*;
use vstd::std_specs::convert::TryFromSpecImpl;

use crate::domain::error::DomainError;
use crate::domain::user::{ResourceType, Role, UserAction};
use crate::text::str_equals;

verus! {

/// The resource type stored under `value` in the database.
pub open spec fn resource_type_of(value: i32) -> Option<ResourceType> {
    if value == 1 {
        Some(ResourceType::Product)
    } else if value == 2 {
        Some(ResourceType::Order)
    } else if value == 3 {
        Some(ResourceType::Customer)
    } else if value == 4 {
        Some(ResourceType::Inventory)
    } else if value == 5 {
        Some(ResourceType::DraftOrder)
    } else {
        None
    }
}

/// The role stored under `value` in the database.
pub open spec fn role_of(value: i32) -> Option<Role> {
    if value == 1 {
        Some(Role::Admin)
    } else if value == 2 {
        Some(Role::Operator)
    } else if value == 3 {
        Some(Role::Customer)
    } else if value == 4 {
        Some(Role::NotLogin)
    } else {
        None
    }
}

/// The user action stored under the name `s` in the database.
pub open spec fn user_action_of(s: Seq<char>) -> Option<UserAction> {
    if s == "own_read"@ {
        Some(UserAction::OwnRead)
    } else if s == "own_write"@ {
        Some(UserAction::OwnWrite)
    } else if s == "own_delete"@ {
        Some(UserAction::OwnDelete)
    } else if s == "all_read"@ {
        Some(UserAction::AllRead)
    } else if s == "all_write"@ {
        Some(UserAction::AllWrite)
    } else if s == "all_delete"@ {
        Some(UserAction::AllDelete)
    } else if s == "all"@ {
        Some(UserAction::All)
    } else {
        None
    }
}

/// `Some(x)` as `Ok(x)`, `None` as a conversion error.
pub open spec fn or_conversion_error<T>(o: Option<T>) -> Result<T, DomainError> {
    match o {
        Some(x) => Ok(x),
        None => Err(DomainError::ConversionError),
    }
}

/// Convert resource IDs managed in Database to ENUM definitions in Resource.
impl TryFrom<i32> for ResourceType {
    type Error = DomainError;

    fn try_from(value: i32) -> (r: Result<Self, Self::Error>)
        ensures
            r == or_conversion_error(resource_type_of(value)),
    {
        match value {
            1 => Ok(ResourceType::Product),
            2 => Ok(ResourceType::Order),
            3 => Ok(ResourceType::Customer),
            4 => Ok(ResourceType::Inventory),
            5 => Ok(ResourceType::DraftOrder),
            _ => Err(DomainError::ConversionError),
        }
    }
}

impl TryFromSpecImpl<i32> for ResourceType {
    open spec fn obeys_try_from_spec() -> bool {
        true
    }

    open spec fn try_from_spec(v: i32) -> Result<Self, DomainError> {
        or_conversion_error(resource_type_of(v))
    }
}

/// Convert role IDs managed in Database to ENUM definitions in Role.
impl TryFrom<i32> for Role {
    type Error = DomainError;

    fn try_from(value: i32) -> (r: Result<Self, Self::Error>)
        ensures
            r == or_conversion_error(role_of(value)),
    {
        match value {
            1 => Ok(Role::Admin),
            2 => Ok(Role::Operator),
            3 => Ok(Role::Customer),
            4 => Ok(Role::NotLogin),
            _ => Err(DomainError::ConversionError),
        }
    }
}

impl TryFromSpecImpl<i32> for Role {
    open spec fn obeys_try_from_spec() -> bool {
        true
    }

    open spec fn try_from_spec(v: i32) -> Result<Self, DomainError> {
        or_conversion_error(role_of(v))
    }
}

impl UserAction {
    /// Convert action names managed in Database to ENUM definitions in UserAction.
    pub fn parse_name(s: &str) -> (r: Result<UserAction, DomainError>)
        ensures
            r == or_conversion_error(user_action_of(s@)),
    {
        if str_equals(s, "own_read") {
            Ok(UserAction::OwnRead)
        } else if str_equals(s, "own_write") {
            Ok(UserAction::OwnWrite)
        } else if str_equals(s, "own_delete") {
            Ok(UserAction::OwnDelete)
        } else if str_equals(s, "all_read") {
            Ok(UserAction::AllRead)
        } else if str_equals(s, "all_write") {
            Ok(UserAction::AllWrite)
        } else if str_equals(s, "all_delete") {
            Ok(UserAction::AllDelete)
        } else if str_equals(s, "all") {
            Ok(UserAction::All)
        } else {
            Err(DomainError::ConversionError)
        }
    }
}

impl core::str::FromStr for UserAction {
    type Err = DomainError;

    fn from_str(s: &str) -> (r: Result<Self, Self::Err>)
        ensures
            r == or_conversion_error(user_action_of(s@)),
    {
        UserAction::parse_name(s)
    }
}

/// A role's database identifier converts back to the role.
pub proof fn lemma_role_id_round_trip(role: Role)
    ensures
        role_of(role.spec_role_id()) == Some(role),
{
}

} // verus!
