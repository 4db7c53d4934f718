//! Errors of the domain layer.
use vstd::prelude::*;

verus! {

#[derive(Clone, Copy, Debug, PartialEq, Eq, Structural)]
pub enum DomainError {
    ValidationError,
    ConversionError,
    QueryError,
    SaveError,
    DeleteError,
    NotFound,
    SystemError,
    AuthenticationError,
    AuthenticationExpired,
    AuthorizationError,
    InitConfigError,
}

} // verus!
