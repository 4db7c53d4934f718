//! Failures of the outside services that the infrastructure layer talks to.
use vstd::prelude::*;

use crate::domain::error::DomainError;

verus! {

/// An error of the HTTP client.
#[verifier::external_type_specification]
#[verifier::external_body]
pub struct ExReqwestError(reqwest::Error);

/// An error of the JSON parser.
#[verifier::external_type_specification]
#[verifier::external_body]
pub struct ExSerdeJsonError(serde_json::Error);

#[derive(Debug)]
pub enum InfrastructureError {
    NetworkError(reqwest::Error),
    ParseError(serde_json::Error),
}

impl InfrastructureError {
    /// The message shown for the error.
    pub fn message(&self) -> (r: &'static str)
        ensures
            (self is NetworkError ==> r@ == "Network is out of order."@),
            (self is ParseError ==> r@ == "Parse error."@),
    {
        match self {
            InfrastructureError::NetworkError(_) => "Network is out of order.",
            InfrastructureError::ParseError(_) => "Parse error.",
        }
    }
}

pub struct InfrastructureErrorMapper;

impl InfrastructureErrorMapper {
    /// Every failure of an outside service is a system error of the domain.
    pub fn to_domain(error: InfrastructureError) -> (r: DomainError)
        ensures
            r == DomainError::SystemError,
    {
        match error {
            InfrastructureError::NetworkError(_) => DomainError::SystemError,
            InfrastructureError::ParseError(_) => DomainError::SystemError,
        }
    }
}

} // verus!
