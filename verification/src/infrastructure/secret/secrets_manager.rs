//! Secrets kept as JSON text: reading one as a JSON value.
use vstd::prelude::*;

use crate::domain::error::DomainError;

verus! {

/// A JSON value.
#[verifier::external_type_specification]
#[verifier::external_body]
pub struct ExJsonValue(serde_json::Value);

/// The JSON value that a text holds, and `None` where the text is not JSON.
pub uninterp spec fn json_parse(text: Seq<char>) -> Option<serde_json::Value>;

/// `serde_json::from_str` read into a `serde_json::Value`: the value the text holds,
/// or an error where it is not JSON; the result depends on the text alone.
#[verifier::external_body]
fn json_from_str(text: &str) -> (r: Result<serde_json::Value, serde_json::Error>)
    ensures
        match json_parse(text@) {
            Some(v) => r == Ok::<serde_json::Value, serde_json::Error>(v),
            None => r is Err,
        },
{
    serde_json::from_str::<serde_json::Value>(text)
}

/// A secret string read as a JSON value; text that is not JSON is a system error.
pub fn secret_json(secret_string: &str) -> (r: Result<serde_json::Value, DomainError>)
    ensures
        match json_parse(secret_string@) {
            Some(v) => r == Ok::<serde_json::Value, DomainError>(v),
            None => r == Err::<serde_json::Value, DomainError>(DomainError::SystemError),
        },
{
    match json_from_str(secret_string) {
        Ok(v) => Ok(v),
        Err(_) => Err(DomainError::SystemError),
    }
}

} // verus!
