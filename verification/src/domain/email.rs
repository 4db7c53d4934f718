//! E-mail addresses.
use vstd::prelude::*;

use crate::domain::error::DomainError;

verus! {

#[derive(Clone, Debug)]
pub struct Email {
    pub value: String,
}

impl Email {
    /// An e-mail address; it must not be empty.
    pub fn new(value: String) -> (r: Result<Email, DomainError>)
        ensures
            value@.len() == 0 ==> r == Err::<Email, DomainError>(DomainError::ValidationError),
            value@.len() > 0 ==> r == Ok::<Email, DomainError>(Email { value }),
    {
        if value.as_str().unicode_len() == 0 {
            return Err(DomainError::ValidationError);
        }
        Ok(Email { value })
    }

    pub fn value(&self) -> (r: &String)
        ensures
            r == &self.value,
    {
        &self.value
    }
}

} // verus!
