//! Telephone numbers.
use vstd::prelude::*;

use crate::domain::error::DomainError;

verus! {

#[derive(Clone, Debug)]
pub struct Phone {
    pub value: String,
}

impl Phone {
    /// A telephone number; it must not be empty.
    pub fn new(value: String) -> (r: Result<Phone, DomainError>)
        ensures
            value@.len() == 0 ==> r == Err::<Phone, DomainError>(DomainError::ValidationError),
            value@.len() > 0 ==> r == Ok::<Phone, DomainError>(Phone { value }),
    {
        if value.as_str().unicode_len() == 0 {
            return Err(DomainError::ValidationError);
        }
        Ok(Phone { value })
    }

    pub fn value(&self) -> (r: &String)
        ensures
            r == &self.value,
    {
        &self.value
    }
}

} // verus!
