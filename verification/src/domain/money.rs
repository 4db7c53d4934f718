//! Money: an amount in a currency. Amounts are kept as the decimal numeral they
//! were given in (digits, optionally a point and more digits), never negative.
use vstd::prelude::*;

use crate::domain::error::DomainError;
use crate::text::{is_unsigned_decimal, is_unsigned_decimal_exec};

verus! {

#[derive(Clone, Copy, Debug, PartialEq, Eq, Structural)]
pub enum CurrencyCode {
    USD,
    EUR,
    GBP,
    JPY,
}

#[derive(Clone, Debug)]
pub struct Amount {
    pub value: String,
}

impl Amount {
    /// An amount; the value must be an unsigned decimal numeral.
    pub fn new(value: String) -> (r: Result<Amount, DomainError>)
        ensures
            is_unsigned_decimal(value@) ==> r == Ok::<Amount, DomainError>(Amount { value }),
            !is_unsigned_decimal(value@) ==> r == Err::<Amount, DomainError>(DomainError::ValidationError),
    {
        if is_unsigned_decimal_exec(value.as_str()) {
            Ok(Amount { value })
        } else {
            Err(DomainError::ValidationError)
        }
    }
}

#[derive(Clone, Debug)]
pub struct Money {
    pub currency_code: CurrencyCode,
    pub amount: Amount,
}

impl Money {
    /// Money of an amount in a currency; every combination is accepted.
    pub fn new(currency_code: CurrencyCode, amount: Amount) -> (r: Result<Money, DomainError>)
        ensures
            r == Ok::<Money, DomainError>(Money { currency_code, amount }),
    {
        Ok(Money { currency_code, amount })
    }
}

} // verus!
