//! Money as mutations take it.
use vstd::prelude::*;

use crate::domain::money::{CurrencyCode, Money};
use crate::text::owned;

verus! {

#[derive(Debug)]
pub struct MoneyInput {
    pub amount: String,
    pub currency_code: String,
}

/// The ISO 4217 code of a currency.
pub open spec fn currency_code_text(c: CurrencyCode) -> Seq<char> {
    match c {
        CurrencyCode::USD => "USD"@,
        CurrencyCode::EUR => "EUR"@,
        CurrencyCode::GBP => "GBP"@,
        CurrencyCode::JPY => "JPY"@,
    }
}

/// The ISO 4217 code of a currency.
pub fn currency_code_string(c: CurrencyCode) -> (s: String)
    ensures
        s@ == currency_code_text(c),
{
    match c {
        CurrencyCode::USD => owned("USD"),
        CurrencyCode::EUR => owned("EUR"),
        CurrencyCode::GBP => owned("GBP"),
        CurrencyCode::JPY => owned("JPY"),
    }
}

impl MoneyInput {
    /// The amount numeral and the currency code of `money`.
    pub fn from_money(money: Money) -> (r: MoneyInput)
        ensures
            r.amount@ == money.amount.value@,
            r.currency_code@ == currency_code_text(money.currency_code),
    {
        MoneyInput { amount: money.amount.value, currency_code: currency_code_string(money.currency_code) }
    }
}

} // verus!
