//! Money as the Admin API returns it.
use vstd::prelude::*;

use crate::domain::error::DomainError;
use crate::domain::money::{Amount, CurrencyCode, Money};
use crate::infrastructure::ec::shopify::repository::schema::money_input::currency_code_text;
use crate::text::{
    all_digits, chars_of, has_nonzero_digit, has_nonzero_digit_exec, is_unsigned_decimal, is_unsigned_decimal_exec, owned,
    string_from_chars, str_equals,
};

verus! {

#[derive(Debug)]
pub struct MoneyBagNode {
    pub shop_money: MoneyNode,
}

#[derive(Debug)]
pub struct MoneyNode {
    pub amount: String,
    pub currency_code: CurrencyCodeNode,
}

#[derive(Debug)]
pub struct CurrencyCodeNode(pub String);

/// The currency named by an ISO 4217 code.
pub open spec fn currency_code_of(code: Seq<char>) -> Option<CurrencyCode> {
    if code == "USD"@ {
        Some(CurrencyCode::USD)
    } else if code == "EUR"@ {
        Some(CurrencyCode::EUR)
    } else if code == "GBP"@ {
        Some(CurrencyCode::GBP)
    } else if code == "JPY"@ {
        Some(CurrencyCode::JPY)
    } else {
        None
    }
}

/// The amount that an amount text stands for: an unsigned decimal numeral as it is, with
/// a leading `+` dropped; a negative one is refused; anything that is not a numeral
/// counts as zero.
pub open spec fn amount_text_outcome(text: Seq<char>) -> Result<Seq<char>, DomainError> {
    if is_unsigned_decimal(text) {
        Ok(text)
    } else if text.len() > 0 && text[0] == '+' && is_unsigned_decimal(text.drop_first()) {
        Ok(text.drop_first())
    } else if text.len() > 0 && text[0] == '-' && is_unsigned_decimal(text.drop_first()) {
        if has_nonzero_digit(text.drop_first()) {
            Err(DomainError::ValidationError)
        } else {
            Ok("0"@)
        }
    } else {
        Ok("0"@)
    }
}

/// Every amount that an amount text stands for is an unsigned decimal numeral.
pub proof fn lemma_amount_text_is_decimal(text: Seq<char>)
    ensures
        amount_text_outcome(text) matches Ok(t) ==> is_unsigned_decimal(t),
{
    reveal_strlit("0");
    assert(all_digits("0"@));
}

/// The outcome of converting a money node: the amount first, then the currency.
pub open spec fn money_outcome(node: MoneyNode) -> Result<(Seq<char>, CurrencyCode), DomainError> {
    match amount_text_outcome(node.amount@) {
        Err(e) => Err(e),
        Ok(text) => match currency_code_of(node.currency_code.0@) {
            Some(c) => Ok((text, c)),
            None => Err(DomainError::ConversionError),
        },
    }
}

/// `r` is the conversion of a money node with the given outcome.
pub open spec fn money_result_matches(outcome: Result<(Seq<char>, CurrencyCode), DomainError>, r: Result<Money, DomainError>) -> bool {
    match outcome {
        Err(e) => r == Err::<Money, DomainError>(e),
        Ok((text, c)) => r matches Ok(m) && m.amount.value@ == text && m.currency_code == c,
    }
}

/// `m` is the money that a money node converts to.
pub open spec fn money_of_node(node: MoneyNode, m: Money) -> bool {
    money_outcome(node) matches Ok((text, c)) && m.amount.value@ == text && m.currency_code == c
}

/// The amount text of a money value: the numeral itself (without a leading `+`), zero
/// where it is not one.
pub fn amount_text(text: &str) -> (r: Result<String, DomainError>)
    ensures
        match amount_text_outcome(text@) {
            Ok(t) => r matches Ok(s) && s@ == t,
            Err(e) => r == Err::<String, DomainError>(e),
        },
{
    if is_unsigned_decimal_exec(text) {
        return Ok(owned(text));
    }
    let v = chars_of(text);
    if v.len() > 0 && v[0] == '+' {
        let rest = string_from_chars(&v, 1, v.len());
        assert(rest@ =~= text@.drop_first());
        if is_unsigned_decimal_exec(rest.as_str()) {
            return Ok(rest);
        }
    }
    if v.len() > 0 && v[0] == '-' {
        let rest = string_from_chars(&v, 1, v.len());
        assert(rest@ =~= text@.drop_first());
        if is_unsigned_decimal_exec(rest.as_str()) {
            if has_nonzero_digit_exec(rest.as_str()) {
                return Err(DomainError::ValidationError);
            }
            return Ok(owned("0"));
        }
    }
    Ok(owned("0"))
}

impl CurrencyCodeNode {
    pub fn to_domain(self) -> (r: Result<CurrencyCode, DomainError>)
        ensures
            currency_code_of(self.0@) matches Some(c) ==> r == Ok::<CurrencyCode, DomainError>(c),
            currency_code_of(self.0@) is None ==> r == Err::<CurrencyCode, DomainError>(DomainError::ConversionError),
    {
        let code = self.0.as_str();
        if str_equals(code, "USD") {
            Ok(CurrencyCode::USD)
        } else if str_equals(code, "EUR") {
            Ok(CurrencyCode::EUR)
        } else if str_equals(code, "GBP") {
            Ok(CurrencyCode::GBP)
        } else if str_equals(code, "JPY") {
            Ok(CurrencyCode::JPY)
        } else {
            Err(DomainError::ConversionError)
        }
    }
}

impl MoneyNode {
    pub fn to_domain(self) -> (r: Result<Money, DomainError>)
        ensures
            money_result_matches(money_outcome(self), r),
    {
        proof {
            lemma_amount_text_is_decimal(self.amount@);
        }
        let text = match amount_text(self.amount.as_str()) {
            Ok(t) => t,
            Err(e) => {
                return Err(e);
            },
        };
        let amount = match Amount::new(text) {
            Ok(a) => a,
            Err(e) => {
                return Err(e);
            },
        };
        let currency_code = match self.currency_code.to_domain() {
            Ok(c) => c,
            Err(e) => {
                return Err(e);
            },
        };
        Money::new(currency_code, amount)
    }
}

impl MoneyBagNode {
    pub fn to_domain(self) -> (r: Result<Money, DomainError>)
        ensures
            money_result_matches(money_outcome(self.shop_money), r),
    {
        self.shop_money.to_domain()
    }
}

/// Reading a currency code undoes writing one: the ISO code written for a currency reads
/// back as that currency, and a code that reads as a currency is the one written for it.
pub proof fn lemma_currency_code_round_trip(c: CurrencyCode, code: Seq<char>)
    ensures
        currency_code_of(currency_code_text(c)) == Some(c),
        currency_code_of(code) == Some(c) ==> code == currency_code_text(c),
{
    reveal_strlit("USD");
    reveal_strlit("EUR");
    reveal_strlit("GBP");
    reveal_strlit("JPY");
    let codes = seq!["USD"@, "EUR"@, "GBP"@, "JPY"@];
    assert forall|i: int, j: int| 0 <= i < j < 4 implies codes[i] != codes[j] by {
        assert(codes[i][0] != codes[j][0]);
    }
    assert(codes[0] != codes[1] && codes[0] != codes[2] && codes[0] != codes[3]);
    assert(codes[1] != codes[2] && codes[1] != codes[3] && codes[2] != codes[3]);
}

} // verus!
