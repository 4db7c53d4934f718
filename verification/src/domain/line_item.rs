//! Line items of draft orders and the discounts applied to them.
use vstd::prelude::*;

use crate::domain::error::DomainError;
use crate::domain::money::Money;

verus! {

pub type Id = String;

#[derive(Clone, Copy, Debug, PartialEq, Eq, Structural)]
pub enum DiscountValueType {
    Fixed,
    Percentage,
}

/// A discount. Its value (an amount or a percentage, as the value type says) is a
/// single-precision number, held here by its IEEE 754 bit pattern.
#[derive(Clone, Debug)]
pub struct Discount {
    pub title: Option<String>,
    pub description: Option<String>,
    pub value_bits: u32,
    pub value_type: DiscountValueType,
    pub amount_set: Option<Money>,
}

impl Discount {
    /// A discount; every combination is accepted.
    pub fn new(
        title: Option<String>,
        description: Option<String>,
        value_bits: u32,
        value_type: DiscountValueType,
        amount_set: Option<Money>,
    ) -> (r: Result<Discount, DomainError>)
        ensures
            r == Ok::<Discount, DomainError>(Discount { title, description, value_bits, value_type, amount_set }),
    {
        Ok(Discount { title, description, value_bits, value_type, amount_set })
    }
}

#[derive(Clone, Debug)]
pub struct LineItem {
    pub id: Id,
    pub is_custom: bool,
    pub variant_id: Option<String>,
    pub quantity: u32,
    pub discount: Option<Discount>,
    pub discounted_total_set: Money,
    pub original_total_set: Money,
}

impl LineItem {
    /// A line item; its id must not be empty.
    pub fn new(
        id: Id,
        is_custom: bool,
        variant_id: Option<String>,
        quantity: u32,
        discount: Option<Discount>,
        discounted_total_set: Money,
        original_total_set: Money,
    ) -> (r: Result<LineItem, DomainError>)
        ensures
            id@.len() == 0 ==> r == Err::<LineItem, DomainError>(DomainError::ValidationError),
            id@.len() > 0 ==> r == Ok::<LineItem, DomainError>(
                LineItem { id, is_custom, variant_id, quantity, discount, discounted_total_set, original_total_set },
            ),
    {
        if id.as_str().unicode_len() == 0 {
            return Err(DomainError::ValidationError);
        }
        Ok(LineItem { id, is_custom, variant_id, quantity, discount, discounted_total_set, original_total_set })
    }
}

} // verus!
