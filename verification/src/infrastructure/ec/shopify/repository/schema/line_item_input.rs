//! Line items of draft orders as mutations take them.
use vstd::prelude::*;

use crate::domain::line_item::{Discount, DiscountValueType, LineItem};
use crate::infrastructure::ec::shopify::repository::schema::line_item::quantity_count;
use crate::domain::money::Money;
use crate::infrastructure::ec::shopify::gql_helper::{with_gid_prefix, ShopifyGQLHelper};
use crate::infrastructure::ec::shopify::repository::schema::money_input::{currency_code_string, currency_code_text, MoneyInput};
use crate::text::owned;

verus! {

#[derive(Debug)]
pub struct LineItemInput {
    pub variant_id: Option<String>,
    pub quantity: i32,
    pub applied_discount: Option<DiscountInput>,
}

/// A discount input; `value_bits` is the IEEE 754 bit pattern of the
/// single-precision value.
#[derive(Debug)]
pub struct DiscountInput {
    pub title: Option<String>,
    pub description: Option<String>,
    pub value_bits: u32,
    pub value_type: String,
    pub amount_with_currency: Option<MoneyInput>,
}

/// The name of a value type in the API.
pub open spec fn value_type_text(t: DiscountValueType) -> Seq<char> {
    match t {
        DiscountValueType::Fixed => "FIXED_AMOUNT"@,
        DiscountValueType::Percentage => "PERCENTAGE"@,
    }
}

/// The name of a value type in the API.
pub fn value_type_string(t: DiscountValueType) -> (s: String)
    ensures
        s@ == value_type_text(t),
{
    match t {
        DiscountValueType::Fixed => owned("FIXED_AMOUNT"),
        DiscountValueType::Percentage => owned("PERCENTAGE"),
    }
}

/// The quantity as a signed count: the two's complement reading of the unsigned value.
pub open spec fn signed_quantity(q: u32) -> int {
    if q <= 0x7fff_ffff {
        q as int
    } else {
        q - 0x1_0000_0000
    }
}

/// `input` carries the amount and the currency of `money`.
pub open spec fn money_input_of(money: Money, input: MoneyInput) -> bool {
    input.amount@ == money.amount.value@ && input.currency_code@ == currency_code_text(money.currency_code)
}

/// `input` is the mutation input for `d`.
pub open spec fn discount_input_of(d: Discount, input: DiscountInput) -> bool {
    &&& input.title == d.title
    &&& input.description == d.description
    &&& input.value_bits == d.value_bits
    &&& input.value_type@ == value_type_text(d.value_type)
    &&& match d.amount_set {
        Some(m) => input.amount_with_currency matches Some(i) && money_input_of(m, i),
        None => input.amount_with_currency is None,
    }
}

/// `input` is the mutation input for `item`.
pub open spec fn line_item_input_of(item: LineItem, input: LineItemInput) -> bool {
    &&& match item.variant_id {
        Some(id) => input.variant_id matches Some(g) && g@ == with_gid_prefix(
            ShopifyGQLHelper::SHOPIFY_PRODUCT_VARIANT_GID_PREFIX@,
            id@,
        ),
        None => input.variant_id is None,
    }
    &&& input.quantity as int == signed_quantity(item.quantity)
    &&& match item.discount {
        Some(d) => input.applied_discount matches Some(i) && discount_input_of(d, i),
        None => input.applied_discount is None,
    }
}

fn signed_quantity_exec(q: u32) -> (r: i32)
    ensures
        r as int == signed_quantity(q),
{
    if q <= 0x7fff_ffff {
        q as i32
    } else {
        (q as i64 - 0x1_0000_0000i64) as i32
    }
}

/// The money input for `money`.
pub fn money_input_for(money: &Money) -> (r: MoneyInput)
    ensures
        money_input_of(*money, r),
{
    MoneyInput { amount: money.amount.value.clone(), currency_code: currency_code_string(money.currency_code) }
}

impl DiscountInput {
    /// The mutation input for a discount.
    pub fn from_discount(discount: &Discount) -> (r: DiscountInput)
        ensures
            discount_input_of(*discount, r),
    {
        let amount_with_currency = match &discount.amount_set {
            Some(m) => Some(money_input_for(m)),
            None => None,
        };
        DiscountInput {
            title: discount.title.clone(),
            description: discount.description.clone(),
            value_bits: discount.value_bits,
            value_type: value_type_string(discount.value_type),
            amount_with_currency,
        }
    }
}

impl LineItemInput {
    /// The mutation input for a line item: the variant gets its gid prefix.
    pub fn from_line_item(line_item: &LineItem) -> (r: LineItemInput)
        ensures
            line_item_input_of(*line_item, r),
    {
        let variant_id = match &line_item.variant_id {
            Some(id) => Some(ShopifyGQLHelper::add_product_variant_gid_prefix(id.as_str())),
            None => None,
        };
        let applied_discount = match &line_item.discount {
            Some(d) => Some(DiscountInput::from_discount(d)),
            None => None,
        };
        LineItemInput { variant_id, quantity: signed_quantity_exec(line_item.quantity), applied_discount }
    }
}


/// A quantity read from the API and written back into a mutation is the same signed
/// number: the two's complement readings undo each other.
pub proof fn lemma_quantity_round_trip(q: i32)
    ensures
        quantity_count(q) <= u32::MAX,
        signed_quantity(quantity_count(q) as u32) == q,
{
}

} // verus!
