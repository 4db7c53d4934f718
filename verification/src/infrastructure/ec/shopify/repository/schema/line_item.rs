//! Line items of draft orders as the Admin API returns them.
use vstd::prelude::*;

use crate::domain::error::DomainError;
use crate::domain::line_item::{Discount, DiscountValueType, LineItem};
use crate::infrastructure::ec::shopify::gql_helper::gid_tail;
use crate::infrastructure::ec::shopify::query_helper::ShopifyGQLQueryHelper;
use crate::infrastructure::ec::shopify::repository::schema::money::{money_of_node, money_outcome, MoneyBagNode};
use crate::text::str_equals;

verus! {

#[derive(Debug)]
pub struct LineItemNode {
    pub id: String,
    pub custom: bool,
    pub variant: Option<VariantIdNode>,
    pub quantity: i32,
    pub applied_discount: Option<DiscountNode>,
    pub discounted_total_set: MoneyBagNode,
    pub original_total_set: MoneyBagNode,
}

#[derive(Debug)]
pub struct VariantIdNode {
    pub id: String,
}

/// A discount node; `value_bits` is the IEEE 754 bit pattern of the
/// single-precision value.
#[derive(Debug)]
pub struct DiscountNode {
    pub title: Option<String>,
    pub description: String,
    pub value_bits: u32,
    pub value_type: String,
    pub amount_set: MoneyBagNode,
}

/// The value type named by the API.
pub open spec fn discount_value_type_of(t: Seq<char>) -> Option<DiscountValueType> {
    if t == "FIXED_AMOUNT"@ {
        Some(DiscountValueType::Fixed)
    } else if t == "PERCENTAGE"@ {
        Some(DiscountValueType::Percentage)
    } else {
        None
    }
}

/// The outcome of converting a discount node: an unknown value type is a conversion
/// error, then the amount must convert.
pub open spec fn discount_outcome(node: DiscountNode) -> Result<(), DomainError> {
    match discount_value_type_of(node.value_type@) {
        None => Err(DomainError::ConversionError),
        Some(_) => match money_outcome(node.amount_set.shop_money) {
            Err(e) => Err(e),
            Ok(_) => Ok(()),
        },
    }
}

/// `d` is the discount that `node` converts to.
pub open spec fn discount_of_node(node: DiscountNode, d: Discount) -> bool {
    &&& d.title == node.title
    &&& d.description == Some(node.description)
    &&& d.value_bits == node.value_bits
    &&& discount_value_type_of(node.value_type@) == Some(d.value_type)
    &&& d.amount_set matches Some(m) && money_of_node(node.amount_set.shop_money, m)
}

/// The quantity as an unsigned count: the two's complement reading of the signed value.
pub open spec fn quantity_count(q: i32) -> nat {
    if q >= 0 {
        q as nat
    } else {
        (q + 0x1_0000_0000) as nat
    }
}

/// The outcome of converting a line item node: its discount, then its two totals must
/// convert, and its bare id must not be empty.
pub open spec fn line_item_outcome(node: LineItemNode) -> Result<(), DomainError> {
    let discount = match node.applied_discount {
        Some(d) => discount_outcome(d),
        None => Ok(()),
    };
    match discount {
        Err(e) => Err(e),
        Ok(_) => match money_outcome(node.discounted_total_set.shop_money) {
            Err(e) => Err(e),
            Ok(_) => match money_outcome(node.original_total_set.shop_money) {
                Err(e) => Err(e),
                Ok(_) => if gid_tail(node.id@).len() == 0 {
                    Err(DomainError::ValidationError)
                } else {
                    Ok(())
                },
            },
        },
    }
}

/// `item` is the line item that `node` converts to.
pub open spec fn line_item_of_node(node: LineItemNode, item: LineItem) -> bool {
    &&& item.id@ == gid_tail(node.id@)
    &&& item.is_custom == node.custom
    &&& match node.variant {
        Some(v) => item.variant_id matches Some(id) && id@ == gid_tail(v.id@),
        None => item.variant_id is None,
    }
    &&& item.quantity == quantity_count(node.quantity)
    &&& match node.applied_discount {
        Some(d) => item.discount matches Some(x) && discount_of_node(d, x),
        None => item.discount is None,
    }
    &&& money_of_node(node.discounted_total_set.shop_money, item.discounted_total_set)
    &&& money_of_node(node.original_total_set.shop_money, item.original_total_set)
}

fn quantity_count_exec(q: i32) -> (r: u32)
    ensures
        r == quantity_count(q),
{
    if q >= 0 {
        q as u32
    } else {
        (q as i64 + 0x1_0000_0000i64) as u32
    }
}

fn discount_value_type_exec(t: &str) -> (r: Option<DiscountValueType>)
    ensures
        r == discount_value_type_of(t@),
{
    if str_equals(t, "FIXED_AMOUNT") {
        Some(DiscountValueType::Fixed)
    } else if str_equals(t, "PERCENTAGE") {
        Some(DiscountValueType::Percentage)
    } else {
        None
    }
}

impl DiscountNode {
    pub fn to_domain(self) -> (r: Result<Discount, DomainError>)
        ensures
            match discount_outcome(self) {
                Err(e) => r == Err::<Discount, DomainError>(e),
                Ok(_) => r matches Ok(d) && discount_of_node(self, d),
            },
    {
        let value_type = match discount_value_type_exec(self.value_type.as_str()) {
            Some(t) => t,
            None => {
                return Err(DomainError::ConversionError);
            },
        };
        let amount = match self.amount_set.shop_money.to_domain() {
            Ok(m) => m,
            Err(e) => {
                return Err(e);
            },
        };
        Discount::new(self.title, Some(self.description), self.value_bits, value_type, Some(amount))
    }
}

impl LineItemNode {
    pub fn to_domain(self) -> (r: Result<LineItem, DomainError>)
        ensures
            match line_item_outcome(self) {
                Err(e) => r == Err::<LineItem, DomainError>(e),
                Ok(_) => r matches Ok(item) && line_item_of_node(self, item),
            },
    {
        let id = ShopifyGQLQueryHelper::remove_gid_prefix(self.id.as_str());
        let variant_id = match &self.variant {
            Some(v) => Some(ShopifyGQLQueryHelper::remove_gid_prefix(v.id.as_str())),
            None => None,
        };
        let quantity = quantity_count_exec(self.quantity);
        let discount = match self.applied_discount {
            Some(d) => match d.to_domain() {
                Ok(x) => Some(x),
                Err(e) => {
                    return Err(e);
                },
            },
            None => None,
        };
        let discounted_total_set = match self.discounted_total_set.to_domain() {
            Ok(m) => m,
            Err(e) => {
                return Err(e);
            },
        };
        let original_total_set = match self.original_total_set.to_domain() {
            Ok(m) => m,
            Err(e) => {
                return Err(e);
            },
        };
        LineItem::new(id, self.custom, variant_id, quantity, discount, discounted_total_set, original_total_set)
    }
}

} // verus!
