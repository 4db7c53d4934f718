//! Draft orders: orders that a customer is still putting together.
use vstd::prelude::*;

use crate::domain::address::Address;
use crate::domain::error::DomainError;
use crate::domain::line_item::{Discount, LineItem};
use crate::domain::money::{CurrencyCode, Money};
use crate::domain::time::Timestamp;

verus! {

pub type Id = String;

#[derive(Clone, Copy, Debug, PartialEq, Eq, Structural)]
pub enum DraftOrderStatus {
    Open,
    Completed,
    Canceled,
}

#[derive(Clone, Debug)]
pub struct DraftOrder {
    pub id: Id,
    pub name: String,
    pub status: DraftOrderStatus,
    pub customer_id: Option<String>,
    pub billing_address: Option<Address>,
    pub shipping_address: Option<Address>,
    pub note: Option<String>,
    pub line_items: Vec<LineItem>,
    pub reserve_inventory_until: Option<Timestamp>,
    pub discount: Option<Discount>,
    pub subtotal_price_set: Money,
    pub taxes_included: bool,
    pub tax_exempt: bool,
    pub total_tax_set: Money,
    pub total_discounts_set: Money,
    pub total_shipping_price_set: Money,
    pub total_price_set: Money,
    pub presentment_currency_code: CurrencyCode,
    pub order_id: Option<String>,
    pub owner_user_id: String,
    pub completed_at: Option<Timestamp>,
    pub created_at: Timestamp,
    pub updated_at: Timestamp,
}

impl DraftOrder {
    /// A draft order; its id must not be empty.
    pub fn new(
        id: Id,
        name: String,
        status: DraftOrderStatus,
        customer_id: Option<String>,
        billing_address: Option<Address>,
        shipping_address: Option<Address>,
        note: Option<String>,
        line_items: Vec<LineItem>,
        reserve_inventory_until: Option<Timestamp>,
        discount: Option<Discount>,
        subtotal_price_set: Money,
        taxes_included: bool,
        tax_exempt: bool,
        total_tax_set: Money,
        total_discounts_set: Money,
        total_shipping_price_set: Money,
        total_price_set: Money,
        presentment_currency_code: CurrencyCode,
        order_id: Option<String>,
        owner_user_id: String,
        completed_at: Option<Timestamp>,
        created_at: Timestamp,
        updated_at: Timestamp,
    ) -> (r: Result<DraftOrder, DomainError>)
        ensures
            id@.len() == 0 ==> r == Err::<DraftOrder, DomainError>(DomainError::ValidationError),
            id@.len() > 0 ==> r == Ok::<DraftOrder, DomainError>(
                DraftOrder {
                    id,
                    name,
                    status,
                    customer_id,
                    billing_address,
                    shipping_address,
                    note,
                    line_items,
                    reserve_inventory_until,
                    discount,
                    subtotal_price_set,
                    taxes_included,
                    tax_exempt,
                    total_tax_set,
                    total_discounts_set,
                    total_shipping_price_set,
                    total_price_set,
                    presentment_currency_code,
                    order_id,
                    owner_user_id,
                    completed_at,
                    created_at,
                    updated_at,
                },
            ),
    {
        if id.as_str().unicode_len() == 0 {
            return Err(DomainError::ValidationError);
        }
        Ok(
            DraftOrder {
                id,
                name,
                status,
                customer_id,
                billing_address,
                shipping_address,
                note,
                line_items,
                reserve_inventory_until,
                discount,
                subtotal_price_set,
                taxes_included,
                tax_exempt,
                total_tax_set,
                total_discounts_set,
                total_shipping_price_set,
                total_price_set,
                presentment_currency_code,
                order_id,
                owner_user_id,
                completed_at,
                created_at,
                updated_at,
            },
        )
    }
}

} // verus!
