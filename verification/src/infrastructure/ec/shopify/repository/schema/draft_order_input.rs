//! Draft orders as mutations take them, and the payloads that the mutations return.
use vstd::prelude::*;

use crate::domain::address::Address;
use crate::domain::draft_order::DraftOrder;
use crate::domain::line_item::LineItem;
use crate::domain::time::Timestamp;
use crate::infrastructure::ec::shopify::gql_helper::{with_gid_prefix, ShopifyGQLHelper};
use crate::infrastructure::ec::shopify::repository::schema::address_input::{address_input_from, AddressInput};
use crate::infrastructure::ec::shopify::repository::schema::common::{MetafieldInput, UserError};
use crate::infrastructure::ec::shopify::repository::schema::draft_order::DraftOrderNode;
use crate::infrastructure::ec::shopify::repository::schema::line_item_input::{
    discount_input_of, line_item_input_of, DiscountInput, LineItemInput,
};
use crate::text::owned;

verus! {

#[derive(Debug)]
pub struct DraftOrderInput {
    pub purchasing_entity: Option<PurchasingEntityInput>,
    pub billing_address: Option<AddressInput>,
    pub shipping_address: Option<AddressInput>,
    pub note: Option<String>,
    pub line_items: Vec<LineItemInput>,
    pub reserve_inventory_until: Option<Timestamp>,
    pub applied_discount: Option<DiscountInput>,
    pub tax_exempt: Option<bool>,
    pub metafields: Vec<MetafieldInput<String>>,
}

#[derive(Debug)]
pub struct PurchasingEntityInput {
    pub customer_id: Option<String>,
}

#[derive(Debug)]
pub struct DraftOrderDeleteInput {
    pub id: String,
}

#[derive(Debug)]
pub struct DraftOrderCreateData {
    pub draft_order_create: DraftOrderCreate,
}

#[derive(Debug)]
pub struct DraftOrderCreate {
    pub draft_order: Option<DraftOrderNode>,
    pub user_errors: Vec<UserError>,
}

#[derive(Debug)]
pub struct DraftOrderUpdateData {
    pub draft_order_update: DraftOrderUpdate,
}

#[derive(Debug)]
pub struct DraftOrderUpdate {
    pub draft_order: Option<DraftOrderNode>,
    pub user_errors: Vec<UserError>,
}

#[derive(Debug)]
pub struct DraftOrderCompleteData {
    pub draft_order_complete: DraftOrderComplete,
}

#[derive(Debug)]
pub struct DraftOrderComplete {
    pub draft_order: Option<DraftOrderNode>,
    pub user_errors: Vec<UserError>,
}

#[derive(Debug)]
pub struct DraftOrderDeleteData {
    pub draft_order_delete: DraftOrderDelete,
}

#[derive(Debug)]
pub struct DraftOrderDelete {
    pub deleted_id: Option<String>,
    pub user_errors: Vec<UserError>,
}

/// The address input for an optional address.
pub open spec fn address_input_of(a: Option<Address>) -> Option<AddressInput> {
    match a {
        Some(x) => Some(address_input_from(x)),
        None => None,
    }
}

/// `input` is the mutation input for a draft order: the customer as purchasing entity
/// (with its gid prefix), the addresses, the note, the line items in order, the
/// reservation, the discount, the tax exemption, and the owner as the `custom`
/// namespace's `owner_user_id` metafield.
pub open spec fn draft_order_input_of(d: DraftOrder, input: DraftOrderInput) -> bool {
    &&& match d.customer_id {
        Some(id) => input.purchasing_entity matches Some(p) && p.customer_id matches Some(g) && g@
            == with_gid_prefix(ShopifyGQLHelper::SHOPIFY_CUSTOMER_GID_PREFIX@, id@),
        None => input.purchasing_entity is None,
    }
    &&& input.billing_address == address_input_of(d.billing_address)
    &&& input.shipping_address == address_input_of(d.shipping_address)
    &&& input.note == d.note
    &&& input.line_items@.len() == d.line_items@.len()
    &&& forall|k: int| 0 <= k < d.line_items@.len() ==> line_item_input_of(#[trigger] d.line_items@[k], input.line_items@[k])
    &&& input.reserve_inventory_until == d.reserve_inventory_until
    &&& match d.discount {
        Some(x) => input.applied_discount matches Some(i) && discount_input_of(x, i),
        None => input.applied_discount is None,
    }
    &&& input.tax_exempt == Some(d.tax_exempt)
    &&& input.metafields@.len() == 1
    &&& input.metafields@[0].key@ == "owner_user_id"@
    &&& input.metafields@[0].namespace@ == "custom"@
    &&& input.metafields@[0].value == d.owner_user_id
}

fn line_item_inputs(items: &Vec<LineItem>) -> (r: Vec<LineItemInput>)
    ensures
        r@.len() == items@.len(),
        forall|k: int| 0 <= k < items@.len() ==> line_item_input_of(#[trigger] items@[k], r@[k]),
{
    let mut out: Vec<LineItemInput> = Vec::new();
    let mut i: usize = 0;
    while i < items.len()
        invariant
            i <= items@.len(),
            out@.len() == i,
            forall|k: int| 0 <= k < i ==> line_item_input_of(#[trigger] items@[k], out@[k]),
        decreases items.len() - i,
    {
        out.push(LineItemInput::from_line_item(&items[i]));
        i = i + 1;
    }
    out
}

impl PurchasingEntityInput {
    /// The purchasing entity for a customer: its id with the customer gid prefix.
    pub fn from_customer_id(customer_id: &str) -> (r: PurchasingEntityInput)
        ensures
            r.customer_id matches Some(g) && g@ == with_gid_prefix(
                ShopifyGQLHelper::SHOPIFY_CUSTOMER_GID_PREFIX@,
                customer_id@,
            ),
    {
        PurchasingEntityInput { customer_id: Some(ShopifyGQLHelper::add_customer_gid_prefix(customer_id)) }
    }
}

impl DraftOrderDeleteInput {
    /// The delete input for a draft order: its id with the draft order gid prefix.
    pub fn from_draft_order(draft_order: &DraftOrder) -> (r: DraftOrderDeleteInput)
        ensures
            r.id@ == with_gid_prefix(ShopifyGQLHelper::SHOPIFY_DRAFT_ORDER_GID_PREFIX@, draft_order.id@),
    {
        DraftOrderDeleteInput { id: ShopifyGQLHelper::add_draft_order_gid_prefix(draft_order.id.as_str()) }
    }
}

impl DraftOrderInput {
    /// The create or update input for a draft order.
    pub fn from_draft_order(draft_order: DraftOrder) -> (r: DraftOrderInput)
        ensures
            draft_order_input_of(draft_order, r),
    {
        let purchasing_entity = match &draft_order.customer_id {
            Some(id) => Some(PurchasingEntityInput::from_customer_id(id.as_str())),
            None => None,
        };
        let line_items = line_item_inputs(&draft_order.line_items);
        let applied_discount = match &draft_order.discount {
            Some(d) => Some(DiscountInput::from_discount(d)),
            None => None,
        };
        let billing_address = match draft_order.billing_address {
            Some(a) => Some(AddressInput::from(a)),
            None => None,
        };
        let shipping_address = match draft_order.shipping_address {
            Some(a) => Some(AddressInput::from(a)),
            None => None,
        };
        let mut metafields: Vec<MetafieldInput<String>> = Vec::new();
        metafields.push(
            MetafieldInput { key: owned("owner_user_id"), namespace: owned("custom"), value: draft_order.owner_user_id },
        );
        DraftOrderInput {
            purchasing_entity,
            billing_address,
            shipping_address,
            note: draft_order.note,
            line_items,
            reserve_inventory_until: draft_order.reserve_inventory_until,
            applied_discount,
            tax_exempt: Some(draft_order.tax_exempt),
            metafields,
        }
    }
}

} // verus!
