//! What the draft order repository makes of the responses it gets, and which
//! mutation an update is.
use vstd::prelude::*;

use crate::domain::draft_order::{DraftOrder, Id as DraftOrderId};
use crate::domain::error::DomainError;
use crate::domain::time::Timestamp;
use crate::infrastructure::ec::shopify::gql_helper::{first_query_text, gid_tail, metafield_query_text, with_gid_prefix, ShopifyGQLHelper};
use crate::text::owned;
use crate::infrastructure::ec::shopify::repository::schema::common::{nodes_of, GraphQLError, GraphQLResponse, UserError};
use crate::infrastructure::ec::shopify::repository::schema::draft_order::{
    draft_order_result, draft_orders_result, DraftOrderData, DraftOrderNode, DraftOrdersData,
};
use crate::infrastructure::ec::shopify::repository::schema::draft_order_input::{
    DraftOrderCompleteData, DraftOrderCreateData, DraftOrderDeleteData, DraftOrderUpdateData,
};

verus! {

/// `r` is what a save mutation (create, update or complete) answers: a GraphQL error,
/// missing data, user errors or a missing draft order are a save error; otherwise the
/// returned draft order converted.
pub open spec fn saved_result(
    errors: Option<Vec<GraphQLError>>,
    payload: Option<(Option<DraftOrderNode>, Seq<UserError>)>,
    r: Result<DraftOrder, DomainError>,
) -> bool {
    if errors is Some {
        r == Err::<DraftOrder, DomainError>(DomainError::SaveError)
    } else {
        match payload {
            None => r == Err::<DraftOrder, DomainError>(DomainError::SaveError),
            Some((node, user_errors)) => if user_errors.len() > 0 {
                r == Err::<DraftOrder, DomainError>(DomainError::SaveError)
            } else {
                match node {
                    None => r == Err::<DraftOrder, DomainError>(DomainError::SaveError),
                    Some(n) => draft_order_result(n, r),
                }
            },
        }
    }
}

/// An update that sets the completion time to the Unix epoch asks for the draft order
/// to be completed; any other update is an ordinary update.
pub open spec fn is_completion(draft_order: DraftOrder) -> bool {
    draft_order.completed_at == Some(Timestamp { secs: 0, nanos: 0 })
}

/// Whether an update of `draft_order` is to complete it.
pub fn completes_draft_order(draft_order: &DraftOrder) -> (b: bool)
    ensures
        b == is_completion(*draft_order),
{
    match draft_order.completed_at {
        Some(t) => t.is_epoch(),
        None => false,
    }
}

/// The draft order of a lookup by id.
pub fn draft_order_from_response(response: GraphQLResponse<DraftOrderData>) -> (r: Result<DraftOrder, DomainError>)
    ensures
        response.errors is Some ==> r == Err::<DraftOrder, DomainError>(DomainError::QueryError),
        response.errors is None && response.data is None ==> r == Err::<DraftOrder, DomainError>(DomainError::NotFound),
        response.errors is None ==> (response.data matches Some(d) ==> draft_order_result(d.draft_order, r)),
{
    match response.into_query_data(DomainError::NotFound) {
        Ok(d) => d.draft_order.to_domain(),
        Err(e) => Err(e),
    }
}

/// The draft orders of a lookup by customer.
pub fn draft_orders_from_response(response: GraphQLResponse<DraftOrdersData>) -> (r: Result<Vec<DraftOrder>, DomainError>)
    ensures
        response.errors is Some ==> r == Err::<Vec<DraftOrder>, DomainError>(DomainError::QueryError),
        response.errors is None && response.data is None ==> r == Err::<Vec<DraftOrder>, DomainError>(DomainError::QueryError),
        response.errors is None ==> (response.data matches Some(d) ==> draft_orders_result(nodes_of(d.draft_orders.edges@), r)),
{
    match response.into_query_data(DomainError::QueryError) {
        Ok(d) => DraftOrderNode::to_domains(d.draft_orders.into_nodes()),
        Err(e) => Err(e),
    }
}

fn save_payload_result(node: Option<DraftOrderNode>, user_errors: Vec<UserError>) -> (r: Result<DraftOrder, DomainError>)
    ensures
        saved_result(None, Some((node, user_errors@)), r),
{
    if user_errors.len() > 0 {
        return Err(DomainError::SaveError);
    }
    match node {
        Some(n) => n.to_domain(),
        None => Err(DomainError::SaveError),
    }
}

/// The draft order that a create mutation returns.
pub fn created_draft_order(response: GraphQLResponse<DraftOrderCreateData>) -> (r: Result<DraftOrder, DomainError>)
    ensures
        saved_result(
            response.errors,
            match response.data {
                Some(d) => Some((d.draft_order_create.draft_order, d.draft_order_create.user_errors@)),
                None => None,
            },
            r,
        ),
{
    match response.into_mutation_data(DomainError::SaveError) {
        Ok(d) => save_payload_result(d.draft_order_create.draft_order, d.draft_order_create.user_errors),
        Err(e) => Err(e),
    }
}

/// The draft order that an update mutation returns.
pub fn updated_draft_order(response: GraphQLResponse<DraftOrderUpdateData>) -> (r: Result<DraftOrder, DomainError>)
    ensures
        saved_result(
            response.errors,
            match response.data {
                Some(d) => Some((d.draft_order_update.draft_order, d.draft_order_update.user_errors@)),
                None => None,
            },
            r,
        ),
{
    match response.into_mutation_data(DomainError::SaveError) {
        Ok(d) => save_payload_result(d.draft_order_update.draft_order, d.draft_order_update.user_errors),
        Err(e) => Err(e),
    }
}

/// The draft order that a complete mutation returns.
pub fn completed_draft_order(response: GraphQLResponse<DraftOrderCompleteData>) -> (r: Result<DraftOrder, DomainError>)
    ensures
        saved_result(
            response.errors,
            match response.data {
                Some(d) => Some((d.draft_order_complete.draft_order, d.draft_order_complete.user_errors@)),
                None => None,
            },
            r,
        ),
{
    match response.into_mutation_data(DomainError::SaveError) {
        Ok(d) => save_payload_result(d.draft_order_complete.draft_order, d.draft_order_complete.user_errors),
        Err(e) => Err(e),
    }
}

/// The bare id of the draft order that a delete mutation removed: a GraphQL error,
/// missing data, user errors or a missing id are a delete error.
pub fn deleted_draft_order_id(response: GraphQLResponse<DraftOrderDeleteData>) -> (r: Result<DraftOrderId, DomainError>)
    ensures
        response.errors is Some ==> r == Err::<DraftOrderId, DomainError>(DomainError::DeleteError),
        response.errors is None ==> match response.data {
            None => r == Err::<DraftOrderId, DomainError>(DomainError::DeleteError),
            Some(d) => if d.draft_order_delete.user_errors@.len() > 0 {
                r == Err::<DraftOrderId, DomainError>(DomainError::DeleteError)
            } else {
                match d.draft_order_delete.deleted_id {
                    None => r == Err::<DraftOrderId, DomainError>(DomainError::DeleteError),
                    Some(id) => r matches Ok(x) && x@ == gid_tail(id@),
                }
            },
        },
{
    let data = match response.into_mutation_data(DomainError::DeleteError) {
        Ok(d) => d,
        Err(e) => {
            return Err(e);
        },
    };
    if data.draft_order_delete.user_errors.len() > 0 {
        return Err(DomainError::DeleteError);
    }
    match data.draft_order_delete.deleted_id {
        Some(id) => Ok(ShopifyGQLHelper::remove_gid_prefix(id.as_str())),
        None => Err(DomainError::DeleteError),
    }
}


/// The fields of a discount.
pub open spec fn discount_fields_text() -> Seq<char> {
    "title description value valueType amountSet { "@ + ShopifyGQLHelper::MONEY_BAG_FIELDS@ + " }"@
}

/// The fields of a line item.
pub open spec fn line_item_fields_text() -> Seq<char> {
    "id custom variant { id } quantity appliedDiscount { "@ + discount_fields_text() + " } discountedTotalSet { "@
        + ShopifyGQLHelper::MONEY_BAG_FIELDS@ + " } originalTotalSet { "@ + ShopifyGQLHelper::MONEY_BAG_FIELDS@ + " }"@
}

/// The fields of a draft order: its addresses, line items, discount, totals, order and owner.
pub open spec fn draft_order_fields_text() -> Seq<char> {
    "id name status customer { id } billingAddress { "@ + ShopifyGQLHelper::ADDRESS_FIELDS@ + " } shippingAddress { "@
        + ShopifyGQLHelper::ADDRESS_FIELDS@ + " } note2 lineItems("@ + first_query_text(ShopifyGQLHelper::SHOPIFY_QUERY_LIMIT as nat)
        + ") { edges { node { "@ + line_item_fields_text() + " } } "@ + ShopifyGQLHelper::PAGE_INFO_FIELDS@
        + " } reserveInventoryUntil appliedDiscount { "@ + discount_fields_text() + " } subtotalPriceSet { "@
        + ShopifyGQLHelper::MONEY_BAG_FIELDS@ + " } taxesIncluded taxExempt totalTaxSet { "@ + ShopifyGQLHelper::MONEY_BAG_FIELDS@
        + " } totalDiscountsSet { "@ + ShopifyGQLHelper::MONEY_BAG_FIELDS@ + " } totalShippingPriceSet { "@
        + ShopifyGQLHelper::MONEY_BAG_FIELDS@ + " } totalPriceSet { "@ + ShopifyGQLHelper::MONEY_BAG_FIELDS@
        + " } presentmentCurrencyCode order { id } "@ + metafield_query_text("owner_user_id"@, "custom"@)
        + " completedAt createdAt updatedAt"@
}

fn discount_fields() -> (r: String)
    ensures
        r@ == discount_fields_text(),
{
    let mut r = owned("title description value valueType amountSet { ");
    r.append(ShopifyGQLHelper::MONEY_BAG_FIELDS);
    r.append(" }");
    r
}

fn line_item_fields() -> (r: String)
    ensures
        r@ == line_item_fields_text(),
{
    let mut r = owned("id custom variant { id } quantity appliedDiscount { ");
    r.append(discount_fields().as_str());
    r.append(" } discountedTotalSet { ");
    r.append(ShopifyGQLHelper::MONEY_BAG_FIELDS);
    r.append(" } originalTotalSet { ");
    r.append(ShopifyGQLHelper::MONEY_BAG_FIELDS);
    r.append(" }");
    r
}

/// The fields of a draft order.
#[verifier::rlimit(40)]
pub fn draft_order_fields() -> (r: String)
    ensures
        r@ == draft_order_fields_text(),
{
    let money = ShopifyGQLHelper::MONEY_BAG_FIELDS;
    let address = ShopifyGQLHelper::ADDRESS_FIELDS;
    let mut r = owned("id name status customer { id } billingAddress { ");
    r.append(address);
    r.append(" } shippingAddress { ");
    r.append(address);
    r.append(" } note2 lineItems(");
    r.append(ShopifyGQLHelper::first_query().as_str());
    r.append(") { edges { node { ");
    r.append(line_item_fields().as_str());
    r.append(" } } ");
    r.append(ShopifyGQLHelper::PAGE_INFO_FIELDS);
    r.append(" } reserveInventoryUntil appliedDiscount { ");
    r.append(discount_fields().as_str());
    r.append(" } subtotalPriceSet { ");
    r.append(money);
    r.append(" } taxesIncluded taxExempt totalTaxSet { ");
    r.append(money);
    r.append(" } totalDiscountsSet { ");
    r.append(money);
    r.append(" } totalShippingPriceSet { ");
    r.append(money);
    r.append(" } totalPriceSet { ");
    r.append(money);
    r.append(" } presentmentCurrencyCode order { id } ");
    r.append(ShopifyGQLHelper::metafield_query("owner_user_id", "custom").as_str());
    r.append(" completedAt createdAt updatedAt");
    r
}

/// The query for one draft order by its id (given bare or as a gid).
pub fn draft_order_by_id_query(id: &str) -> (r: String)
    ensures
        r@ == "query { draftOrder(id: \""@ + with_gid_prefix(ShopifyGQLHelper::SHOPIFY_DRAFT_ORDER_GID_PREFIX@, id@) + "\") { "@
            + draft_order_fields_text() + " } }"@,
{
    let mut r = owned("query { draftOrder(id: \"");
    r.append(ShopifyGQLHelper::add_draft_order_gid_prefix(id).as_str());
    r.append("\") { ");
    r.append(draft_order_fields().as_str());
    r.append(" } }");
    r
}

/// The query for the draft orders of a customer.
pub fn draft_orders_by_customer_query(customer_id: &str) -> (r: String)
    ensures
        r@ == "query { draftOrders("@ + first_query_text(ShopifyGQLHelper::SHOPIFY_QUERY_LIMIT as nat) + ", query: \"customer_id:"@
            + customer_id@ + "\") { edges { node { "@ + draft_order_fields_text() + " } } "@ + ShopifyGQLHelper::PAGE_INFO_FIELDS@
            + " } }"@,
{
    let mut r = owned("query { draftOrders(");
    r.append(ShopifyGQLHelper::first_query().as_str());
    r.append(", query: \"customer_id:");
    r.append(customer_id);
    r.append("\") { edges { node { ");
    r.append(draft_order_fields().as_str());
    r.append(" } } ");
    r.append(ShopifyGQLHelper::page_info().as_str());
    r.append(" } }");
    r
}

/// The mutation that creates a draft order from its input.
pub fn draft_order_create_mutation() -> (r: String)
    ensures
        r@ == "mutation draftOrderCreate($input: DraftOrderInput!) { draftOrderCreate(input: $input) { draftOrder { "@
            + draft_order_fields_text() + " } "@ + ShopifyGQLHelper::USER_ERRORS_FIELDS@ + " } }"@,
{
    let mut r = owned("mutation draftOrderCreate($input: DraftOrderInput!) { draftOrderCreate(input: $input) { draftOrder { ");
    r.append(draft_order_fields().as_str());
    r.append(" } ");
    r.append(ShopifyGQLHelper::user_errors().as_str());
    r.append(" } }");
    r
}

/// The mutation that updates a draft order from its input.
pub fn draft_order_update_mutation() -> (r: String)
    ensures
        r@ == "mutation draftOrderUpdate($input: DraftOrderInput!) { draftOrderUpdate(input: $input) { draftOrder { "@
            + draft_order_fields_text() + " } "@ + ShopifyGQLHelper::USER_ERRORS_FIELDS@ + " } }"@,
{
    let mut r = owned("mutation draftOrderUpdate($input: DraftOrderInput!) { draftOrderUpdate(input: $input) { draftOrder { ");
    r.append(draft_order_fields().as_str());
    r.append(" } ");
    r.append(ShopifyGQLHelper::user_errors().as_str());
    r.append(" } }");
    r
}

/// The mutation that completes the draft order `id` (given bare or as a gid).
pub fn draft_order_complete_mutation(id: &str) -> (r: String)
    ensures
        r@ == "mutation draftOrderComplete { draftOrderComplete(id: \""@
            + with_gid_prefix(ShopifyGQLHelper::SHOPIFY_DRAFT_ORDER_GID_PREFIX@, id@) + "\") { draftOrder { "@
            + draft_order_fields_text() + " } "@ + ShopifyGQLHelper::USER_ERRORS_FIELDS@ + " } }"@,
{
    let mut r = owned("mutation draftOrderComplete { draftOrderComplete(id: \"");
    r.append(ShopifyGQLHelper::add_draft_order_gid_prefix(id).as_str());
    r.append("\") { draftOrder { ");
    r.append(draft_order_fields().as_str());
    r.append(" } ");
    r.append(ShopifyGQLHelper::user_errors().as_str());
    r.append(" } }");
    r
}

/// The mutation that deletes a draft order given by its delete input.
pub fn draft_order_delete_mutation() -> (r: String)
    ensures
        r@ == "mutation draftOrderDelete($input: DraftOrderDeleteInput!) { draftOrderDelete(input: $input) { deletedId "@
            + ShopifyGQLHelper::USER_ERRORS_FIELDS@ + " } }"@,
{
    let mut r = owned("mutation draftOrderDelete($input: DraftOrderDeleteInput!) { draftOrderDelete(input: $input) { deletedId ");
    r.append(ShopifyGQLHelper::user_errors().as_str());
    r.append(" } }");
    r
}

} // verus!
