//! What the inventory level repository makes of the responses it gets.
use vstd::prelude::*;

use crate::domain::error::DomainError;
use crate::infrastructure::ec::shopify::gql_helper::{first_query_text, with_gid_prefix, ShopifyGQLHelper};
use crate::infrastructure::ec::shopify::query_helper::ShopifyGQLQueryHelper;
use crate::text::owned;
use crate::domain::inventory_level::InventoryLevel;
use crate::infrastructure::ec::shopify::repository::schema::common::{nodes_of, GraphQLResponse};
use crate::infrastructure::ec::shopify::repository::schema::inventory_change::{adjust_outcome, InventoryAdjustQuantitiesData};
use crate::infrastructure::ec::shopify::repository::schema::inventory_item::{InventoryItemNode, InventoryItemsData};
use crate::infrastructure::ec::shopify::repository::schema::inventory_level::{level_node_outcome, level_of_node, InventoryLevelNode};

verus! {

/// The inventory level nodes that the items carry, in order; items without one are passed over.
pub open spec fn present_levels(items: Seq<InventoryItemNode>) -> Seq<InventoryLevelNode>
    decreases items.len(),
{
    if items.len() == 0 {
        Seq::empty()
    } else {
        match items.last().inventory_level {
            Some(l) => present_levels(items.drop_last()).push(l),
            None => present_levels(items.drop_last()),
        }
    }
}

/// The inventory level found by SKU at a location: the first level that the returned
/// items carry, or none.
pub fn level_from_items(response: GraphQLResponse<InventoryItemsData>) -> (r: Result<Option<InventoryLevel>, DomainError>)
    ensures
        response.errors is Some ==> r == Err::<Option<InventoryLevel>, DomainError>(DomainError::QueryError),
        response.errors is None && response.data is None ==> r == Err::<Option<InventoryLevel>, DomainError>(DomainError::QueryError),
        response.errors is None ==> (response.data matches Some(d) ==> ({
            let levels = present_levels(nodes_of(d.inventory_items.edges@));
            &&& r is Ok <==> forall|k: int| 0 <= k < levels.len() ==> level_node_outcome(#[trigger] levels[k]) is Ok
            &&& r matches Err(e) ==> exists|k: int| 0 <= k < levels.len() && level_node_outcome(#[trigger] levels[k]) == Err::<(), DomainError>(e)
                && forall|m: int| 0 <= m < k ==> level_node_outcome(#[trigger] levels[m]) is Ok
            &&& r matches Ok(found) ==> (levels.len() == 0 <==> found is None)
            &&& r matches Ok(found) ==> (found matches Some(level) ==> level_of_node(levels[0], level))
        })),
{
    let data = match response.into_query_data(DomainError::QueryError) {
        Ok(d) => d,
        Err(e) => {
            return Err(e);
        },
    };
    let items = data.inventory_items.into_nodes();
    let ghost all = items@;
    let mut rest = items;
    let n = rest.len();
    let mut nodes: Vec<InventoryLevelNode> = Vec::new();
    let mut i: usize = 0;
    while rest.len() > 0
        invariant
            n == all.len(),
            i + rest@.len() == all.len(),
            rest@ == all.subrange(i as int, all.len() as int),
            nodes@ == present_levels(all.subrange(0, i as int)),
        decreases rest.len(),
    {
        let item = rest.remove(0);
        assert(item == all[i as int]);
        assert(all.subrange(0, i + 1).drop_last() =~= all.subrange(0, i as int));
        match item.inventory_level {
            Some(l) => {
                nodes.push(l);
            },
            None => {},
        }
        assert(rest@ =~= all.subrange(i + 1, all.len() as int));
        i = i + 1;
    }
    assert(all.subrange(0, all.len() as int) =~= all);
    let mut domains = match InventoryLevelNode::to_domains(nodes) {
        Ok(d) => d,
        Err(e) => {
            return Err(e);
        },
    };
    if domains.len() == 0 {
        return Ok(None);
    }
    Ok(Some(domains.remove(0)))
}

/// The outcome of an inventory adjustment mutation.
pub fn adjust_result(response: GraphQLResponse<InventoryAdjustQuantitiesData>) -> (r: Result<(), DomainError>)
    ensures
        r == adjust_outcome(response.errors is Some, response.data),
{
    if response.errors.is_some() {
        return Err(DomainError::QueryError);
    }
    match response.data {
        None => Err(DomainError::QueryError),
        Some(d) => {
            if d.inventory_adjust_quantities.user_errors.len() > 0 {
                Err(DomainError::QueryError)
            } else {
                Ok(())
            }
        },
    }
}


/// The inventory types whose quantities the inventory level query asks for.
pub const SHOPIFY_ALL_INVENTORY_NAMES_FOR_QUERY: &'static str = "[\"incoming\",\"available\",\"committed\",\"reserved\",\"damaged\",\"safety_stock\"]";

/// The query for the inventory items with SKU `sku` and their level at the location
/// `location_id` (given bare or as a gid).
pub fn inventory_level_by_sku_query(sku: &str, location_id: &str) -> (r: String)
    ensures
        r@ == "query { inventoryItems("@ + first_query_text(ShopifyGQLQueryHelper::SHOPIFY_QUERY_LIMIT as nat)
            + ", query: \"sku:"@ + sku@ + "\") { edges { node { id variant { id } requiresShipping tracked createdAt updatedAt inventoryLevel(locationId: \""@
            + with_gid_prefix(ShopifyGQLQueryHelper::SHOPIFY_LOCATION_GID_PREFIX@, location_id@)
            + "\") { id item { id } location { id } quantities(names: "@ + SHOPIFY_ALL_INVENTORY_NAMES_FOR_QUERY@
            + ") { name quantity } } } } "@ + ShopifyGQLQueryHelper::PAGE_INFO_FIELDS@ + " } }"@,
{
    let mut r = owned("query { inventoryItems(");
    r.append(ShopifyGQLQueryHelper::first_query().as_str());
    r.append(", query: \"sku:");
    r.append(sku);
    r.append("\") { edges { node { id variant { id } requiresShipping tracked createdAt updatedAt inventoryLevel(locationId: \"");
    r.append(ShopifyGQLQueryHelper::add_location_gid_prefix(location_id).as_str());
    r.append("\") { id item { id } location { id } quantities(names: ");
    r.append(SHOPIFY_ALL_INVENTORY_NAMES_FOR_QUERY);
    r.append(") { name quantity } } } } ");
    r.append(ShopifyGQLQueryHelper::page_info().as_str());
    r.append(" } }");
    r
}

/// The mutation that adjusts inventory quantities from its input.
pub fn inventory_adjust_mutation() -> (r: String)
    ensures
        r@ == "mutation inventoryAdjustQuantities($input: InventoryAdjustQuantitiesInput!) { inventoryAdjustQuantities(input: $input) { "@
            + ShopifyGQLHelper::USER_ERRORS_FIELDS@ + " } }"@,
{
    let mut r = owned("mutation inventoryAdjustQuantities($input: InventoryAdjustQuantitiesInput!) { inventoryAdjustQuantities(input: $input) { ");
    r.append(ShopifyGQLHelper::user_errors().as_str());
    r.append(" } }");
    r
}

} // verus!
