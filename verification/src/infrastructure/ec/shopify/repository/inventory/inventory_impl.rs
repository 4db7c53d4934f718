//! What the inventory repository makes of the responses it gets.
use vstd::prelude::*;

use crate::domain::error::DomainError;
use crate::infrastructure::ec::shopify::gql_helper::first_query_text;
use crate::infrastructure::ec::shopify::query_helper::ShopifyGQLQueryHelper;
use crate::infrastructure::ec::shopify::repository::location::location_impl::LOCATION_FIELDS;
use crate::text::owned;
use crate::domain::inventory_item::InventoryItem;
use crate::infrastructure::ec::shopify::repository::schema::common::{nodes_of, GraphQLResponse};
use crate::infrastructure::ec::shopify::repository::schema::inventory::{
    item_of_schema, item_schema_valid, InventoryItemNode, InventoryItemSchema, InventoryItemsData,
    VariantNodeForInventory, VariantsDataForInventory,
};

verus! {

/// The schema of an inventory item node.
pub open spec fn schema_of_item_node(node: InventoryItemNode) -> InventoryItemSchema {
    InventoryItemSchema {
        id: node.id,
        variant_id: node.variant.id,
        requires_shipping: node.requires_shipping,
        is_tracked: node.is_tracked,
        created_at: node.created_at,
        updated_at: node.updated_at,
    }
}

fn schemas_of_items(nodes: Vec<InventoryItemNode>) -> (r: Vec<InventoryItemSchema>)
    ensures
        r@ == nodes@.map_values(|n: InventoryItemNode| schema_of_item_node(n)),
{
    let ghost all = nodes@;
    let mut rest = nodes;
    let n = rest.len();
    let mut out: Vec<InventoryItemSchema> = Vec::new();
    let mut i: usize = 0;
    while rest.len() > 0
        invariant
            n == all.len(),
            i + rest@.len() == all.len(),
            rest@ == all.subrange(i as int, all.len() as int),
            out@ == all.subrange(0, i as int).map_values(|n: InventoryItemNode| schema_of_item_node(n)),
        decreases rest.len(),
    {
        let node = rest.remove(0);
        assert(node == all[i as int]);
        out.push(InventoryItemSchema::from(node));
        assert(all.subrange(0, i + 1) =~= all.subrange(0, i as int).push(all[i as int]));
        assert(rest@ =~= all.subrange(i + 1, all.len() as int));
        i = i + 1;
    }
    assert(all.subrange(0, all.len() as int) =~= all);
    out
}

/// The inventory items of a product's variants.
pub fn inventories_from_variants(response: GraphQLResponse<VariantsDataForInventory>) -> (r: Result<Vec<InventoryItem>, DomainError>)
    ensures
        response.errors is Some ==> r == Err::<Vec<InventoryItem>, DomainError>(DomainError::QueryError),
        response.errors is None && response.data is None ==> r == Err::<Vec<InventoryItem>, DomainError>(DomainError::QueryError),
        response.errors is None ==> (response.data matches Some(d) ==> ({
            let items = nodes_of(d.product_variants.edges@).map_values(|v: VariantNodeForInventory| schema_of_item_node(v.inventory_item));
            &&& r is Ok <==> forall|k: int| 0 <= k < items.len() ==> item_schema_valid(#[trigger] items[k])
            &&& r is Err ==> r == Err::<Vec<InventoryItem>, DomainError>(DomainError::ValidationError)
            &&& r matches Ok(v) ==> v@.len() == items.len() && forall|k: int| 0 <= k < items.len() ==> item_of_schema(#[trigger] items[k], v@[k])
        })),
{
    let data = match response.into_query_data(DomainError::QueryError) {
        Ok(d) => d,
        Err(e) => {
            return Err(e);
        },
    };
    let variants = data.product_variants.into_nodes();
    let ghost all = variants@;
    let mut rest = variants;
    let n = rest.len();
    let mut nodes: Vec<InventoryItemNode> = Vec::new();
    let mut i: usize = 0;
    while rest.len() > 0
        invariant
            n == all.len(),
            i + rest@.len() == all.len(),
            rest@ == all.subrange(i as int, all.len() as int),
            nodes@ == all.subrange(0, i as int).map_values(|v: VariantNodeForInventory| v.inventory_item),
        decreases rest.len(),
    {
        let v = rest.remove(0);
        assert(v == all[i as int]);
        nodes.push(v.inventory_item);
        assert(all.subrange(0, i + 1) =~= all.subrange(0, i as int).push(all[i as int]));
        assert(rest@ =~= all.subrange(i + 1, all.len() as int));
        i = i + 1;
    }
    assert(all.subrange(0, all.len() as int) =~= all);
    let schemas = schemas_of_items(nodes);
    assert(schemas@ =~= all.map_values(|v: VariantNodeForInventory| schema_of_item_node(v.inventory_item)));
    InventoryItemSchema::to_domains(schemas)
}

/// The inventory item found by SKU: the first of the items returned; none is a
/// not-found error.
pub fn inventory_from_items(response: GraphQLResponse<InventoryItemsData>) -> (r: Result<InventoryItem, DomainError>)
    ensures
        response.errors is Some ==> r == Err::<InventoryItem, DomainError>(DomainError::QueryError),
        response.errors is None && response.data is None ==> r == Err::<InventoryItem, DomainError>(DomainError::QueryError),
        response.errors is None ==> (response.data matches Some(d) ==> ({
            let items = nodes_of(d.inventory_items.edges@).map_values(|n: InventoryItemNode| schema_of_item_node(n));
            &&& (exists|k: int| 0 <= k < items.len() && !item_schema_valid(#[trigger] items[k])) ==> r == Err::<InventoryItem, DomainError>(DomainError::ValidationError)
            &&& (forall|k: int| 0 <= k < items.len() ==> item_schema_valid(#[trigger] items[k])) ==> {
                &&& items.len() == 0 ==> r == Err::<InventoryItem, DomainError>(DomainError::NotFound)
                &&& items.len() > 0 ==> (r matches Ok(item) && item_of_schema(items[0], item))
            }
        })),
{
    let data = match response.into_query_data(DomainError::QueryError) {
        Ok(d) => d,
        Err(e) => {
            return Err(e);
        },
    };
    let nodes = data.inventory_items.into_nodes();
    let schemas = schemas_of_items(nodes);
    let mut domains = match InventoryItemSchema::to_domains(schemas) {
        Ok(d) => d,
        Err(e) => {
            return Err(e);
        },
    };
    if domains.len() == 0 {
        return Err(DomainError::NotFound);
    }
    Ok(domains.remove(0))
}


/// The inventory types whose quantities the inventory queries ask for.
pub const SHOPIFY_ALL_INVENTORY_NAMES_FOR_QUERY: &'static str = "\"incoming,available,committed,reserved,damaged,safety_stock\"";

/// The fields of an inventory item with its level at the location `location_id`.
pub open spec fn inventory_item_fields_text(location_id: Seq<char>) -> Seq<char> {
    "id variant { id } inventoryLevel(locationId: \""@ + location_id + "\") { id item { id } location { "@ + LOCATION_FIELDS@
        + " } quantities(names: "@ + SHOPIFY_ALL_INVENTORY_NAMES_FOR_QUERY@ + ") { name quantity } } requiresShipping tracked createdAt updatedAt"@
}

fn inventory_item_fields(location_id: &str) -> (r: String)
    ensures
        r@ == inventory_item_fields_text(location_id@),
{
    let mut r = owned("id variant { id } inventoryLevel(locationId: \"");
    r.append(location_id);
    r.append("\") { id item { id } location { ");
    r.append(LOCATION_FIELDS);
    r.append(" } quantities(names: ");
    r.append(SHOPIFY_ALL_INVENTORY_NAMES_FOR_QUERY);
    r.append(") { name quantity } } requiresShipping tracked createdAt updatedAt");
    r
}

/// The query for the inventory items of a product's variants at a location.
pub fn inventories_by_product_id_query(product_id: &str, location_id: &str) -> (r: String)
    ensures
        r@ == "query { productVariants("@ + first_query_text(ShopifyGQLQueryHelper::SHOPIFY_QUERY_LIMIT as nat)
            + ", query: \"product_id:'"@ + product_id@ + "'\") { edges { node { id inventoryItem { "@
            + inventory_item_fields_text(location_id@) + " } } } "@ + ShopifyGQLQueryHelper::PAGE_INFO_FIELDS@ + " } }"@,
{
    let mut r = owned("query { productVariants(");
    r.append(ShopifyGQLQueryHelper::first_query().as_str());
    r.append(", query: \"product_id:'");
    r.append(product_id);
    r.append("'\") { edges { node { id inventoryItem { ");
    r.append(inventory_item_fields(location_id).as_str());
    r.append(" } } } ");
    r.append(ShopifyGQLQueryHelper::page_info().as_str());
    r.append(" } }");
    r
}

/// The query for the inventory items with SKU `sku` at a location.
pub fn inventories_by_sku_query(sku: &str, location_id: &str) -> (r: String)
    ensures
        r@ == "query { inventoryItems("@ + first_query_text(ShopifyGQLQueryHelper::SHOPIFY_QUERY_LIMIT as nat)
            + ", query: \"sku:"@ + sku@ + "\") { edges { node { "@ + inventory_item_fields_text(location_id@) + " } } "@
            + ShopifyGQLQueryHelper::PAGE_INFO_FIELDS@ + " } }"@,
{
    let mut r = owned("query { inventoryItems(");
    r.append(ShopifyGQLQueryHelper::first_query().as_str());
    r.append(", query: \"sku:");
    r.append(sku);
    r.append("\") { edges { node { ");
    r.append(inventory_item_fields(location_id).as_str());
    r.append(" } } ");
    r.append(ShopifyGQLQueryHelper::page_info().as_str());
    r.append(" } }");
    r
}

} // verus!
