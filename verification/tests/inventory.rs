use backend::domain::error::DomainError;
use backend::domain::inventory_change::{Change, InventoryChange, InventoryChangeReason, LedgerDocumentUri};
use backend::domain::inventory_level::InventoryType;
use backend::domain::time::Timestamp;
use backend::infrastructure::ec::shopify::repository::inventory::inventory_impl::{
    inventories_from_variants, inventory_from_items,
};
use backend::infrastructure::ec::shopify::repository::inventory_level::inventory_level_impl::{
    adjust_result, level_from_items,
};
use backend::infrastructure::ec::shopify::repository::schema::common::{
    Edges, GraphQLError, GraphQLResponse, Node, PageInfo, UserError,
};
use backend::infrastructure::ec::shopify::repository::schema::inventory as legacy;
use backend::infrastructure::ec::shopify::repository::schema::inventory_change::{
    InventoryAdjustQuantities, InventoryAdjustQuantitiesData, InventoryAdjustQuantitiesInput,
};
use backend::infrastructure::ec::shopify::repository::schema::inventory_item::{
    InventoryItemNode, InventoryItemsData, VariantIdNode,
};
use backend::infrastructure::ec::shopify::repository::schema::inventory_level::{
    InventoryItemIdNode, InventoryLevelNode, LocationIdNode, QuantityNode,
};
use backend::infrastructure::ec::shopify::repository::schema::location::{LocationAddressNode, LocationNode};

fn now() -> Timestamp {
    Timestamp { secs: 1_700_000_000, nanos: 0 }
}

fn empty_page_info() -> PageInfo {
    PageInfo { has_previous_page: false, has_next_page: false, start_cursor: None, end_cursor: None }
}

fn mock_with_error<T>() -> GraphQLResponse<T> {
    GraphQLResponse {
        data: None,
        errors: Some(vec![GraphQLError { message: "Some GraphQL error".to_string(), extensions: None }]),
    }
}

fn mock_with_no_data<T>() -> GraphQLResponse<T> {
    GraphQLResponse { data: None, errors: None }
}

fn mock_quantities() -> Vec<QuantityNode> {
    vec![
        QuantityNode { quantity: 1, name: "available".to_string() },
        QuantityNode { quantity: 2, name: "committed".to_string() },
        QuantityNode { quantity: 3, name: "reserved".to_string() },
    ]
}

fn mock_location_node(id: u32) -> LocationNode {
    LocationNode {
        id: format!("gid://shopify/Location/{id}"),
        name: "Some location".to_string(),
        is_active: true,
        fulfills_online_orders: true,
        address: LocationAddressNode {
            address1: None,
            address2: None,
            city: None,
            country: None,
            province: None,
            zip: None,
        },
        suggested_addresses: vec![],
    }
}

fn mock_old_inventory(id: u32) -> legacy::InventoryItemNode {
    legacy::InventoryItemNode {
        id: format!("gid://shopify/InventoryItem/{id}"),
        variant: legacy::VariantIdNode { id: format!("gid://shopify/ProductVariant/{id}") },
        inventory_level: Some(legacy::InventoryLevelNode {
            id: format!("gid://shopify/InventoryLevel/{id}"),
            item: legacy::InventoryItemIdNode { id: format!("gid://shopify/InventoryItem/{id}") },
            location: mock_location_node(id),
            quantities: vec![
                legacy::QuantityNode { quantity: 1, name: "available".to_string() },
                legacy::QuantityNode { quantity: 2, name: "committed".to_string() },
            ],
        }),
        requires_shipping: true,
        is_tracked: true,
        created_at: now(),
        updated_at: now(),
    }
}

fn mock_inventories_response_for_variant_data(count: usize) -> GraphQLResponse<legacy::VariantsDataForInventory> {
    GraphQLResponse {
        data: Some(legacy::VariantsDataForInventory {
            product_variants: Edges {
                edges: (0..count)
                    .map(|i| Node { node: legacy::VariantNodeForInventory { inventory_item: mock_old_inventory(i as u32) } })
                    .collect(),
                page_info: empty_page_info(),
            },
        }),
        errors: None,
    }
}

fn mock_inventories_response_for_inventory_items_data(count: usize) -> GraphQLResponse<legacy::InventoryItemsData> {
    GraphQLResponse {
        data: Some(legacy::InventoryItemsData {
            inventory_items: Edges {
                edges: (0..count).map(|i| Node { node: mock_old_inventory(i as u32) }).collect(),
                page_info: empty_page_info(),
            },
        }),
        errors: None,
    }
}

fn mock_inventory_item_node(id: u32) -> InventoryItemNode {
    InventoryItemNode {
        id: format!("gid://shopify/InventoryItem/{id}"),
        variant: VariantIdNode { id: format!("gid://shopify/ProductVariant/{id}") },
        inventory_level: Some(InventoryLevelNode {
            id: format!("gid://shopify/InventoryLevel/{id}"),
            item: InventoryItemIdNode { id: format!("gid://shopify/InventoryItem/{id}") },
            location: LocationIdNode { id: format!("gid://shopify/Location/{id}") },
            quantities: mock_quantities(),
        }),
        inventory_levels: Edges { edges: vec![], page_info: empty_page_info() },
        requires_shipping: true,
        is_tracked: true,
        created_at: now(),
        updated_at: now(),
    }
}

fn mock_inventory_items_response(count: usize) -> GraphQLResponse<InventoryItemsData> {
    GraphQLResponse {
        data: Some(InventoryItemsData {
            inventory_items: Edges {
                edges: (0..count).map(|i| Node { node: mock_inventory_item_node(i as u32) }).collect(),
                page_info: empty_page_info(),
            },
        }),
        errors: None,
    }
}

fn mock_adjust_response(user_errors: Vec<UserError>) -> GraphQLResponse<InventoryAdjustQuantitiesData> {
    GraphQLResponse {
        data: Some(InventoryAdjustQuantitiesData {
            inventory_adjust_quantities: InventoryAdjustQuantities { inventory_adjustment_group: None, user_errors },
        }),
        errors: None,
    }
}

fn mock_inventory_change_domain() -> InventoryChange {
    InventoryChange {
        name: InventoryType::Committed,
        reason: InventoryChangeReason::Correction,
        changes: vec![Change {
            delta: 10,
            inventory_item_id: "inventory_item_123".to_string(),
            ledger_document_uri: Some(LedgerDocumentUri { value: "https://example.com/document".to_string() }),
            location_id: "location_456".to_string(),
        }],
    }
}

#[test]
fn get_inventories_by_product_id_success() {
    let inventories = inventories_from_variants(mock_inventories_response_for_variant_data(10)).unwrap();
    assert_eq!(inventories.len(), 10);
    assert_eq!(inventories[0].id, "0");
    assert_eq!(inventories[0].variant_id, "0");
    assert!(inventories[0].requires_shipping);
    assert!(inventories[0].is_tracked);
    assert_eq!(inventories[9].id, "9");
    assert_eq!(inventories[9].variant_id, "9");
}

#[test]
fn get_inventories_by_product_id_with_invalid_domain_conversion() {
    let mut invalid = mock_inventories_response_for_variant_data(1);
    invalid.data.as_mut().unwrap().product_variants.edges[0].node.inventory_item.variant.id = "".to_string();
    assert!(matches!(inventories_from_variants(invalid), Err(DomainError::ValidationError)));
}

#[test]
fn get_inventories_by_product_id_with_graphql_error() {
    assert!(matches!(inventories_from_variants(mock_with_error()), Err(DomainError::QueryError)));
}

#[test]
fn get_inventories_by_product_id_with_missing_data() {
    assert!(matches!(inventories_from_variants(mock_with_no_data()), Err(DomainError::QueryError)));
}

#[test]
fn get_inventories_by_sku_success() {
    let inventory = inventory_from_items(mock_inventories_response_for_inventory_items_data(1)).unwrap();
    assert_eq!(inventory.id, "0");
    assert_eq!(inventory.variant_id, "0");
}

#[test]
fn get_inventories_by_sku_with_graphql_error() {
    assert!(matches!(inventory_from_items(mock_with_error()), Err(DomainError::QueryError)));
}

#[test]
fn get_inventories_by_sku_with_missing_data() {
    assert!(matches!(inventory_from_items(mock_with_no_data()), Err(DomainError::QueryError)));
}

#[test]
fn an_unknown_sku_is_not_found() {
    assert!(matches!(
        inventory_from_items(mock_inventories_response_for_inventory_items_data(0)),
        Err(DomainError::NotFound)
    ));
}

#[test]
fn test_find_inventory_level_by_sku_success() {
    let level = level_from_items(mock_inventory_items_response(1)).unwrap().unwrap();
    assert_eq!(level.id, "0");
    assert_eq!(level.inventory_item_id, "0");
    assert_eq!(level.location_id, "0");
    assert_eq!(level.quantities.iter().map(|q| q.quantity).collect::<Vec<u32>>(), vec![1, 2, 3]);
    assert_eq!(level.quantities[0].inventory_type, InventoryType::Available);
    assert_eq!(level.quantities[1].inventory_type, InventoryType::Committed);
    assert_eq!(level.quantities[2].inventory_type, InventoryType::Reserved);
}

#[test]
fn test_find_inventory_level_by_sku_with_invalid_inventory_type() {
    let mut invalid = mock_inventory_items_response(1);
    invalid.data.as_mut().unwrap().inventory_items.edges[0].node.inventory_level.as_mut().unwrap().quantities[0].name =
        "invalid".to_string();
    assert!(matches!(level_from_items(invalid), Err(DomainError::ConversionError)));
}

#[test]
fn test_find_inventory_level_by_sku_with_graphql_error() {
    assert!(matches!(level_from_items(mock_with_error()), Err(DomainError::QueryError)));
}

#[test]
fn test_find_inventory_level_by_sku_with_missing_data() {
    assert!(matches!(level_from_items(mock_with_no_data()), Err(DomainError::QueryError)));
}

#[test]
fn items_without_a_level_give_none() {
    let mut response = mock_inventory_items_response(2);
    for edge in response.data.as_mut().unwrap().inventory_items.edges.iter_mut() {
        edge.node.inventory_level = None;
    }
    assert!(level_from_items(response).unwrap().is_none());
}

#[test]
fn test_update_success() {
    let input = InventoryAdjustQuantitiesInput::from_change(mock_inventory_change_domain());
    assert_eq!(input.name, "committed");
    assert_eq!(input.reason, "correction");
    assert_eq!(input.changes[0].delta, 10);
    assert_eq!(input.changes[0].inventory_item_id, "gid://shopify/InventoryItem/inventory_item_123");
    assert_eq!(input.changes[0].location_id, "gid://shopify/Location/location_456");
    assert_eq!(input.changes[0].ledger_document_uri, Some("https://example.com/document".to_string()));
    assert!(adjust_result(mock_adjust_response(vec![])).is_ok());
}

#[test]
fn inventory_level_impl_test_update_with_user_errors() {
    let errors = vec![UserError { field: vec!["quantity".to_string()], message: "Quantity must be positive".to_string() }];
    assert!(matches!(adjust_result(mock_adjust_response(errors)), Err(DomainError::QueryError)));
}

#[test]
fn inventory_level_impl_test_update_with_graphql_error() {
    assert!(matches!(adjust_result(mock_with_error()), Err(DomainError::QueryError)));
}

#[test]
fn inventory_level_impl_test_update_with_no_data() {
    assert!(matches!(adjust_result(mock_with_no_data()), Err(DomainError::QueryError)));
}
