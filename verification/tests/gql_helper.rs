use backend::infrastructure::ec::shopify::gql_helper::ShopifyGQLHelper;
use backend::infrastructure::ec::shopify::query_helper::ShopifyGQLQueryHelper;

#[test]
fn first_query_uses_the_query_limit() {
    assert_eq!(ShopifyGQLHelper::first_query(), "first: 250");
    assert_eq!(ShopifyGQLQueryHelper::first_query(), "first: 250");
}

#[test]
fn fragments_are_the_fixed_field_lists() {
    assert_eq!(ShopifyGQLHelper::page_info(), ShopifyGQLHelper::PAGE_INFO_FIELDS);
    assert!(ShopifyGQLHelper::page_info().contains("hasNextPage"));
    assert!(ShopifyGQLHelper::user_errors().starts_with("userErrors {"));
    assert!(ShopifyGQLHelper::address_fields().starts_with("address1"));
    assert!(ShopifyGQLHelper::money_bag_fields().contains("currencyCode"));
    assert_eq!(ShopifyGQLQueryHelper::page_info(), ShopifyGQLHelper::page_info());
}

#[test]
fn add_prefix_to_bare_id() {
    assert_eq!(ShopifyGQLHelper::add_inventory_item_gid_prefix("123"), "gid://shopify/InventoryItem/123");
    assert_eq!(ShopifyGQLHelper::add_location_gid_prefix("7"), "gid://shopify/Location/7");
    assert_eq!(ShopifyGQLHelper::add_draft_order_gid_prefix("9"), "gid://shopify/DraftOrder/9");
    assert_eq!(ShopifyGQLHelper::add_customer_gid_prefix("5"), "gid://shopify/Customer/5");
    assert_eq!(ShopifyGQLHelper::add_product_variant_gid_prefix("3"), "gid://shopify/ProductVariant/3");
    assert_eq!(ShopifyGQLQueryHelper::add_inventory_item_gid_prefix("1"), "gid://shopify/InventoryItem/1");
    assert_eq!(ShopifyGQLQueryHelper::add_location_gid_prefix("2"), "gid://shopify/Location/2");
}

#[test]
fn add_prefix_keeps_a_gid() {
    let gid = "gid://shopify/Location/42";
    assert_eq!(ShopifyGQLHelper::add_location_gid_prefix(gid), gid);
    let once = ShopifyGQLHelper::add_customer_gid_prefix("8");
    assert_eq!(ShopifyGQLHelper::add_customer_gid_prefix(&once), once);
}

#[test]
fn remove_prefix_gives_the_bare_id() {
    assert_eq!(ShopifyGQLHelper::remove_gid_prefix("gid://shopify/Product/123"), "123");
    assert_eq!(ShopifyGQLHelper::remove_gid_prefix("gid://shopify/InventoryLevel/1?inventory_item_id=2"), "1");
    assert_eq!(ShopifyGQLHelper::remove_gid_prefix("456"), "456");
    assert_eq!(ShopifyGQLHelper::remove_gid_prefix(""), "");
    assert_eq!(ShopifyGQLHelper::remove_gid_prefix("a/b/"), "");
    assert_eq!(ShopifyGQLQueryHelper::remove_gid_prefix("gid://shopify/MediaImage/9"), "9");
}

#[test]
fn remove_undoes_add() {
    for id in ["0", "abc", "123456"] {
        assert_eq!(ShopifyGQLHelper::remove_gid_prefix(&ShopifyGQLHelper::add_draft_order_gid_prefix(id)), id);
        assert_eq!(ShopifyGQLQueryHelper::remove_gid_prefix(&ShopifyGQLQueryHelper::add_location_gid_prefix(id)), id);
    }
}
