use backend::infrastructure::ec::shopify::gql_helper::ShopifyGQLHelper;
use backend::infrastructure::ec::shopify::query_service::product::product_impl::related_products_query;
use backend::infrastructure::ec::shopify::repository::customer::customer_impl::customer_by_email_query;
use backend::infrastructure::ec::shopify::repository::draft_order::draft_order_impl::{
    draft_order_by_id_query, draft_order_complete_mutation, draft_order_create_mutation, draft_order_delete_mutation,
    draft_order_fields, draft_order_update_mutation, draft_orders_by_customer_query,
};
use backend::infrastructure::ec::shopify::repository::inventory::inventory_impl::{
    inventories_by_product_id_query, inventories_by_sku_query,
};
use backend::infrastructure::ec::shopify::repository::inventory_level::inventory_level_impl::{
    inventory_adjust_mutation, inventory_level_by_sku_query,
};
use backend::infrastructure::ec::shopify::repository::location::location_impl::{location_ids_query, locations_page_query};
use backend::infrastructure::ec::shopify::repository::media::media_impl::{media_by_product_ids_query, media_query};
use backend::infrastructure::ec::shopify::repository::pagination::after_query;
use backend::infrastructure::ec::shopify::repository::product::product_impl::{
    product_fields, product_variants_query, products_page_query, variants_page_query,
};

#[test]
fn page_queries_continue_after_the_cursor() {
    assert_eq!(after_query(&None), "");
    assert_eq!(after_query(&Some("abc".to_string())), "after: \"abc\"");
    let first = locations_page_query(&None);
    assert!(first.starts_with("query { locations(first: 250, ) {"));
    let next = locations_page_query(&Some("c1".to_string()));
    assert!(next.starts_with("query { locations(first: 250, after: \"c1\") {"));
    assert!(location_ids_query().starts_with("query { locations(first: 250) { edges { node { id } } pageInfo {"));
    assert!(products_page_query(&Some("p".to_string())).contains("products(first: 250, after: \"p\")"));
    assert!(variants_page_query(&None, "1,2").contains("query: \"product_ids:'1,2'\""));
}

#[test]
fn queries_embed_their_filters() {
    assert!(product_variants_query("42").contains("query: \"product_id:'42'\""));
    assert!(product_fields().contains("description(truncateAt: 1000)"));
    assert!(media_query("7").contains("files(first: 250, query: \"product_id:'7'\")"));
    assert!(customer_by_email_query("a@b.c").contains("customers(first: 250, query: \"email:a@b.c\")"));
    assert!(customer_by_email_query("a@b.c").contains("user_id: metafield(key: \"user_id\", namespace: \"custom\") { value }"));
    assert!(draft_orders_by_customer_query("5").contains("query: \"customer_id:5\""));
    assert!(inventories_by_sku_query("SKU1", "9").contains("inventoryLevel(locationId: \"9\")"));
    assert!(inventories_by_product_id_query("3", "9").contains("product_id:'3'"));
    assert!(related_products_query("cat").contains("sortKey: UPDATED_AT, query: \"category_id:cat\""));
}

#[test]
fn ids_get_their_gid_prefix_in_queries() {
    assert!(draft_order_by_id_query("11").starts_with("query { draftOrder(id: \"gid://shopify/DraftOrder/11\") {"));
    assert!(draft_order_by_id_query("gid://shopify/DraftOrder/11").starts_with("query { draftOrder(id: \"gid://shopify/DraftOrder/11\") {"));
    assert!(draft_order_complete_mutation("4").contains("draftOrderComplete(id: \"gid://shopify/DraftOrder/4\")"));
    assert!(inventory_level_by_sku_query("S", "8").contains("inventoryLevel(locationId: \"gid://shopify/Location/8\")"));
}

#[test]
fn mutations_ask_for_user_errors() {
    for m in [draft_order_create_mutation(), draft_order_update_mutation(), draft_order_delete_mutation(), inventory_adjust_mutation()] {
        assert!(m.starts_with("mutation "));
        assert!(m.contains(ShopifyGQLHelper::USER_ERRORS_FIELDS));
    }
    assert!(draft_order_fields().contains("owner_user_id: metafield(key: \"owner_user_id\", namespace: \"custom\") { value }"));
}

#[test]
fn media_of_several_products_are_aliased() {
    let q = media_by_product_ids_query(&vec!["gid://shopify/Product/1".to_string(), "2".to_string()]);
    assert!(q.starts_with("query { i0: files(first: 250, query: \"product_id:'1'\")"));
    assert!(q.contains("i1: files(first: 250, query: \"product_id:'2'\")"));
    assert!(q.ends_with("}"));
    assert_eq!(media_by_product_ids_query(&vec![]), "query { }");
}
