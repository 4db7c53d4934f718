use backend::domain::draft_order::{DraftOrder, DraftOrderStatus};
use backend::domain::error::DomainError;
use backend::domain::line_item::{Discount, DiscountValueType, LineItem};
use backend::domain::money::{Amount, CurrencyCode, Money};
use backend::domain::time::Timestamp;
use backend::infrastructure::ec::shopify::repository::draft_order::draft_order_impl::{
    completed_draft_order, completes_draft_order, created_draft_order, deleted_draft_order_id,
    draft_order_from_response, draft_orders_from_response, updated_draft_order,
};
use backend::infrastructure::ec::shopify::repository::schema::address::AddressNode;
use backend::infrastructure::ec::shopify::repository::schema::common::{
    Edges, GraphQLError, GraphQLResponse, Node, PageInfo, UserError,
};
use backend::infrastructure::ec::shopify::repository::schema::draft_order::{
    CustomerIdNode, DraftOrderData, DraftOrderNode, DraftOrdersData, OrderIdNode,
};
use backend::infrastructure::ec::shopify::repository::schema::draft_order_input::{
    DraftOrderComplete, DraftOrderCompleteData, DraftOrderCreate, DraftOrderCreateData, DraftOrderDelete,
    DraftOrderDeleteData, DraftOrderDeleteInput, DraftOrderInput, DraftOrderUpdate, DraftOrderUpdateData,
    PurchasingEntityInput,
};
use backend::infrastructure::ec::shopify::repository::schema::line_item::{DiscountNode, LineItemNode, VariantIdNode};
use backend::infrastructure::ec::shopify::repository::schema::line_item_input::{
    value_type_string, DiscountInput, LineItemInput,
};
use backend::infrastructure::ec::shopify::repository::schema::money::{amount_text, CurrencyCodeNode, MoneyBagNode, MoneyNode};

fn now() -> Timestamp {
    Timestamp { secs: 1_700_000_000, nanos: 0 }
}

fn empty_page_info() -> PageInfo {
    PageInfo { has_previous_page: false, has_next_page: false, start_cursor: None, end_cursor: None }
}

fn mock_money_node(amount: &str, currency: &str) -> MoneyBagNode {
    MoneyBagNode {
        shop_money: MoneyNode { amount: amount.to_string(), currency_code: CurrencyCodeNode(currency.to_string()) },
    }
}

fn mock_address_node(address1: Option<&str>) -> Option<AddressNode> {
    Some(AddressNode {
        address1: address1.map(|a| a.to_string()),
        address2: Some("Apt 123".to_string()),
        city: Some("Test City".to_string()),
        coordinates_validated: true,
        country: Some("Test Country".to_string()),
        first_name: Some("John".to_string()),
        last_name: Some("Doe".to_string()),
        province: Some("Test Province".to_string()),
        zip: Some("12345".to_string()),
        phone: Some("+1234567890".to_string()),
    })
}

fn mock_discount_node() -> DiscountNode {
    DiscountNode {
        title: Some("Test Discount".to_string()),
        description: "Test discount description".to_string(),
        value_bits: 10.0f32.to_bits(),
        value_type: "FIXED_AMOUNT".to_string(),
        amount_set: mock_money_node("10.00", "USD"),
    }
}

fn mock_line_item_node(id: u32) -> LineItemNode {
    LineItemNode {
        id: format!("gid://shopify/LineItem/{id}"),
        custom: false,
        variant: Some(VariantIdNode { id: format!("gid://shopify/Variant/{id}") }),
        quantity: 2,
        applied_discount: Some(mock_discount_node()),
        discounted_total_set: mock_money_node("90.00", "USD"),
        original_total_set: mock_money_node("100.00", "USD"),
    }
}

fn mock_draft_order_node(id: u32) -> DraftOrderNode {
    DraftOrderNode {
        id: format!("gid://shopify/DraftOrder/{id}"),
        name: "Test Order".to_string(),
        status: "OPEN".to_string(),
        customer: Some(CustomerIdNode { id: format!("gid://shopify/Customer/{id}") }),
        billing_address: mock_address_node(Some("123")),
        shipping_address: mock_address_node(Some("123")),
        note2: Some("Test note".to_string()),
        line_items: Edges { edges: vec![Node { node: mock_line_item_node(id) }], page_info: empty_page_info() },
        applied_discount: Some(mock_discount_node()),
        reserve_inventory_until: Some(now()),
        subtotal_price_set: mock_money_node("100.00", "USD"),
        taxes_included: true,
        tax_exempt: false,
        total_tax_set: mock_money_node("5.00", "USD"),
        total_discounts_set: mock_money_node("10.00", "USD"),
        total_shipping_price_set: mock_money_node("15.00", "USD"),
        total_price_set: mock_money_node("110.00", "USD"),
        presentment_currency_code: CurrencyCodeNode("USD".to_string()),
        order: Some(OrderIdNode { id: format!("gid://shopify/Order/{id}") }),
        owner_user_id: "Owner".to_string(),
        completed_at: None,
        created_at: now(),
        updated_at: now(),
    }
}

fn mock_money_domain() -> Money {
    Money::new(CurrencyCode::USD, Amount::new("100.0".to_string()).unwrap()).expect("Failed to create mock money")
}

fn mock_draft_order_domain(completed: bool) -> DraftOrder {
    let completed_at = if completed { Some(Timestamp::epoch()) } else { None };
    DraftOrder::new(
        "0".to_string(),
        "Test Order".to_string(),
        DraftOrderStatus::Open,
        None,
        None,
        None,
        None,
        vec![],
        None,
        None,
        mock_money_domain(),
        true,
        false,
        mock_money_domain(),
        mock_money_domain(),
        mock_money_domain(),
        mock_money_domain(),
        CurrencyCode::JPY,
        None,
        "Owner".to_string(),
        completed_at,
        now(),
        now(),
    )
    .expect("Failed to create mock draft order domain")
}

fn mock_draft_order_response() -> GraphQLResponse<DraftOrderData> {
    GraphQLResponse { data: Some(DraftOrderData { draft_order: mock_draft_order_node(0) }), errors: None }
}

fn mock_draft_orders_response(count: usize) -> GraphQLResponse<DraftOrdersData> {
    GraphQLResponse {
        data: Some(DraftOrdersData {
            draft_orders: Edges {
                edges: (0..count).map(|i| Node { node: mock_draft_order_node(i as u32) }).collect(),
                page_info: empty_page_info(),
            },
        }),
        errors: None,
    }
}

fn mock_create_response() -> GraphQLResponse<DraftOrderCreateData> {
    GraphQLResponse {
        data: Some(DraftOrderCreateData {
            draft_order_create: DraftOrderCreate { draft_order: Some(mock_draft_order_node(0)), user_errors: vec![] },
        }),
        errors: None,
    }
}

fn mock_update_response() -> GraphQLResponse<DraftOrderUpdateData> {
    GraphQLResponse {
        data: Some(DraftOrderUpdateData {
            draft_order_update: DraftOrderUpdate { draft_order: Some(mock_draft_order_node(0)), user_errors: vec![] },
        }),
        errors: None,
    }
}

fn mock_complete_response() -> GraphQLResponse<DraftOrderCompleteData> {
    GraphQLResponse {
        data: Some(DraftOrderCompleteData {
            draft_order_complete: DraftOrderComplete {
                draft_order: Some(mock_draft_order_node(0)),
                user_errors: vec![],
            },
        }),
        errors: None,
    }
}

fn mock_delete_response() -> GraphQLResponse<DraftOrderDeleteData> {
    GraphQLResponse {
        data: Some(DraftOrderDeleteData {
            draft_order_delete: DraftOrderDelete {
                deleted_id: Some("gid://shopify/DraftOrder/0".to_string()),
                user_errors: vec![],
            },
        }),
        errors: None,
    }
}

fn quantity_user_error() -> Vec<UserError> {
    vec![UserError { field: vec!["quantity".to_string()], message: "Quantity must be positive".to_string() }]
}

fn mock_with_error<T>() -> GraphQLResponse<T> {
    GraphQLResponse {
        data: None,
        errors: Some(vec![GraphQLError { message: "Some GraphQL error".to_string(), extensions: None }]),
    }
}

fn mock_with_no_data<T>() -> GraphQLResponse<T> {
    GraphQLResponse { data: None, errors: None }
}

fn assert_mock_draft_order(draft_order: &DraftOrder) {
    assert_eq!(draft_order.id, "0");
    assert_eq!(draft_order.name, "Test Order");
    assert_eq!(draft_order.status, DraftOrderStatus::Open);
    assert_eq!(draft_order.line_items.len(), 1);
    assert_eq!(draft_order.subtotal_price_set.amount.value, "100.00");
    assert!(draft_order.taxes_included);
    assert!(!draft_order.tax_exempt);
    assert_eq!(draft_order.total_tax_set.amount.value, "5.00");
    assert_eq!(draft_order.total_discounts_set.amount.value, "10.00");
    assert_eq!(draft_order.total_shipping_price_set.amount.value, "15.00");
    assert_eq!(draft_order.total_price_set.amount.value, "110.00");
    assert_eq!(draft_order.customer_id, Some("0".to_string()));
    assert_eq!(draft_order.note, Some("Test note".to_string()));
    assert_eq!(draft_order.order_id, Some("0".to_string()));
    assert_eq!(draft_order.completed_at, None);
}

#[test]
fn test_find_draft_order_by_id_success() {
    let draft_order = draft_order_from_response(mock_draft_order_response()).unwrap();
    assert_mock_draft_order(&draft_order);
    let line_item = &draft_order.line_items[0];
    assert_eq!(line_item.id, "0");
    assert_eq!(line_item.variant_id, Some("0".to_string()));
    assert_eq!(line_item.quantity, 2);
    assert_eq!(line_item.discount.as_ref().unwrap().value_type, DiscountValueType::Fixed);
    assert_eq!(f32::from_bits(line_item.discount.as_ref().unwrap().value_bits), 10.0);
}

#[test]
fn test_find_draft_order_by_id_with_graphql_error() {
    assert!(matches!(draft_order_from_response(mock_with_error()), Err(DomainError::QueryError)));
}

#[test]
fn test_find_draft_order_by_id_with_missing_data() {
    assert!(matches!(draft_order_from_response(mock_with_no_data()), Err(DomainError::NotFound)));
}

#[test]
fn draft_order_test_find_draft_orders_by_customer_id_success() {
    let draft_orders = draft_orders_from_response(mock_draft_orders_response(1)).unwrap();
    assert_eq!(draft_orders.len(), 1);
    assert_mock_draft_order(&draft_orders[0]);
}

#[test]
fn draft_order_test_find_draft_orders_by_customer_id_with_invalid_status() {
    let mut response = mock_draft_orders_response(1);
    response.data.as_mut().unwrap().draft_orders.edges[0].node.status = "INVALID_STATUS".to_string();
    assert!(matches!(draft_orders_from_response(response), Err(DomainError::ConversionError)));
}

#[test]
fn draft_order_test_find_draft_orders_by_customer_id_with_graphql_error() {
    assert!(matches!(draft_orders_from_response(mock_with_error()), Err(DomainError::QueryError)));
}

#[test]
fn draft_order_test_find_draft_orders_by_customer_id_with_missing_data() {
    assert!(matches!(draft_orders_from_response(mock_with_no_data()), Err(DomainError::QueryError)));
}

#[test]
fn draft_order_impl_test_find_draft_orders_by_customer_id_success() {
    let draft_orders = draft_orders_from_response(mock_draft_orders_response(3)).unwrap();
    assert_eq!(draft_orders.len(), 3);
    assert_mock_draft_order(&draft_orders[0]);
    assert_eq!(draft_orders[2].id, "2");
    assert_eq!(draft_orders[2].customer_id, Some("2".to_string()));
}

#[test]
fn draft_order_impl_test_find_draft_orders_by_customer_id_with_invalid_status() {
    let mut response = mock_draft_orders_response(2);
    response.data.as_mut().unwrap().draft_orders.edges[1].node.status = "INVALID_STATUS".to_string();
    assert!(matches!(draft_orders_from_response(response), Err(DomainError::ConversionError)));
}

#[test]
fn draft_order_impl_test_find_draft_orders_by_customer_id_with_graphql_error() {
    assert!(matches!(draft_orders_from_response(mock_with_error()), Err(DomainError::QueryError)));
}

#[test]
fn draft_order_impl_test_find_draft_orders_by_customer_id_with_missing_data() {
    assert!(matches!(draft_orders_from_response(mock_with_no_data()), Err(DomainError::QueryError)));
}

#[test]
fn test_create_success() {
    let input = DraftOrderInput::from_draft_order(mock_draft_order_domain(false));
    assert_eq!(input.metafields.len(), 1);
    assert!(created_draft_order(mock_create_response()).is_ok());
}

#[test]
fn test_create_with_user_errors() {
    let mut response = mock_create_response();
    response.data.as_mut().unwrap().draft_order_create.user_errors = quantity_user_error();
    assert!(matches!(created_draft_order(response), Err(DomainError::SaveError)));
}

#[test]
fn test_create_with_graphql_error() {
    assert!(matches!(created_draft_order(mock_with_error()), Err(DomainError::SaveError)));
}

#[test]
fn test_create_with_no_data() {
    assert!(matches!(created_draft_order(mock_with_no_data()), Err(DomainError::SaveError)));
}

#[test]
fn test_update_for_update_success() {
    assert!(!completes_draft_order(&mock_draft_order_domain(false)));
    assert!(updated_draft_order(mock_update_response()).is_ok());
}

#[test]
fn test_update_for_complete_success() {
    assert!(completes_draft_order(&mock_draft_order_domain(true)));
    assert!(completed_draft_order(mock_complete_response()).is_ok());
}

#[test]
fn draft_order_impl_test_update_with_user_errors() {
    let mut response = mock_update_response();
    response.data.as_mut().unwrap().draft_order_update.user_errors = quantity_user_error();
    assert!(matches!(updated_draft_order(response), Err(DomainError::SaveError)));
}

#[test]
fn draft_order_impl_test_update_with_graphql_error() {
    assert!(matches!(updated_draft_order(mock_with_error()), Err(DomainError::SaveError)));
}

#[test]
fn draft_order_impl_test_update_with_no_data() {
    assert!(matches!(updated_draft_order(mock_with_no_data()), Err(DomainError::SaveError)));
}

#[test]
fn test_delete_success() {
    let input = DraftOrderDeleteInput::from_draft_order(&mock_draft_order_domain(false));
    assert_eq!(input.id, "gid://shopify/DraftOrder/0");
    assert_eq!(deleted_draft_order_id(mock_delete_response()).unwrap(), "0");
}

#[test]
fn test_delete_with_user_errors() {
    let mut response = mock_delete_response();
    response.data.as_mut().unwrap().draft_order_delete.user_errors = quantity_user_error();
    assert!(matches!(deleted_draft_order_id(response), Err(DomainError::DeleteError)));
}

#[test]
fn test_delete_with_graphql_error() {
    assert!(matches!(deleted_draft_order_id(mock_with_error()), Err(DomainError::DeleteError)));
}

#[test]
fn test_delete_with_no_data() {
    assert!(matches!(deleted_draft_order_id(mock_with_no_data()), Err(DomainError::DeleteError)));
}

#[test]
fn a_delete_without_an_id_fails() {
    let mut response = mock_delete_response();
    response.data.as_mut().unwrap().draft_order_delete.deleted_id = None;
    assert!(matches!(deleted_draft_order_id(response), Err(DomainError::DeleteError)));
}

#[test]
fn a_save_without_a_draft_order_fails() {
    let mut response = mock_complete_response();
    response.data.as_mut().unwrap().draft_order_complete.draft_order = None;
    assert!(matches!(completed_draft_order(response), Err(DomainError::SaveError)));
}

#[test]
fn only_the_epoch_completion_time_asks_for_completion() {
    let mut order = mock_draft_order_domain(false);
    order.completed_at = Some(now());
    assert!(!completes_draft_order(&order));
    order.completed_at = Some(Timestamp { secs: 0, nanos: 0 });
    assert!(completes_draft_order(&order));
}

#[test]
fn conversion_errors_come_in_order() {
    // An unknown status is reported before a bad line item.
    let mut node = mock_draft_order_node(1);
    node.status = "DONE".to_string();
    node.presentment_currency_code = CurrencyCodeNode("XYZ".to_string());
    assert!(matches!(node.to_domain(), Err(DomainError::ConversionError)));
    // A negative total is a validation error.
    let mut node = mock_draft_order_node(1);
    node.total_tax_set = mock_money_node("-5.00", "USD");
    assert!(matches!(node.to_domain(), Err(DomainError::ValidationError)));
    // An unknown currency is a conversion error.
    let mut node = mock_draft_order_node(1);
    node.presentment_currency_code = CurrencyCodeNode("XYZ".to_string());
    assert!(matches!(node.to_domain(), Err(DomainError::ConversionError)));
    // An unknown discount value type is a conversion error.
    let mut node = mock_draft_order_node(1);
    node.line_items.edges[0].node.applied_discount.as_mut().unwrap().value_type = "HALF".to_string();
    assert!(matches!(node.to_domain(), Err(DomainError::ConversionError)));
    // An empty bare id is a validation error.
    let mut node = mock_draft_order_node(1);
    node.id = "gid://shopify/DraftOrder/".to_string();
    assert!(matches!(node.to_domain(), Err(DomainError::ValidationError)));
}

#[test]
fn statuses_map_to_the_domain() {
    for (status, expected) in
        [("OPEN", DraftOrderStatus::Open), ("COMPLETED", DraftOrderStatus::Completed), ("CANCELED", DraftOrderStatus::Canceled)]
    {
        let mut node = mock_draft_order_node(1);
        node.status = status.to_string();
        assert_eq!(node.to_domain().unwrap().status, expected);
    }
}

#[test]
fn negative_quantities_wrap_as_unsigned_and_back() {
    let mut node = mock_line_item_node(1);
    node.quantity = -1;
    let item = node.to_domain().unwrap();
    assert_eq!(item.quantity, u32::MAX);
    assert_eq!(LineItemInput::from_line_item(&item).quantity, -1);
}

#[test]
fn the_mutation_input_carries_the_draft_order() {
    let mut order = mock_draft_order_domain(false);
    order.customer_id = Some("42".to_string());
    order.note = Some("Leave at door".to_string());
    order.line_items = vec![LineItem::new(
        "7".to_string(),
        false,
        Some("9".to_string()),
        3,
        Some(
            Discount::new(
                Some("Sale".to_string()),
                None,
                5.0f32.to_bits(),
                DiscountValueType::Percentage,
                Some(mock_money_domain()),
            )
            .unwrap(),
        ),
        mock_money_domain(),
        mock_money_domain(),
    )
    .unwrap()];
    let input = DraftOrderInput::from_draft_order(order);
    assert_eq!(input.purchasing_entity.unwrap().customer_id, Some("gid://shopify/Customer/42".to_string()));
    assert_eq!(input.note, Some("Leave at door".to_string()));
    assert_eq!(input.tax_exempt, Some(false));
    assert_eq!(input.line_items.len(), 1);
    assert_eq!(input.line_items[0].variant_id, Some("gid://shopify/ProductVariant/9".to_string()));
    assert_eq!(input.line_items[0].quantity, 3);
    let discount: &DiscountInput = input.line_items[0].applied_discount.as_ref().unwrap();
    assert_eq!(discount.value_type, "PERCENTAGE");
    assert_eq!(discount.amount_with_currency.as_ref().unwrap().amount, "100.0");
    assert_eq!(discount.amount_with_currency.as_ref().unwrap().currency_code, "USD");
    assert_eq!(input.metafields[0].key, "owner_user_id");
    assert_eq!(input.metafields[0].namespace, "custom");
    assert_eq!(input.metafields[0].value, "Owner");
    assert_eq!(value_type_string(DiscountValueType::Fixed), "FIXED_AMOUNT");
    assert_eq!(
        PurchasingEntityInput::from_customer_id("gid://shopify/Customer/1").customer_id,
        Some("gid://shopify/Customer/1".to_string())
    );
}

#[test]
fn draft_orders_need_an_id() {
    let mut order = mock_draft_order_domain(false);
    order.id = String::new();
    let o = order;
    let rebuilt = DraftOrder::new(
        o.id, o.name, o.status, o.customer_id, o.billing_address, o.shipping_address, o.note, o.line_items,
        o.reserve_inventory_until, o.discount, o.subtotal_price_set, o.taxes_included, o.tax_exempt, o.total_tax_set,
        o.total_discounts_set, o.total_shipping_price_set, o.total_price_set, o.presentment_currency_code, o.order_id,
        o.owner_user_id, o.completed_at, o.created_at, o.updated_at,
    );
    assert!(matches!(rebuilt, Err(DomainError::ValidationError)));
}

#[test]
fn amount_texts_read_as_numbers() {
    assert_eq!(amount_text("12.50").unwrap(), "12.50");
    assert_eq!(amount_text("+5").unwrap(), "5");
    assert_eq!(amount_text("-0.00").unwrap(), "0");
    assert_eq!(amount_text("abc").unwrap(), "0");
    assert!(matches!(amount_text("-3"), Err(DomainError::ValidationError)));
}
