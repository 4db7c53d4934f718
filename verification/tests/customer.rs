use backend::domain::customer::CustomerStatus;
use backend::domain::error::DomainError;
use backend::domain::media::AssociatedId;
use backend::domain::time::Timestamp;
use backend::infrastructure::ec::shopify::repository::customer::customer_impl::customer_from_response;
use backend::infrastructure::ec::shopify::repository::schema::address::AddressNode;
use backend::infrastructure::ec::shopify::repository::schema::common::{
    Edges, GraphQLError, GraphQLResponse, Metafield, Node, PageInfo,
};
use backend::infrastructure::ec::shopify::repository::schema::customer::{CustomerImageNode, CustomerNode, CustomersData};

fn now() -> Timestamp {
    Timestamp { secs: 1_700_000_000, nanos: 0 }
}

fn mock_address(address1: Option<&str>) -> AddressNode {
    AddressNode {
        address1: address1.map(|a| a.to_string()),
        address2: Some("Apt 123".to_string()),
        city: Some("Test City".to_string()),
        coordinates_validated: true,
        country: Some("Test Country".to_string()),
        first_name: Some("John".to_string()),
        last_name: Some("Doe".to_string()),
        province: Some("Test Province".to_string()),
        zip: Some("12345".to_string()),
        phone: Some("+1234567890".to_string()),
    }
}

fn mock_image(id: u32) -> CustomerImageNode {
    CustomerImageNode {
        id: Some(format!("gid://shopify/MediaImage/{id}")),
        alt_text: Some(format!("Alt text for image {id}")),
        url: format!("https://example.com/MediaImage/{id}.jpg"),
        height: Some(600),
        width: Some(500),
    }
}

fn mock_customer(id: u32) -> CustomerNode {
    CustomerNode {
        id: format!("gid://shopify/Customer/{id}"),
        user_id: Metafield { value: format!("user_{id}") },
        addresses: vec![mock_address(Some("123")), mock_address(Some("456"))],
        can_delete: true,
        default_address: Some(mock_address(Some("123"))),
        display_name: "Test Customer".to_string(),
        email: Some("test@example.com".to_string()),
        first_name: Some("Test".to_string()),
        last_name: Some("Customer".to_string()),
        image: Some(mock_image(id)),
        phone: Some("+1234567890".to_string()),
        note: Some("Test note".to_string()),
        state: "ENABLED".to_string(),
        verified_email: true,
        created_at: now(),
        updated_at: now(),
    }
}

fn mock_customers_response(count: usize) -> GraphQLResponse<CustomersData> {
    GraphQLResponse {
        data: Some(CustomersData {
            customers: Edges {
                edges: (0..count).map(|i| Node { node: mock_customer(i as u32) }).collect(),
                page_info: PageInfo { has_previous_page: false, has_next_page: false, start_cursor: None, end_cursor: None },
            },
        }),
        errors: None,
    }
}

fn mock_with_error<T>() -> GraphQLResponse<T> {
    GraphQLResponse {
        data: None,
        errors: Some(vec![GraphQLError { message: "Some GraphQL error".to_string(), extensions: None }]),
    }
}

fn mock_with_no_data<T>() -> GraphQLResponse<T> {
    GraphQLResponse { data: None, errors: None }
}

#[test]
fn test_find_customer_by_email_success() {
    let customer = customer_from_response(mock_customers_response(1)).unwrap();
    assert_eq!(customer.id, "0");
    assert_eq!(customer.user_id, "user_0");
    assert_eq!(customer.email.as_ref().unwrap().value(), "test@example.com");
    assert_eq!(customer.first_name.clone().unwrap(), "Test");
    assert_eq!(customer.last_name.clone().unwrap(), "Customer");
    assert_eq!(customer.phone.clone().unwrap().value(), "+1234567890");
    assert_eq!(customer.note.clone().unwrap(), "Test note");
    assert_eq!(customer.status, CustomerStatus::Active);
    assert!(customer.verified_email);
    assert_eq!(customer.addresses.len(), 2);
    let image = customer.image.as_ref().unwrap();
    assert_eq!(image.id, "0");
    match &image.associated_id {
        Some(AssociatedId::Customer(id)) => assert_eq!(id, "gid://shopify/MediaImage/0"),
        other => panic!("Expected a customer owner, got {other:?}"),
    }
}

#[test]
fn test_find_customer_by_email_with_invalid_state() {
    let mut invalid = mock_customers_response(1);
    invalid.data.as_mut().unwrap().customers.edges[0].node.state = "INVALID_STATE".to_string();
    assert!(matches!(customer_from_response(invalid), Err(DomainError::ConversionError)));
}

#[test]
fn test_find_customer_by_email_with_graphql_error() {
    assert!(matches!(customer_from_response(mock_with_error()), Err(DomainError::QueryError)));
}

#[test]
fn test_find_customer_by_email_with_missing_data() {
    assert!(matches!(customer_from_response(mock_with_no_data()), Err(DomainError::QueryError)));
}

#[test]
fn no_customer_for_the_email_is_not_found() {
    assert!(matches!(customer_from_response(mock_customers_response(0)), Err(DomainError::NotFound)));
}

#[test]
fn the_first_customer_is_returned() {
    let customer = customer_from_response(mock_customers_response(3)).unwrap();
    assert_eq!(customer.id, "0");
}

#[test]
fn disabled_customers_are_inactive_and_empty_contacts_refused() {
    let mut node = mock_customer(1);
    node.state = "DISABLED".to_string();
    node.image = None;
    let customer = node.to_domain().unwrap();
    assert_eq!(customer.status, CustomerStatus::Inactive);
    assert!(customer.image.is_none());
    let mut node = mock_customer(1);
    node.email = Some(String::new());
    assert!(matches!(node.to_domain(), Err(DomainError::ValidationError)));
    let mut node = mock_customer(1);
    node.phone = Some(String::new());
    assert!(matches!(node.to_domain(), Err(DomainError::ValidationError)));
}

#[test]
fn an_image_without_an_id_is_left_out() {
    let mut node = mock_customer(1);
    if let Some(image) = node.image.as_mut() {
        image.id = None;
        image.url = String::new();
    }
    let customer = node.to_domain().unwrap();
    assert!(customer.image.is_none());
}
