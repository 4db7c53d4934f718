use backend::domain::error::DomainError;
use backend::domain::location::Location;
use backend::infrastructure::ec::shopify::repository::location::location_impl::{
    location_ids_from_response, location_page, locations_in_window,
};
use backend::infrastructure::ec::shopify::repository::pagination::{PageOutcome, Pager};
use backend::infrastructure::ec::shopify::repository::schema::common::{
    Edges, GraphQLError, GraphQLResponse, Node, PageInfo,
};
use backend::infrastructure::ec::shopify::repository::schema::location::{
    LocationAddressNode, LocationNode, LocationsData,
};

fn mock_address_node(address1: Option<String>) -> LocationAddressNode {
    LocationAddressNode {
        address1,
        address2: Some("Apt 123".to_string()),
        city: Some("Test City".to_string()),
        country: Some("Test Country".to_string()),
        province: Some("Test Province".to_string()),
        zip: Some("12345".to_string()),
    }
}

fn mock_location_node(id: u32) -> LocationNode {
    LocationNode {
        id: format!("gid://shopify/Location/{id}"),
        name: "Some location".to_string(),
        is_active: true,
        fulfills_online_orders: true,
        address: mock_address_node(Some(id.to_string())),
        suggested_addresses: vec![mock_address_node(Some(id.to_string()))],
    }
}

fn mock_locations_response(start: usize, end: usize, has_next_page: bool) -> GraphQLResponse<LocationsData> {
    let nodes: Vec<Node<LocationNode>> = (start..end).map(|i| Node { node: mock_location_node(i as u32) }).collect();
    GraphQLResponse {
        data: Some(LocationsData {
            locations: Edges {
                edges: nodes,
                page_info: PageInfo {
                    has_previous_page: false,
                    has_next_page,
                    start_cursor: None,
                    end_cursor: if has_next_page { Some("end_cursor".to_string()) } else { None },
                },
            },
        }),
        errors: None,
    }
}

fn mock_with_error<T>() -> GraphQLResponse<T> {
    GraphQLResponse {
        data: None,
        errors: Some(vec![GraphQLError { message: "Some GraphQL error".to_string(), extensions: None }]),
    }
}

fn mock_with_no_data<T>() -> GraphQLResponse<T> {
    GraphQLResponse { data: None, errors: None }
}

/// Runs the page requests of a location window against prepared responses, as the
/// repository does against the API.
fn find_locations(
    limit: Option<u32>,
    offset: Option<u32>,
    responses: Vec<GraphQLResponse<LocationsData>>,
) -> Result<Vec<Location>, DomainError> {
    let mut pager = Pager::new(limit, offset, 250);
    let mut responses = responses.into_iter();
    let mut kept: Vec<LocationNode> = Vec::new();
    while pager.next_request().is_some() {
        let page = location_page(responses.next().expect("a response for every request"))?;
        let outcome = pager.on_page(page.edges.len(), page.page_info.has_next_page, page.page_info.end_cursor.clone());
        match outcome {
            PageOutcome::Stop => break,
            PageOutcome::Skip => continue,
            PageOutcome::Take => kept.extend(page.into_nodes()),
        }
    }
    locations_in_window(&pager.window, kept)
}

#[test]
fn test_find_locations_no_pagination_success() {
    let result = find_locations(None, None, vec![mock_locations_response(0, 250, false)]);
    assert!(result.is_ok());
    let locations = result.unwrap();
    assert_eq!(locations.len(), 250);
    assert_eq!(locations[0].id, "0");
    assert_eq!(locations[0].name, "Some location");
    assert!(locations[0].is_active);
    assert!(locations[0].fulfills_online_orders);
    assert_eq!(locations[0].address.address1, Some("0".to_string()));
    assert_eq!(locations[0].address.address2, Some("Apt 123".to_string()));
    assert_eq!(locations[9].id, "9");
    assert_eq!(locations[9].address.address1, Some("9".to_string()));
}

#[test]
fn test_find_locations_pagination_success() {
    let result = find_locations(Some(10), Some(20), vec![mock_locations_response(0, 250, false)]);
    assert!(result.is_ok());
    let locations = result.unwrap();
    assert_eq!(locations.len(), 10);
    assert_eq!(locations[0].id, "20");
    assert_eq!(locations[0].address.address1, Some("20".to_string()));
    assert_eq!(locations[9].id, "29");
    assert_eq!(locations[9].address.address1, Some("29".to_string()));
}

#[test]
fn test_find_locations_multiple_retrievals_success() {
    let result = find_locations(
        Some(480),
        Some(20),
        vec![mock_locations_response(0, 250, true), mock_locations_response(250, 500, false)],
    );
    assert!(result.is_ok());
    let locations = result.unwrap();
    assert_eq!(locations.len(), 480);
    assert_eq!(locations[0].id, "20");
    assert_eq!(locations[479].id, "499");
}

#[test]
fn test_find_locations_empty_success() {
    let result = find_locations(None, None, vec![mock_locations_response(0, 0, false)]);
    assert!(result.is_ok());
    assert!(result.unwrap().is_empty());
}

#[test]
fn test_find_locations_with_graphql_error() {
    let result = find_locations(None, None, vec![mock_with_error()]);
    assert!(matches!(result, Err(DomainError::QueryError)));
}

#[test]
fn test_find_locations_with_missing_data() {
    let result = find_locations(None, None, vec![mock_with_no_data()]);
    assert!(matches!(result, Err(DomainError::QueryError)));
}

#[test]
fn full_pages_before_the_offset_are_skipped() {
    // offset 300, limit 300: two pages may be fetched; the first lies wholly before the
    // offset and is dropped, the window is cut out of the second.
    let result = find_locations(
        Some(300),
        Some(300),
        vec![mock_locations_response(0, 250, true), mock_locations_response(250, 500, false)],
    );
    let locations = result.unwrap();
    assert_eq!(locations.len(), 200);
    assert_eq!(locations[0].id, "300");
    assert_eq!(locations[199].id, "499");
}

#[test]
fn only_the_pages_the_window_allows_are_fetched() {
    // offset 300, limit 100: (100 + 300) / 250 allows one page, which is skipped.
    let result = find_locations(
        Some(100),
        Some(300),
        vec![mock_locations_response(0, 250, true), mock_locations_response(250, 500, false)],
    );
    assert!(result.unwrap().is_empty());
}

#[test]
fn a_window_past_the_items_is_empty() {
    let result = find_locations(Some(10), Some(240), vec![mock_locations_response(0, 5, false)]);
    assert!(result.unwrap().is_empty());
}

#[test]
fn location_ids_are_the_gids_in_order() {
    let ids = location_ids_from_response(mock_locations_response(0, 3, false)).unwrap();
    assert_eq!(ids, vec!["gid://shopify/Location/0", "gid://shopify/Location/1", "gid://shopify/Location/2"]);
    assert!(matches!(location_ids_from_response(mock_with_error()), Err(DomainError::QueryError)));
    assert!(matches!(location_ids_from_response(mock_with_no_data()), Err(DomainError::QueryError)));
}

#[test]
fn a_location_with_an_empty_id_is_refused() {
    let mut node = mock_location_node(1);
    node.id = "gid://shopify/Location/".to_string();
    assert!(matches!(node.to_domain(), Err(DomainError::ValidationError)));
}
