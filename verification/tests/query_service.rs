use backend::domain::error::DomainError;
use backend::infrastructure::ec::shopify::query_service::product::product_impl::related_products_from_response;
use backend::infrastructure::ec::shopify::query_service::schema::product::{
    ImageNode, MediaNode, MediaPreviewImageNode, MoneyV2Node, PriceRangeV2Node, ProductNode, RelatedProductsData,
};
use backend::infrastructure::ec::shopify::repository::schema::common::{
    Edges, GraphQLError, GraphQLResponse, Node, PageInfo,
};

fn mock_related_products_response(start: usize, end: usize, has_next_page: bool) -> GraphQLResponse<RelatedProductsData> {
    let products: Vec<Node<ProductNode>> = (start..end)
        .map(|i| Node {
            node: ProductNode {
                id: format!("gid://shopify/Product/{i}"),
                title: format!("Test Product {i}"),
                handle: format!("test-product-{i}"),
                vendor: format!("Test Vendor {i}"),
                price_range_v2: PriceRangeV2Node { max_variant_price: MoneyV2Node { amount: format!("{i}") } },
                featured_media: Some(MediaNode {
                    preview: Some(MediaPreviewImageNode {
                        image: Some(ImageNode { url: format!("https://example.com/MediaImage/{i}.jpg") }),
                    }),
                }),
            },
        })
        .collect();
    GraphQLResponse {
        data: Some(RelatedProductsData {
            products: Edges {
                edges: products,
                page_info: PageInfo {
                    has_previous_page: false,
                    has_next_page,
                    start_cursor: None,
                    end_cursor: if has_next_page { Some("end_cursor".to_string()) } else { None },
                },
            },
        }),
        errors: None,
    }
}

fn mock_with_error<T>() -> GraphQLResponse<T> {
    GraphQLResponse {
        data: None,
        errors: Some(vec![GraphQLError { message: "Some GraphQL error".to_string(), extensions: None }]),
    }
}

fn mock_with_no_data<T>() -> GraphQLResponse<T> {
    GraphQLResponse { data: None, errors: None }
}

/// The price as the query service's callers read it: a number, zero where the text is not one.
fn price_of(text: &str) -> f64 {
    text.parse().unwrap_or(0.0)
}

#[test]
fn test_search_related_productsd_success() {
    let products = related_products_from_response(mock_related_products_response(0, 250, false)).unwrap();
    assert_eq!(products.len(), 250);
    assert_eq!(products[0].id, "0");
    assert_eq!(products[0].name, "Test Product 0");
    assert_eq!(products[0].handle, "test-product-0");
    assert_eq!(products[0].vendor, "Test Vendor 0");
    assert_eq!(price_of(&products[0].price), 0.0);
    assert_eq!(products[0].featured_media_url, Some("https://example.com/MediaImage/0.jpg".to_string()));
    assert_eq!(products[249].id, "249");
    assert_eq!(products[249].name, "Test Product 249");
    assert_eq!(products[249].handle, "test-product-249");
    assert_eq!(products[249].vendor, "Test Vendor 249");
    assert_eq!(price_of(&products[249].price), 249.0);
    assert_eq!(products[249].featured_media_url, Some("https://example.com/MediaImage/249.jpg".to_string()));
}

#[test]
fn test_search_related_productsd_with_graphql_error() {
    assert!(matches!(related_products_from_response(mock_with_error()), Err(DomainError::QueryError)));
}

#[test]
fn test_search_related_productsd_with_missing_data() {
    assert!(matches!(related_products_from_response(mock_with_no_data()), Err(DomainError::QueryError)));
}

#[test]
fn products_without_featured_media_have_no_url() {
    let mut response = mock_related_products_response(0, 2, false);
    response.data.as_mut().unwrap().products.edges[0].node.featured_media = None;
    response.data.as_mut().unwrap().products.edges[1].node.featured_media = Some(MediaNode { preview: None });
    let products = related_products_from_response(response).unwrap();
    assert_eq!(products[0].featured_media_url, None);
    assert_eq!(products[1].featured_media_url, None);
}
