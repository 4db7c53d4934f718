use backend::domain::error::DomainError;
use backend::domain::media::{AssociatedId, Image, Media, MediaContent, MediaStatus};
use backend::domain::time::Timestamp;
use backend::infrastructure::ec::shopify::repository::media::media_impl::{
    media_alias, media_by_product_ids, media_from_aliased_response, media_from_response, AliasAnswer, AliasedMediaData,
    MediaRepositoryImpl,
};
use backend::infrastructure::ec::shopify::repository::schema::common::{
    Edges, GraphQLError, GraphQLResponse, Node, PageInfo,
};
use backend::infrastructure::ec::shopify::repository::schema::media::{
    ImageNode, MediaData, MediaNode, MediaPreviewImage,
};

fn now() -> Timestamp {
    Timestamp { secs: 1_700_000_000, nanos: 0 }
}

fn mock_media_node(id: u32) -> MediaNode {
    MediaNode {
        id: format!("gid://shopify/MediaImage/{id}"),
        file_status: "READY".to_string(),
        alt: Some(format!("Alt text for media {id}")),
        preview: Some(MediaPreviewImage {
            image: Some(ImageNode {
                id: format!("gid://shopify/ImageSource/{id}"),
                alt_text: Some(format!("Alt text for image {id}")),
                height: Some(600),
                width: Some(500),
                url: format!("https://example.com/MediaImage/{id}.jpg"),
            }),
        }),
        created_at: now(),
        updated_at: now(),
    }
}

fn mock_media_response(count: usize) -> GraphQLResponse<MediaData> {
    GraphQLResponse {
        data: Some(MediaData {
            files: Edges {
                edges: (0..count).map(|i| Node { node: mock_media_node(i as u32) }).collect(),
                page_info: PageInfo { has_previous_page: false, has_next_page: false, start_cursor: None, end_cursor: None },
            },
        }),
        errors: None,
    }
}

fn mock_with_error<T>() -> GraphQLResponse<T> {
    GraphQLResponse {
        data: None,
        errors: Some(vec![GraphQLError { message: "Some GraphQL error".to_string(), extensions: None }]),
    }
}

fn mock_with_no_data<T>() -> GraphQLResponse<T> {
    GraphQLResponse { data: None, errors: None }
}

fn image_of(media: &Media) -> &Image {
    match &media.content {
        Some(MediaContent::Image(image)) => image,
        None => panic!("Expected an image"),
    }
}

fn owner_of(image: &Image) -> String {
    match &image.associated_id {
        Some(AssociatedId::Product(id)) => id.clone(),
        other => panic!("Expected a product owner, got {other:?}"),
    }
}

#[test]
fn test_find_media_by_product_id_success() {
    let media = media_from_response(mock_media_response(10), "123456").unwrap();
    assert_eq!(media.len(), 10);
    assert_eq!(media[0].id, "0");
    assert_eq!(media[0].status, MediaStatus::Active);
    let image = image_of(&media[0]);
    assert_eq!(owner_of(image), "123456");
    assert_eq!(image.published_src.as_ref().unwrap().value, "https://example.com/MediaImage/0.jpg");
    assert_eq!(media[9].id, "9");
    assert_eq!(media[9].status, MediaStatus::Active);
    let image = image_of(&media[9]);
    assert_eq!(owner_of(image), "123456");
    assert_eq!(image.published_src.as_ref().unwrap().value, "https://example.com/MediaImage/9.jpg");
}

#[test]
fn test_find_media_by_product_id_with_invalid_file_status() {
    let mut invalid = mock_media_response(1);
    invalid.data.as_mut().unwrap().files.edges[0].node.file_status = "INVALID_STATUS".to_string();
    assert!(matches!(media_from_response(invalid, "123456"), Err(DomainError::ConversionError)));
}

#[test]
fn test_find_media_by_product_id_with_graphql_error() {
    assert!(matches!(media_from_response(mock_with_error(), "123456"), Err(DomainError::QueryError)));
}

#[test]
fn test_find_media_by_product_id_with_missing_data() {
    assert!(matches!(media_from_response(mock_with_no_data(), "123456"), Err(DomainError::QueryError)));
}

#[test]
fn test_find_media_by_product_ids_success() {
    let batches = vec![Some(vec![mock_media_node(0)]), Some(vec![mock_media_node(1)])];
    let media = media_by_product_ids(batches, &vec!["1".to_string(), "2".to_string()]).unwrap();
    assert_eq!(media.len(), 2);
    assert_eq!(media[0].id, "0");
    assert_eq!(owner_of(image_of(&media[0])), "1");
    assert_eq!(media[1].id, "1");
    assert_eq!(owner_of(image_of(&media[1])), "2");
}

#[test]
fn test_find_media_by_product_ids_with_graphql_error() {
    let response: GraphQLResponse<AliasedMediaData> = mock_with_error();
    let result = media_from_aliased_response(response, &vec!["1".to_string()]);
    assert!(matches!(result, Err(DomainError::QueryError)));
}

#[test]
fn test_find_media_by_product_ids_with_missing_data() {
    let response: GraphQLResponse<AliasedMediaData> = mock_with_no_data();
    let result = media_from_aliased_response(response, &vec!["1".to_string()]);
    assert!(matches!(result, Err(DomainError::QueryError)));
}

#[test]
fn aliased_data_that_is_not_an_object_is_a_query_error() {
    let response = GraphQLResponse { data: Some(AliasedMediaData::NotAnObject), errors: None };
    let result = media_from_aliased_response(response, &vec!["1".to_string()]);
    assert!(matches!(result, Err(DomainError::QueryError)));
}

#[test]
fn an_unreadable_aliased_node_is_a_system_error() {
    let answers = vec![AliasAnswer::Files(vec![mock_media_node(0)]), AliasAnswer::Unreadable];
    let response = GraphQLResponse { data: Some(AliasedMediaData::Answers(answers)), errors: None };
    let result = media_from_aliased_response(response, &vec!["1".to_string(), "2".to_string()]);
    assert!(matches!(result, Err(DomainError::SystemError)));
}

#[test]
fn aliased_answers_give_the_media_of_their_products() {
    let answers = vec![AliasAnswer::Missing, AliasAnswer::Files(vec![mock_media_node(5), mock_media_node(6)])];
    let response = GraphQLResponse { data: Some(AliasedMediaData::Answers(answers)), errors: None };
    let media = media_from_aliased_response(response, &vec!["1".to_string(), "2".to_string()]).unwrap();
    assert_eq!(media.len(), 2);
    assert_eq!(media[0].id, "5");
    assert_eq!(owner_of(image_of(&media[0])), "1");
    assert_eq!(media[1].id, "6");
    assert_eq!(owner_of(image_of(&media[1])), "2");
}

#[test]
fn unanswered_aliases_add_no_media() {
    let batches = vec![None, Some(vec![mock_media_node(5), mock_media_node(6)])];
    let media = media_by_product_ids(batches, &vec!["1".to_string(), "2".to_string()]).unwrap();
    assert_eq!(media.len(), 2);
    assert_eq!(media[0].id, "5");
    assert_eq!(owner_of(image_of(&media[0])), "1");
    assert_eq!(media[1].id, "6");
    assert_eq!(owner_of(image_of(&media[1])), "2");
}

#[test]
fn aliases_number_the_products() {
    assert_eq!(media_alias(0), "i0");
    assert_eq!(media_alias(12), "i12");
    assert!(MediaRepositoryImpl::image_fields().contains("url"));
}

#[test]
fn file_statuses_map_to_media_statuses() {
    for (status, expected) in [
        ("UPLOADED", MediaStatus::Active),
        ("READY", MediaStatus::Active),
        ("FAILED", MediaStatus::Inactive),
        ("PROCESSING", MediaStatus::InPreparation),
    ] {
        let mut node = mock_media_node(1);
        node.file_status = status.to_string();
        assert_eq!(node.to_domain(None).unwrap().status, expected);
    }
}

#[test]
fn an_image_without_url_is_refused() {
    let mut node = mock_media_node(1);
    node.preview.as_mut().unwrap().image.as_mut().unwrap().url = String::new();
    assert!(matches!(node.to_domain(None), Err(DomainError::ValidationError)));
    let mut node = mock_media_node(1);
    node.preview = None;
    assert!(node.to_domain(None).unwrap().content.is_none());
}
