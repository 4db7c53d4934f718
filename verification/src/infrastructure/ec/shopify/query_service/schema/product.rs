//! Products as the related-products query returns them, and the summary that the
//! query service hands out.
use vstd::prelude::*;

use crate::infrastructure::ec::shopify::gql_helper::{gid_tail, ShopifyGQLHelper};
use crate::infrastructure::ec::shopify::repository::schema::common::Edges;

verus! {

/// A product as the query service hands it out. `price` is the maximum variant price
/// as the API wrote it; read as a number (anything that is not one counts as zero) it
/// is the product's price.
#[derive(Debug)]
pub struct ProductDTO {
    pub id: String,
    pub name: String,
    pub handle: String,
    pub vendor: String,
    pub price: String,
    pub featured_media_url: Option<String>,
}

#[derive(Debug)]
pub struct RelatedProductsData {
    pub products: Edges<ProductNode>,
}

#[derive(Debug)]
pub struct ProductNode {
    pub id: String,
    pub title: String,
    pub handle: String,
    pub vendor: String,
    pub price_range_v2: PriceRangeV2Node,
    pub featured_media: Option<MediaNode>,
}

#[derive(Debug)]
pub struct PriceRangeV2Node {
    pub max_variant_price: MoneyV2Node,
}

#[derive(Debug)]
pub struct MoneyV2Node {
    pub amount: String,
}

#[derive(Debug)]
pub struct MediaNode {
    pub preview: Option<MediaPreviewImageNode>,
}

#[derive(Debug)]
pub struct MediaPreviewImageNode {
    pub image: Option<ImageNode>,
}

#[derive(Debug)]
pub struct ImageNode {
    pub url: String,
}

/// The URL of the preview image of a product's featured media, if it has one.
pub open spec fn featured_media_url_of(media: Option<MediaNode>) -> Option<String> {
    match media {
        Some(m) => match m.preview {
            Some(p) => match p.image {
                Some(i) => Some(i.url),
                None => None,
            },
            None => None,
        },
        None => None,
    }
}

/// `dto` is the summary of `node`: the bare id, the title as name, the handle, the
/// vendor, the maximum variant price and the featured media's preview URL.
pub open spec fn dto_of_node(node: ProductNode, dto: ProductDTO) -> bool {
    &&& dto.id@ == gid_tail(node.id@)
    &&& dto.name == node.title
    &&& dto.handle == node.handle
    &&& dto.vendor == node.vendor
    &&& dto.price == node.price_range_v2.max_variant_price.amount
    &&& dto.featured_media_url == featured_media_url_of(node.featured_media)
}

impl ProductDTO {
    /// The summary of a product node.
    pub fn from_node(node: ProductNode) -> (r: ProductDTO)
        ensures
            dto_of_node(node, r),
    {
        let featured_media_url = match node.featured_media {
            Some(m) => match m.preview {
                Some(p) => match p.image {
                    Some(i) => Some(i.url),
                    None => None,
                },
                None => None,
            },
            None => None,
        };
        ProductDTO {
            id: ShopifyGQLHelper::remove_gid_prefix(node.id.as_str()),
            name: node.title,
            handle: node.handle,
            vendor: node.vendor,
            price: node.price_range_v2.max_variant_price.amount,
            featured_media_url,
        }
    }
}

} // verus!
