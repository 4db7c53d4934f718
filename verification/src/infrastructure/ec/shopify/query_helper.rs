//! The query-side helper: the same gid handling as `ShopifyGQLHelper`, with the
//! prefixes that the product, media and inventory queries use.
use vstd::prelude::*;

use crate::infrastructure::ec::shopify::gql_helper::{
    add_gid_prefix, first_query_text, gid_tail, is_gid_prefix, strip_gid, with_gid_prefix,
    first_query_for,
};
use crate::text::owned;

verus! {

pub struct ShopifyGQLQueryHelper {}

impl ShopifyGQLQueryHelper {
    pub const SHOPIFY_QUERY_LIMIT: usize = 250;

    pub const SHOPIFY_PRODUCT_GID_PREFIX: &'static str = "gid://shopify/Product/";

    pub const SHOPIFY_PRODUCT_VARIANT_GID_PREFIX: &'static str = "gid://shopify/ProductVariant/";

    pub const SHOPIFY_MEDIA_IMAGE_GID_PREFIX: &'static str = "gid://shopify/MediaImage/";

    pub const SHOPIFY_INVENTORY_ITEM_GID_PREFIX: &'static str = "gid://shopify/InventoryItem/";

    pub const SHOPIFY_LOCATION_GID_PREFIX: &'static str = "gid://shopify/Location/";

    pub const PAGE_INFO_FIELDS: &'static str = "pageInfo {
            hasPreviousPage
            hasNextPage
            startCursor
            endCursor
        }";

    /// Return first query with max limit.
    pub fn first_query() -> (r: String)
        ensures
            r@ == first_query_text(Self::SHOPIFY_QUERY_LIMIT as nat),
    {
        first_query_for(Self::SHOPIFY_QUERY_LIMIT)
    }

    /// Return pageInfo query.
    pub fn page_info() -> (r: String)
        ensures
            r@ == Self::PAGE_INFO_FIELDS@,
    {
        owned(Self::PAGE_INFO_FIELDS)
    }

    /// Add Shopify gid prefix for InventoryItem.
    pub fn add_inventory_item_gid_prefix(id: &str) -> (r: String)
        ensures
            r@ == with_gid_prefix(Self::SHOPIFY_INVENTORY_ITEM_GID_PREFIX@, id@),
    {
        add_gid_prefix(Self::SHOPIFY_INVENTORY_ITEM_GID_PREFIX, id)
    }

    /// Add Shopify gid prefix for Location.
    pub fn add_location_gid_prefix(id: &str) -> (r: String)
        ensures
            r@ == with_gid_prefix(Self::SHOPIFY_LOCATION_GID_PREFIX@, id@),
    {
        add_gid_prefix(Self::SHOPIFY_LOCATION_GID_PREFIX, id)
    }

    /// Remove Shopify gid prefix.
    pub fn remove_gid_prefix(gid: &str) -> (r: String)
        ensures
            r@ == gid_tail(gid@),
    {
        strip_gid(gid)
    }
}

/// Every prefix constant of the query helper is a gid prefix.
pub proof fn lemma_query_helper_prefixes_are_gid_prefixes()
    ensures
        is_gid_prefix(ShopifyGQLQueryHelper::SHOPIFY_PRODUCT_GID_PREFIX@),
        is_gid_prefix(ShopifyGQLQueryHelper::SHOPIFY_PRODUCT_VARIANT_GID_PREFIX@),
        is_gid_prefix(ShopifyGQLQueryHelper::SHOPIFY_MEDIA_IMAGE_GID_PREFIX@),
        is_gid_prefix(ShopifyGQLQueryHelper::SHOPIFY_INVENTORY_ITEM_GID_PREFIX@),
        is_gid_prefix(ShopifyGQLQueryHelper::SHOPIFY_LOCATION_GID_PREFIX@),
{
    reveal_strlit("gid://shopify/Product/");
    reveal_strlit("gid://shopify/ProductVariant/");
    reveal_strlit("gid://shopify/MediaImage/");
    reveal_strlit("gid://shopify/InventoryItem/");
    reveal_strlit("gid://shopify/Location/");
}

} // verus!
