//! Products as the first version of the product query returned them: the title,
//! the description and the maximum variant price of each product.
use vstd::prelude::*;

use crate::infrastructure::ec::shopify::repository::schema::common::Edges;

verus! {

#[derive(Debug)]
pub struct MaxVariantPrice {
    pub amount: String,
}

#[derive(Debug)]
pub struct PriceRangeV2 {
    pub max_variant_price: MaxVariantPrice,
}

#[derive(Debug)]
pub struct ProductNode {
    pub id: String,
    pub title: String,
    pub price: PriceRangeV2,
    pub description: String,
}

#[derive(Debug)]
pub struct ProductsData {
    pub products: Edges<ProductNode>,
}

#[derive(Debug)]
pub struct ProductData {
    pub product: ProductNode,
}

} // verus!
