//! What the product query service makes of the responses it gets.
use vstd::prelude::*;

use crate::domain::error::DomainError;
use crate::infrastructure::ec::shopify::gql_helper::{first_query_text, ShopifyGQLHelper};
use crate::text::owned;
use crate::infrastructure::ec::shopify::query_service::schema::product::{
    dto_of_node, ProductDTO, ProductNode, RelatedProductsData,
};
use crate::infrastructure::ec::shopify::repository::schema::common::{nodes_of, GraphQLResponse};

verus! {

/// The related products of a response, in order: a GraphQL error or missing data is a
/// query error.
pub fn related_products_from_response(response: GraphQLResponse<RelatedProductsData>) -> (r: Result<Vec<ProductDTO>, DomainError>)
    ensures
        response.errors is Some ==> r == Err::<Vec<ProductDTO>, DomainError>(DomainError::QueryError),
        response.errors is None && response.data is None ==> r == Err::<Vec<ProductDTO>, DomainError>(DomainError::QueryError),
        response.errors is None ==> (response.data matches Some(d) ==> (r matches Ok(dtos) && {
            let nodes = nodes_of(d.products.edges@);
            &&& dtos@.len() == nodes.len()
            &&& forall|k: int| 0 <= k < nodes.len() ==> dto_of_node(#[trigger] nodes[k], dtos@[k])
        })),
{
    let data = match response.into_query_data(DomainError::QueryError) {
        Ok(d) => d,
        Err(e) => {
            return Err(e);
        },
    };
    let nodes = data.products.into_nodes();
    let ghost all = nodes@;
    let mut rest = nodes;
    let n = rest.len();
    let mut out: Vec<ProductDTO> = Vec::new();
    let mut i: usize = 0;
    while rest.len() > 0
        invariant
            n == all.len(),
            i + rest@.len() == all.len(),
            rest@ == all.subrange(i as int, all.len() as int),
            out@.len() == i,
            forall|k: int| 0 <= k < i ==> dto_of_node(#[trigger] all[k], out@[k]),
        decreases rest.len(),
    {
        let node = rest.remove(0);
        assert(node == all[i as int]);
        out.push(ProductDTO::from_node(node));
        assert(rest@ =~= all.subrange(i + 1, all.len() as int));
        i = i + 1;
    }
    Ok(out)
}


/// The query for the most recently updated products of a category.
pub fn related_products_query(category_id: &str) -> (r: String)
    ensures
        r@ == "query { products("@ + first_query_text(ShopifyGQLHelper::SHOPIFY_QUERY_LIMIT as nat)
            + ", sortKey: UPDATED_AT, query: \"category_id:"@ + category_id@
            + "\") { edges { node { id title handle vendor priceRangeV2 { maxVariantPrice { amount } } featuredMedia { preview { image { url } } } } } "@
            + ShopifyGQLHelper::PAGE_INFO_FIELDS@ + " } }"@,
{
    let mut r = owned("query { products(");
    r.append(ShopifyGQLHelper::first_query().as_str());
    r.append(", sortKey: UPDATED_AT, query: \"category_id:");
    r.append(category_id);
    r.append("\") { edges { node { id title handle vendor priceRangeV2 { maxVariantPrice { amount } } featuredMedia { preview { image { url } } } } } ");
    r.append(ShopifyGQLHelper::page_info().as_str());
    r.append(" } }");
    r
}

} // verus!
