//! What the product repository makes of the responses it gets.
use vstd::prelude::*;

use crate::domain::error::DomainError;
use crate::domain::product::Product;
use crate::infrastructure::ec::shopify::gql_helper::gid_tail;
use crate::infrastructure::ec::shopify::query_helper::ShopifyGQLQueryHelper;
use crate::infrastructure::ec::shopify::gql_helper::first_query_text;
use crate::infrastructure::ec::shopify::repository::pagination::{after_query, after_text, PageWindow};
use crate::text::{decimal, decimal_string, owned};
use crate::infrastructure::ec::shopify::repository::schema::common::{nodes_of, query_outcome, Edges, GraphQLResponse};
use crate::infrastructure::ec::shopify::repository::schema::product::{
    grouped_node_outcome, is_grouping, is_member, ProductNode, ProductsData, VariantNode, VariantsData,
};

verus! {

/// The ids joined with commas.
pub open spec fn join_with_commas(ids: Seq<Seq<char>>) -> Seq<char>
    decreases ids.len(),
{
    if ids.len() == 0 {
        Seq::empty()
    } else if ids.len() == 1 {
        ids[0]
    } else {
        join_with_commas(ids.drop_last()) + ","@ + ids.last()
    }
}

/// Every node of a grouping's input is placed, so a grouping of a non-empty list has a product.
pub proof fn lemma_grouping_nonempty(nodes: Seq<VariantNode>, products: Seq<Product>, members: Seq<Seq<int>>)
    requires
        nodes.len() > 0,
        is_grouping(nodes, products, members, nodes.len() as int),
    ensures
        products.len() > 0,
{
    assert(is_member(members, 0));
}

/// The variant nodes of one page of a variant query.
pub fn variant_page(response: GraphQLResponse<VariantsData>) -> (r: Result<Edges<VariantNode>, DomainError>)
    ensures
        match query_outcome(response.errors, response.data, DomainError::QueryError) {
            Ok(d) => r == Ok::<Edges<VariantNode>, DomainError>(d.product_variants),
            Err(e) => r == Err::<Edges<VariantNode>, DomainError>(e),
        },
{
    match response.into_query_data(DomainError::QueryError) {
        Ok(d) => Ok(d.product_variants),
        Err(e) => Err(e),
    }
}

/// The product nodes of one page of a product query.
pub fn product_page(response: GraphQLResponse<ProductsData>) -> (r: Result<Edges<ProductNode>, DomainError>)
    ensures
        match query_outcome(response.errors, response.data, DomainError::QueryError) {
            Ok(d) => r == Ok::<Edges<ProductNode>, DomainError>(d.products),
            Err(e) => r == Err::<Edges<ProductNode>, DomainError>(e),
        },
{
    match response.into_query_data(DomainError::QueryError) {
        Ok(d) => Ok(d.products),
        Err(e) => Err(e),
    }
}

/// The bare ids of the product nodes, joined with commas, for a `product_ids` filter.
pub fn product_ids_filter(nodes: &Vec<ProductNode>) -> (r: String)
    ensures
        r@ == join_with_commas(nodes@.map_values(|n: ProductNode| gid_tail(n.id@))),
{
    let ghost ids = nodes@.map_values(|n: ProductNode| gid_tail(n.id@));
    let mut r = String::new();
    let mut i: usize = 0;
    while i < nodes.len()
        invariant
            ids == nodes@.map_values(|n: ProductNode| gid_tail(n.id@)),
            i <= nodes@.len(),
            r@ == join_with_commas(ids.subrange(0, i as int)),
        decreases nodes.len() - i,
    {
        let id = ShopifyGQLQueryHelper::remove_gid_prefix(nodes[i].id.as_str());
        let ghost before = r@;
        if i > 0 {
            r.append(",");
        }
        r.append(id.as_str());
        proof {
            let prev = ids.subrange(0, i as int);
            let next = ids.subrange(0, i + 1);
            assert(next.drop_last() =~= prev);
            assert(next.last() == id@);
            if i == 0 {
                assert(r@ =~= id@);
            }
        }
        i = i + 1;
    }
    assert(ids.subrange(0, nodes@.len() as int) =~= ids);
    r
}

/// The product of a response to a single-product variant query: the variants grouped
/// into products, of which the first; none is a not-found error.
pub fn product_from_response(response: GraphQLResponse<VariantsData>) -> (r: Result<Product, DomainError>)
    ensures
        response.errors is Some ==> r == Err::<Product, DomainError>(DomainError::QueryError),
        response.errors is None && response.data is None ==> r == Err::<Product, DomainError>(DomainError::QueryError),
        response.errors is None ==> (response.data matches Some(d) ==> ({
            let nodes = nodes_of(d.product_variants.edges@);
            &&& (exists|k: int| 0 <= k < nodes.len() && grouped_node_outcome(nodes, k) is Err) ==> (r matches Err(e)
                && exists|k: int| 0 <= k < nodes.len() && grouped_node_outcome(nodes, k) == Err::<(), DomainError>(e)
                    && forall|m: int| 0 <= m < k ==> grouped_node_outcome(nodes, m) is Ok)
            &&& (forall|k: int| 0 <= k < nodes.len() ==> grouped_node_outcome(nodes, k) is Ok) ==> {
                &&& nodes.len() == 0 ==> r == Err::<Product, DomainError>(DomainError::NotFound)
                &&& nodes.len() > 0 ==> (r matches Ok(p) && exists|products: Seq<Product>, members: Seq<Seq<int>>|
                    is_grouping(nodes, products, members, nodes.len() as int) && products[0] == p)
            }
        })),
{
    let edges = match variant_page(response) {
        Ok(e) => e,
        Err(e) => {
            return Err(e);
        },
    };
    let nodes = edges.into_nodes();
    let ghost all = nodes@;
    let mut products = match VariantNode::to_product_domains(nodes) {
        Ok(p) => p,
        Err(e) => {
            return Err(e);
        },
    };
    if products.len() == 0 {
        proof {
            if all.len() > 0 {
                let members = choose|members: Seq<Seq<int>>| is_grouping(all, products@, members, all.len() as int);
                lemma_grouping_nonempty(all, products@, members);
            }
        }
        return Err(DomainError::NotFound);
    }
    let ghost ps = products@;
    let first = products.remove(0);
    proof {
        let members = choose|members: Seq<Seq<int>>| is_grouping(all, ps, members, all.len() as int);
        if all.len() == 0 {
            // A grouping of no nodes has no products, and this one has one.
            assert(members[0].len() > 0);
            assert(0 <= members[0][0] < 0);
        }
        assert(is_grouping(all, ps, members, all.len() as int) && ps[0] == first);
    }
    Ok(first)
}

/// The products of the window out of the variant nodes kept from the pages: the variants
/// are grouped into products, then the window is cut out.
pub fn products_in_window(window: &PageWindow, nodes: Vec<VariantNode>) -> (r: Result<Vec<Product>, DomainError>)
    requires
        window.wf(),
    ensures
        r is Ok <==> forall|k: int| 0 <= k < nodes@.len() ==> grouped_node_outcome(nodes@, k) is Ok,
        r matches Err(e) ==> exists|k: int|
            0 <= k < nodes@.len() && grouped_node_outcome(nodes@, k) == Err::<(), DomainError>(e)
                && forall|m: int| 0 <= m < k ==> grouped_node_outcome(nodes@, m) is Ok,
        r matches Ok(ps) ==> exists|products: Seq<Product>, members: Seq<Seq<int>>|
            is_grouping(nodes@, products, members, nodes@.len() as int) && ps@ == window.select(products),
{
    let ghost all = nodes@;
    let products = match VariantNode::to_product_domains(nodes) {
        Ok(p) => p,
        Err(e) => {
            return Err(e);
        },
    };
    let ghost ps = products@;
    let selected = window.select_window(products);
    proof {
        let members = choose|members: Seq<Seq<int>>| is_grouping(all, ps, members, all.len() as int);
        assert(is_grouping(all, ps, members, all.len() as int) && selected@ == window.select(ps));
    }
    Ok(selected)
}


/// The fields of a variant that the variant queries ask for.
pub const VARIANT_FIELDS: &'static str = "id title sku barcode availableForSale position inventoryItem { id } inventoryQuantity inventoryPolicy price taxable taxCode createdAt updatedAt";

/// The fields of a product that the queries ask for, the description cut at the
/// longest length kept.
pub open spec fn product_fields_text() -> Seq<char> {
    "id title handle description(truncateAt: "@ + decimal(Product::MAX_DESCRIPTION_LENGTH as nat) + ") status category { id name }"@
}

/// The fields of a product that the queries ask for.
pub fn product_fields() -> (r: String)
    ensures
        r@ == product_fields_text(),
{
    let mut r = owned("id title handle description(truncateAt: ");
    r.append(decimal_string(Product::MAX_DESCRIPTION_LENGTH).as_str());
    r.append(") status category { id name }");
    r
}

/// The query for the variants of one product, each with its product.
pub fn product_variants_query(product_id: &str) -> (r: String)
    ensures
        r@ == "query { productVariants("@ + first_query_text(ShopifyGQLQueryHelper::SHOPIFY_QUERY_LIMIT as nat)
            + ", query: \"product_id:'"@ + product_id@ + "'\") { edges { node { "@ + VARIANT_FIELDS@ + " product { "@
            + product_fields_text() + " } } } "@ + ShopifyGQLQueryHelper::PAGE_INFO_FIELDS@ + " } }"@,
{
    let mut r = owned("query { productVariants(");
    r.append(ShopifyGQLQueryHelper::first_query().as_str());
    r.append(", query: \"product_id:'");
    r.append(product_id);
    r.append("'\") { edges { node { ");
    r.append(VARIANT_FIELDS);
    r.append(" product { ");
    r.append(product_fields().as_str());
    r.append(" } } } ");
    r.append(ShopifyGQLQueryHelper::page_info().as_str());
    r.append(" } }");
    r
}

/// The query for the page of products after `cursor` (the first page for `None`).
pub fn products_page_query(cursor: &Option<String>) -> (r: String)
    ensures
        r@ == "query { products("@ + first_query_text(ShopifyGQLQueryHelper::SHOPIFY_QUERY_LIMIT as nat) + ", "@
            + after_text(*cursor) + ") { edges { node { "@ + product_fields_text() + " } } "@
            + ShopifyGQLQueryHelper::PAGE_INFO_FIELDS@ + " } }"@,
{
    let mut r = owned("query { products(");
    r.append(ShopifyGQLQueryHelper::first_query().as_str());
    r.append(", ");
    r.append(after_query(cursor).as_str());
    r.append(") { edges { node { ");
    r.append(product_fields().as_str());
    r.append(" } } ");
    r.append(ShopifyGQLQueryHelper::page_info().as_str());
    r.append(" } }");
    r
}

/// The query for the page after `cursor` of the variants of the products `product_ids`
/// (bare ids joined with commas).
pub fn variants_page_query(cursor: &Option<String>, product_ids: &str) -> (r: String)
    ensures
        r@ == "query { productVariants("@ + first_query_text(ShopifyGQLQueryHelper::SHOPIFY_QUERY_LIMIT as nat) + ", "@
            + after_text(*cursor) + ", query: \"product_ids:'"@ + product_ids@ + "'\") { edges { node { "@
            + VARIANT_FIELDS@ + " product { "@ + product_fields_text() + " } } } "@
            + ShopifyGQLQueryHelper::PAGE_INFO_FIELDS@ + " } }"@,
{
    let mut r = owned("query { productVariants(");
    r.append(ShopifyGQLQueryHelper::first_query().as_str());
    r.append(", ");
    r.append(after_query(cursor).as_str());
    r.append(", query: \"product_ids:'");
    r.append(product_ids);
    r.append("'\") { edges { node { ");
    r.append(VARIANT_FIELDS);
    r.append(" product { ");
    r.append(product_fields().as_str());
    r.append(" } } } ");
    r.append(ShopifyGQLQueryHelper::page_info().as_str());
    r.append(" } }");
    r
}

} // verus!
