//! What the location repository makes of the responses it gets.
use vstd::prelude::*;

use crate::domain::error::DomainError;
use crate::domain::location::{Id as LocationId, Location};
use crate::infrastructure::ec::shopify::gql_helper::first_query_text;
use crate::infrastructure::ec::shopify::query_helper::ShopifyGQLQueryHelper;
use crate::infrastructure::ec::shopify::repository::pagination::{after_query, after_text, PageWindow};
use crate::text::owned;
use crate::infrastructure::ec::shopify::repository::schema::common::{nodes_of, query_outcome, Edges, GraphQLResponse};
use crate::infrastructure::ec::shopify::repository::schema::location::{location_node_valid, location_of_node, LocationNode, LocationsData};

verus! {

/// The ids of all locations in a response, as the API gives them.
pub fn location_ids_from_response(response: GraphQLResponse<LocationsData>) -> (r: Result<Vec<LocationId>, DomainError>)
    ensures
        response.errors is Some ==> r == Err::<Vec<LocationId>, DomainError>(DomainError::QueryError),
        response.errors is None && response.data is None ==> r == Err::<Vec<LocationId>, DomainError>(DomainError::QueryError),
        response.errors is None ==> (response.data matches Some(d) ==> (r matches Ok(ids)
            && ids@ == nodes_of(d.locations.edges@).map_values(|n: LocationNode| n.id))),
{
    let data = match response.into_query_data(DomainError::QueryError) {
        Ok(d) => d,
        Err(e) => {
            return Err(e);
        },
    };
    let nodes = data.locations.into_nodes();
    let ghost all = nodes@;
    let mut rest = nodes;
    let n = rest.len();
    let mut ids: Vec<LocationId> = Vec::new();
    let mut i: usize = 0;
    while rest.len() > 0
        invariant
            n == all.len(),
            i + rest@.len() == all.len(),
            rest@ == all.subrange(i as int, all.len() as int),
            ids@ == all.subrange(0, i as int).map_values(|n: LocationNode| n.id),
        decreases rest.len(),
    {
        let node = rest.remove(0);
        assert(node == all[i as int]);
        ids.push(node.id);
        assert(all.subrange(0, i + 1) =~= all.subrange(0, i as int).push(all[i as int]));
        assert(rest@ =~= all.subrange(i + 1, all.len() as int));
        i = i + 1;
    }
    assert(all.subrange(0, all.len() as int) =~= all);
    Ok(ids)
}

/// The location nodes of one page of a location query.
pub fn location_page(response: GraphQLResponse<LocationsData>) -> (r: Result<Edges<LocationNode>, DomainError>)
    ensures
        match query_outcome(response.errors, response.data, DomainError::QueryError) {
            Ok(d) => r == Ok::<Edges<LocationNode>, DomainError>(d.locations),
            Err(e) => r == Err::<Edges<LocationNode>, DomainError>(e),
        },
{
    match response.into_query_data(DomainError::QueryError) {
        Ok(d) => Ok(d.locations),
        Err(e) => Err(e),
    }
}

/// The locations of the window out of the nodes kept from the pages: all nodes are
/// converted, then the window is cut out.
pub fn locations_in_window(window: &PageWindow, nodes: Vec<LocationNode>) -> (r: Result<Vec<Location>, DomainError>)
    requires
        window.wf(),
    ensures
        r is Ok <==> forall|k: int| 0 <= k < nodes@.len() ==> location_node_valid(#[trigger] nodes@[k]),
        r is Err ==> r == Err::<Vec<Location>, DomainError>(DomainError::ValidationError),
        r matches Ok(locs) ==> exists|all: Seq<Location>|
            all.len() == nodes@.len() && (forall|k: int| 0 <= k < nodes@.len() ==> location_of_node(#[trigger] nodes@[k], all[k]))
                && locs@ == window.select(all),
{
    let domains = match LocationNode::to_domains(nodes) {
        Ok(d) => d,
        Err(e) => {
            return Err(e);
        },
    };
    let ghost all = domains@;
    let selected = window.select_window(domains);
    assert(all.len() == nodes@.len());
    Ok(selected)
}


/// The query for the ids of all locations (one page of the query limit).
pub fn location_ids_query() -> (r: String)
    ensures
        r@ == "query { locations("@ + first_query_text(ShopifyGQLQueryHelper::SHOPIFY_QUERY_LIMIT as nat)
            + ") { edges { node { id } } "@ + ShopifyGQLQueryHelper::PAGE_INFO_FIELDS@ + " } }"@,
{
    let mut r = owned("query { locations(");
    r.append(ShopifyGQLQueryHelper::first_query().as_str());
    r.append(") { edges { node { id } } ");
    r.append(ShopifyGQLQueryHelper::page_info().as_str());
    r.append(" } }");
    r
}

/// The fields of a location that the location queries ask for.
pub const LOCATION_FIELDS: &'static str = "id name isActive fulfillsOnlineOrders address { address1 address2 city country province zip } suggestedAddresses { address1 address2 city country province zip }";

/// The query for the page of locations after `cursor` (the first page for `None`).
pub fn locations_page_query(cursor: &Option<String>) -> (r: String)
    ensures
        r@ == "query { locations("@ + first_query_text(ShopifyGQLQueryHelper::SHOPIFY_QUERY_LIMIT as nat) + ", "@
            + after_text(*cursor) + ") { edges { node { "@ + LOCATION_FIELDS@ + " } } "@
            + ShopifyGQLQueryHelper::PAGE_INFO_FIELDS@ + " } }"@,
{
    let mut r = owned("query { locations(");
    r.append(ShopifyGQLQueryHelper::first_query().as_str());
    r.append(", ");
    r.append(after_query(cursor).as_str());
    r.append(") { edges { node { ");
    r.append(LOCATION_FIELDS);
    r.append(" } } ");
    r.append(ShopifyGQLQueryHelper::page_info().as_str());
    r.append(" } }");
    r
}

} // verus!
