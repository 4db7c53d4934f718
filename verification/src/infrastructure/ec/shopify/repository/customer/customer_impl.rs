//! What the customer repository makes of the responses it gets.
use vstd::prelude::*;

use crate::domain::customer::Customer;
use crate::domain::error::DomainError;
use crate::infrastructure::ec::shopify::gql_helper::{first_query_text, metafield_query_text, ShopifyGQLHelper};
use crate::infrastructure::ec::shopify::repository::media::media_impl::MediaRepositoryImpl;
use crate::text::owned;
use crate::infrastructure::ec::shopify::repository::schema::common::{nodes_of, GraphQLResponse};
use crate::infrastructure::ec::shopify::repository::schema::customer::{
    customer_of_node, customer_outcome, CustomerNode, CustomersData,
};

verus! {

/// The customer found by an e-mail lookup: a GraphQL error or missing data is a query
/// error; the customers are converted in order (the first failure is returned); none
/// at all is not found; otherwise the first.
pub fn customer_from_response(response: GraphQLResponse<CustomersData>) -> (r: Result<Customer, DomainError>)
    ensures
        response.errors is Some ==> r == Err::<Customer, DomainError>(DomainError::QueryError),
        response.errors is None && response.data is None ==> r == Err::<Customer, DomainError>(DomainError::QueryError),
        response.errors is None ==> (response.data matches Some(d) ==> {
            let nodes = nodes_of(d.customers.edges@);
            &&& (forall|k: int| 0 <= k < nodes.len() ==> customer_outcome(#[trigger] nodes[k]) is Ok) ==> (if nodes.len() == 0 {
                r == Err::<Customer, DomainError>(DomainError::NotFound)
            } else {
                r matches Ok(c) && customer_of_node(nodes[0], c)
            })
            &&& (r matches Err(e) ==> (e == DomainError::NotFound || exists|k: int|
                0 <= k < nodes.len() && customer_outcome(#[trigger] nodes[k]) == Err::<(), DomainError>(e)
                    && forall|m: int| 0 <= m < k ==> customer_outcome(#[trigger] nodes[m]) is Ok))
            &&& !(forall|k: int| 0 <= k < nodes.len() ==> customer_outcome(#[trigger] nodes[k]) is Ok) ==> (r matches Err(e)
                && exists|k: int| 0 <= k < nodes.len() && customer_outcome(#[trigger] nodes[k]) == Err::<(), DomainError>(e)
                    && forall|m: int| 0 <= m < k ==> customer_outcome(#[trigger] nodes[m]) is Ok)
        }),
{
    let data = match response.into_query_data(DomainError::QueryError) {
        Ok(d) => d,
        Err(e) => {
            return Err(e);
        },
    };
    let mut customers = match CustomerNode::to_domains(data.customers.into_nodes()) {
        Ok(c) => c,
        Err(e) => {
            return Err(e);
        },
    };
    if customers.len() == 0 {
        return Err(DomainError::NotFound);
    }
    Ok(customers.remove(0))
}


/// The fields of a customer, with its addresses, image and user id.
pub open spec fn customer_fields_text() -> Seq<char> {
    "canDelete createdAt displayName email firstName id lastName note phone state updatedAt validEmailAddress verifiedEmail addresses("@
        + first_query_text(ShopifyGQLHelper::SHOPIFY_QUERY_LIMIT as nat) + ") { "@ + ShopifyGQLHelper::ADDRESS_FIELDS@
        + " } image { "@ + MediaRepositoryImpl::IMAGE_FIELDS@ + " } defaultAddress { "@ + ShopifyGQLHelper::ADDRESS_FIELDS@
        + " } "@ + metafield_query_text("user_id"@, "custom"@)
}

/// The query for the customers with e-mail address `email`.
pub fn customer_by_email_query(email: &str) -> (r: String)
    ensures
        r@ == "query { customers("@ + first_query_text(ShopifyGQLHelper::SHOPIFY_QUERY_LIMIT as nat) + ", query: \"email:"@
            + email@ + "\") { edges { node { "@ + customer_fields_text() + " } } "@ + ShopifyGQLHelper::PAGE_INFO_FIELDS@
            + " } }"@,
{
    let first = ShopifyGQLHelper::first_query();
    let address_fields = ShopifyGQLHelper::address_fields();
    let mut r = owned("query { customers(");
    r.append(first.as_str());
    r.append(", query: \"email:");
    r.append(email);
    r.append("\") { edges { node { ");
    r.append("canDelete createdAt displayName email firstName id lastName note phone state updatedAt validEmailAddress verifiedEmail addresses(");
    r.append(first.as_str());
    r.append(") { ");
    r.append(address_fields.as_str());
    r.append(" } image { ");
    r.append(MediaRepositoryImpl::IMAGE_FIELDS);
    r.append(" } defaultAddress { ");
    r.append(address_fields.as_str());
    r.append(" } ");
    r.append(ShopifyGQLHelper::metafield_query("user_id", "custom").as_str());
    r.append(" } } ");
    r.append(ShopifyGQLHelper::page_info().as_str());
    r.append(" } }");
    r
}

} // verus!
