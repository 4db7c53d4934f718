//! The envelope shared by every GraphQL response and the connection types of paginated lists.
use vstd::prelude::*;
use vstd::std_specs::convert::FromSpecImpl;

use crate::domain::error::DomainError;
use crate::infrastructure::ec::ec_client_interface::ECClientResponse;

verus! {

#[derive(Debug)]
pub struct GraphQLResponse<T> {
    pub data: Option<T>,
    pub errors: Option<Vec<GraphQLError>>,
}

impl<T> ECClientResponse for GraphQLResponse<T> {}

#[derive(Debug)]
pub struct Node<T> {
    pub node: T,
}

#[derive(Debug)]
pub struct Edges<T> {
    pub edges: Vec<Node<T>>,
    pub page_info: PageInfo,
}

impl<T> Default for Edges<T> {
    fn default() -> (r: Self)
        ensures
            r.edges@.len() == 0,
            !r.page_info.has_previous_page,
            !r.page_info.has_next_page,
            r.page_info.start_cursor is None,
            r.page_info.end_cursor is None,
    {
        Edges {
            edges: Vec::new(),
            page_info: PageInfo {
                has_previous_page: false,
                has_next_page: false,
                start_cursor: None,
                end_cursor: None,
            },
        }
    }
}

#[derive(Debug)]
pub struct PageInfo {
    pub has_previous_page: bool,
    pub has_next_page: bool,
    pub start_cursor: Option<String>,
    pub end_cursor: Option<String>,
}

#[derive(Debug)]
pub struct GraphQLError {
    pub message: String,
    pub extensions: Option<GraphQLErrorExtensions>,
}

#[derive(Debug)]
pub struct GraphQLErrorExtensions {
    pub code: Option<String>,
}

#[derive(Debug)]
pub struct UserError {
    pub field: Vec<String>,
    pub message: String,
}

/// The value of a metafield that a query asked for.
#[derive(Debug)]
pub struct Metafield<T> {
    pub value: T,
}

/// A metafield to set in a mutation: its key, its namespace and its value.
#[derive(Debug)]
pub struct MetafieldInput<T> {
    pub key: String,
    pub namespace: String,
    pub value: T,
}

#[derive(Debug)]
pub struct IdInput {
    pub id: String,
}

impl From<String> for IdInput {
    fn from(id: String) -> (r: Self) {
        IdInput { id }
    }
}

impl FromSpecImpl<String> for IdInput {
    open spec fn obeys_from_spec() -> bool {
        true
    }

    open spec fn from_spec(v: String) -> IdInput {
        IdInput { id: v }
    }
}

/// The nodes of a connection, in order.
pub open spec fn nodes_of<T>(edges: Seq<Node<T>>) -> Seq<T> {
    edges.map_values(|n: Node<T>| n.node)
}

/// The outcome of a query response: an error reported by GraphQL is a query error,
/// missing data is `missing`, otherwise the data.
pub open spec fn query_outcome<T>(errors: Option<Vec<GraphQLError>>, data: Option<T>, missing: DomainError) -> Result<T, DomainError> {
    if errors is Some {
        Err(DomainError::QueryError)
    } else {
        match data {
            Some(d) => Ok(d),
            None => Err(missing),
        }
    }
}

/// The outcome of a mutation response: an error reported by GraphQL or missing data is `failure`.
pub open spec fn mutation_outcome<T>(errors: Option<Vec<GraphQLError>>, data: Option<T>, failure: DomainError) -> Result<T, DomainError> {
    if errors is Some {
        Err(failure)
    } else {
        match data {
            Some(d) => Ok(d),
            None => Err(failure),
        }
    }
}

impl<T> GraphQLResponse<T> {
    /// The data of a query response (GraphQL errors give a query error, missing data `missing`).
    pub fn into_query_data(self, missing: DomainError) -> (r: Result<T, DomainError>)
        ensures
            r == query_outcome(self.errors, self.data, missing),
    {
        if self.errors.is_some() {
            return Err(DomainError::QueryError);
        }
        match self.data {
            Some(d) => Ok(d),
            None => Err(missing),
        }
    }

    /// The data of a mutation response (GraphQL errors or missing data give `failure`).
    pub fn into_mutation_data(self, failure: DomainError) -> (r: Result<T, DomainError>)
        ensures
            r == mutation_outcome(self.errors, self.data, failure),
    {
        if self.errors.is_some() {
            return Err(failure);
        }
        match self.data {
            Some(d) => Ok(d),
            None => Err(failure),
        }
    }
}

impl<T> Edges<T> {
    /// The nodes of the connection, in order.
    pub fn into_nodes(self) -> (r: Vec<T>)
        ensures
            r@ == nodes_of(self.edges@),
    {
        let mut out: Vec<T> = Vec::new();
        let ghost all = self.edges@;
        let mut rest = self.edges;
        let n = rest.len();
        let mut i: usize = 0;
        while rest.len() > 0
            invariant
                n == all.len(),
                i + rest@.len() == all.len(),
                rest@ == all.subrange(i as int, all.len() as int),
                out@ == nodes_of(all.subrange(0, i as int)),
            decreases rest.len(),
        {
            let n = rest.remove(0);
            out.push(n.node);
            proof {
                assert(all.subrange(0, i + 1) =~= all.subrange(0, i as int).push(all[i as int]));
                assert(nodes_of(all.subrange(0, i + 1)) =~= nodes_of(all.subrange(0, i as int)).push(all[i as int].node));
                assert(rest@ =~= all.subrange(i + 1, all.len() as int));
            }
            i = i + 1;
        }
        assert(all.subrange(0, all.len() as int) =~= all);
        out
    }
}

} // verus!
