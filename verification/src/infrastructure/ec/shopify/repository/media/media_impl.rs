//! What the media repository makes of the responses it gets.
use vstd::prelude::*;

use crate::domain::error::DomainError;
use crate::domain::media::{AssociatedId, Media};
use crate::infrastructure::ec::shopify::repository::schema::common::{nodes_of, GraphQLResponse};
use crate::infrastructure::ec::shopify::repository::schema::media::{media_node_outcome, media_of_node, MediaData, MediaNode};
use crate::infrastructure::ec::shopify::gql_helper::{first_query_text, gid_tail};
use crate::infrastructure::ec::shopify::query_helper::ShopifyGQLQueryHelper;
use crate::text::{decimal, decimal_string, owned};

verus! {

pub struct MediaRepositoryImpl {}

impl MediaRepositoryImpl {
    pub const IMAGE_FIELDS: &'static str = "altText
        height
        id
        url
        width";

    /// The fields of an image.
    pub fn image_fields() -> (r: String)
        ensures
            r@ == Self::IMAGE_FIELDS@,
    {
        owned(Self::IMAGE_FIELDS)
    }

    /// The fields of a media file.
    pub fn media_fields() -> (r: String)
        ensures
            r@ == media_fields_text(),
    {
        let mut r = owned("id fileStatus alt preview { image { ");
        r.append(Self::IMAGE_FIELDS);
        r.append(" } } createdAt updatedAt");
        r
    }
}

/// The fields of a media file: its image's fields under its preview.
pub open spec fn media_fields_text() -> Seq<char> {
    "id fileStatus alt preview { image { "@ + MediaRepositoryImpl::IMAGE_FIELDS@ + " } } createdAt updatedAt"@
}

/// The query for the media of one product.
pub fn media_query(product_id: &str) -> (r: String)
    ensures
        r@ == "query { files("@ + first_query_text(ShopifyGQLQueryHelper::SHOPIFY_QUERY_LIMIT as nat)
            + ", query: \"product_id:'"@ + product_id@ + "'\") { edges { node { "@ + media_fields_text() + " } } "@
            + ShopifyGQLQueryHelper::PAGE_INFO_FIELDS@ + " } }"@,
{
    let mut r = owned("query { files(");
    r.append(ShopifyGQLQueryHelper::first_query().as_str());
    r.append(", query: \"product_id:'");
    r.append(product_id);
    r.append("'\") { edges { node { ");
    r.append(MediaRepositoryImpl::media_fields().as_str());
    r.append(" } } ");
    r.append(ShopifyGQLQueryHelper::page_info().as_str());
    r.append(" } }");
    r
}

/// The aliased files queries for the products, in order: the `i`-th under `alias_text(i)`,
/// filtered by the bare id of the `i`-th product.
pub open spec fn aliased_files(product_ids: Seq<String>) -> Seq<char>
    decreases product_ids.len(),
{
    if product_ids.len() == 0 {
        Seq::empty()
    } else {
        aliased_files(product_ids.drop_last()) + alias_text((product_ids.len() - 1) as nat) + ": files("@
            + first_query_text(ShopifyGQLQueryHelper::SHOPIFY_QUERY_LIMIT as nat) + ", query: \"product_id:'"@
            + gid_tail(product_ids.last()@) + "'\") { edges { node { "@ + media_fields_text() + " } } } "@
    }
}

/// The query for the media of several products, one aliased files query per product.
pub fn media_by_product_ids_query(product_ids: &Vec<String>) -> (r: String)
    ensures
        r@ == "query { "@ + aliased_files(product_ids@) + "}"@,
{
    let mut r = owned("query { ");
    let ghost head = r@;
    let mut i: usize = 0;
    while i < product_ids.len()
        invariant
            i <= product_ids@.len(),
            head == "query { "@,
            r@ == head + aliased_files(product_ids@.subrange(0, i as int)),
        decreases product_ids.len() - i,
    {
        let ghost before = r@;
        r.append(media_alias(i).as_str());
        r.append(": files(");
        r.append(ShopifyGQLQueryHelper::first_query().as_str());
        r.append(", query: \"product_id:'");
        r.append(ShopifyGQLQueryHelper::remove_gid_prefix(product_ids[i].as_str()).as_str());
        r.append("'\") { edges { node { ");
        r.append(MediaRepositoryImpl::media_fields().as_str());
        r.append(" } } } ");
        proof {
            let prev = product_ids@.subrange(0, i as int);
            let next = product_ids@.subrange(0, i + 1);
            assert(next.drop_last() =~= prev);
            assert(next.last() == product_ids@[i as int]);
            assert(r@ =~= head + aliased_files(next));
        }
        i = i + 1;
    }
    assert(product_ids@.subrange(0, product_ids@.len() as int) =~= product_ids@);
    r.append("}");
    r
}

/// `media` is the conversion of `node` with the product `product_id` as the image's owner.
pub open spec fn media_for_product(node: MediaNode, product_id: Seq<char>, media: Media) -> bool {
    exists|id: String| #![trigger media_of_node(node, Some(AssociatedId::Product(id)), media)]
        id@ == product_id && media_of_node(node, Some(AssociatedId::Product(id)), media)
}

/// The media of one product: every file converted with the product as the image's owner.
pub fn media_from_response(response: GraphQLResponse<MediaData>, product_id: &str) -> (r: Result<Vec<Media>, DomainError>)
    ensures
        response.errors is Some ==> r == Err::<Vec<Media>, DomainError>(DomainError::QueryError),
        response.errors is None && response.data is None ==> r == Err::<Vec<Media>, DomainError>(DomainError::QueryError),
        response.errors is None ==> (response.data matches Some(d) ==> ({
            let nodes = nodes_of(d.files.edges@);
            &&& r is Ok <==> forall|k: int| 0 <= k < nodes.len() ==> media_node_outcome(#[trigger] nodes[k]) is Ok
            &&& r matches Err(e) ==> exists|k: int| 0 <= k < nodes.len() && media_node_outcome(#[trigger] nodes[k]) == Err::<(), DomainError>(e)
                && forall|m: int| 0 <= m < k ==> media_node_outcome(#[trigger] nodes[m]) is Ok
            &&& r matches Ok(media) ==> media@.len() == nodes.len()
            &&& r matches Ok(media) ==> forall|k: int| 0 <= k < nodes.len() ==> #[trigger] media_for_product(nodes[k], product_id@, media@[k])
        })),
{
    let data = match response.into_query_data(DomainError::QueryError) {
        Ok(d) => d,
        Err(e) => {
            return Err(e);
        },
    };
    let nodes = data.files.into_nodes();
    let ghost all = nodes@;
    let mut rest = nodes;
    let n = rest.len();
    let mut out: Vec<Media> = Vec::new();
    let mut i: usize = 0;
    while rest.len() > 0
        invariant
            response.errors is None,
            response.data matches Some(dd) && nodes_of(dd.files.edges@) == all,
            n == all.len(),
            i + rest@.len() == all.len(),
            rest@ == all.subrange(i as int, all.len() as int),
            out@.len() == i,
            forall|k: int| 0 <= k < i ==> media_node_outcome(#[trigger] all[k]) is Ok,
            forall|k: int| 0 <= k < i ==> #[trigger] media_for_product(all[k], product_id@, out@[k]),
        decreases rest.len(),
    {
        let node = rest.remove(0);
        assert(node == all[i as int]);
        let id = owned(product_id);
        let ghost gid = id;
        match node.to_domain(Some(AssociatedId::Product(id))) {
            Ok(m) => {
                out.push(m);
                assert(media_of_node(all[i as int], Some(AssociatedId::Product(gid)), out@[i as int]));
            },
            Err(e) => {
                assert(media_node_outcome(all[i as int]) == Err::<(), DomainError>(e));
                return Err(e);
            },
        }
        assert(rest@ =~= all.subrange(i + 1, all.len() as int));
        i = i + 1;
    }
    Ok(out)
}


/// The alias under which the files of the `i`-th product are asked for.
pub open spec fn alias_text(i: nat) -> Seq<char> {
    "i"@ + decimal(i)
}

/// The alias under which the files of the `i`-th product are asked for.
pub fn media_alias(i: usize) -> (r: String)
    ensures
        r@ == alias_text(i as nat),
{
    let mut r = owned("i");
    let n = decimal_string(i);
    r.append(n.as_str());
    r
}

/// The media nodes of the aliased answers, in alias order; an alias that got no answer
/// adds nothing.
pub open spec fn flatten_batches(batches: Seq<Option<Vec<MediaNode>>>) -> Seq<MediaNode>
    decreases batches.len(),
{
    if batches.len() == 0 {
        Seq::empty()
    } else {
        flatten_batches(batches.drop_last()) + match batches.last() {
            Some(v) => v@,
            None => Seq::empty(),
        }
    }
}

/// The owners that the media of several products are given: the products in order.
pub open spec fn product_owners(product_ids: Seq<String>) -> Seq<Option<AssociatedId>> {
    product_ids.map_values(|id: String| Some(AssociatedId::Product(id)))
}

/// `r` is the media of several products made from the answers to the aliased queries
/// (one per product, `None` where the alias got no answer): the files are taken in alias
/// order and converted pairwise with the products in order, as far as both lists go; the
/// first file that does not convert gives its error.
pub open spec fn media_batches_result(
    batches: Seq<Option<Vec<MediaNode>>>,
    product_ids: Seq<String>,
    r: Result<Vec<Media>, DomainError>,
) -> bool {
    let nodes = flatten_batches(batches);
    let owners = product_owners(product_ids);
    let n = if nodes.len() < owners.len() { nodes.len() } else { owners.len() };
    &&& r is Ok <==> forall|k: int| 0 <= k < n ==> media_node_outcome(#[trigger] nodes[k]) is Ok
    &&& r matches Err(e) ==> exists|k: int|
        0 <= k < n && media_node_outcome(#[trigger] nodes[k]) == Err::<(), DomainError>(e)
            && forall|m: int| 0 <= m < k ==> media_node_outcome(#[trigger] nodes[m]) is Ok
    &&& r matches Ok(media) ==> media@.len() == n && forall|k: int|
        0 <= k < n ==> media_of_node(#[trigger] nodes[k], owners[k], media@[k])
}

/// The media of several products, from the answers to the aliased queries (one per
/// product, `None` where the alias got no answer): the files are taken in alias order
/// and converted pairwise with the products in order, as far as both lists go.
pub fn media_by_product_ids(batches: Vec<Option<Vec<MediaNode>>>, product_ids: &Vec<String>) -> (r: Result<Vec<Media>, DomainError>)
    ensures
        media_batches_result(batches@, product_ids@, r),
{
    let ghost all = batches@;
    let mut rest = batches;
    let total = rest.len();
    let mut nodes: Vec<MediaNode> = Vec::new();
    let mut i: usize = 0;
    while rest.len() > 0
        invariant
            total == all.len(),
            i + rest@.len() == all.len(),
            rest@ == all.subrange(i as int, all.len() as int),
            nodes@ == flatten_batches(all.subrange(0, i as int)),
        decreases rest.len(),
    {
        let batch = rest.remove(0);
        assert(batch == all[i as int]);
        assert(all.subrange(0, i + 1).drop_last() =~= all.subrange(0, i as int));
        match batch {
            Some(mut v) => {
                let ghost before = nodes@;
                let ghost added = v@;
                nodes.append(&mut v);
                assert(nodes@ =~= before + added);
            },
            None => {
                assert(nodes@ =~= nodes@ + Seq::<MediaNode>::empty());
            },
        }
        assert(rest@ =~= all.subrange(i + 1, all.len() as int));
        i = i + 1;
    }
    assert(all.subrange(0, all.len() as int) =~= all);
    let mut owners: Vec<Option<AssociatedId>> = Vec::new();
    let mut j: usize = 0;
    while j < product_ids.len()
        invariant
            j <= product_ids@.len(),
            owners@ == product_owners(product_ids@.subrange(0, j as int)),
        decreases product_ids.len() - j,
    {
        owners.push(Some(AssociatedId::Product(product_ids[j].clone())));
        assert(product_owners(product_ids@.subrange(0, j + 1)) =~= product_owners(product_ids@.subrange(0, j as int)).push(
            Some(AssociatedId::Product(product_ids@[j as int])),
        ));
        j = j + 1;
    }
    assert(product_ids@.subrange(0, product_ids@.len() as int) =~= product_ids@);
    MediaNode::to_domains(nodes, owners)
}

/// What the answer to the aliased media query holds under one product's alias.
#[derive(Debug)]
pub enum AliasAnswer {
    /// The alias has no object: the product got no answer.
    Missing,
    /// The file nodes under the alias's `edges` (none where there is no list of edges).
    Files(Vec<MediaNode>),
    /// A node under the alias could not be read as a media node.
    Unreadable,
}

/// The `data` of the answer to the aliased media query.
#[derive(Debug)]
pub enum AliasedMediaData {
    /// The data is not a JSON object.
    NotAnObject,
    /// The answer under each product's alias, in the order of the products.
    Answers(Vec<AliasAnswer>),
}

/// The answers as batches of file nodes, `None` for an alias without an answer.
pub open spec fn answer_batches(answers: Seq<AliasAnswer>) -> Seq<Option<Vec<MediaNode>>> {
    answers.map_values(|a: AliasAnswer| match a {
        AliasAnswer::Files(v) => Some(v),
        _ => None,
    })
}

/// Some node under an alias could not be read.
pub open spec fn has_unreadable(answers: Seq<AliasAnswer>) -> bool {
    exists|k: int| 0 <= k < answers.len() && #[trigger] answers[k] is Unreadable
}

/// The media of several products from the answer to their aliased query: GraphQL errors,
/// missing data or data that is not an object are query errors; a node that could not be
/// read is a system error; otherwise the media of the answers' files.
pub fn media_from_aliased_response(response: GraphQLResponse<AliasedMediaData>, product_ids: &Vec<String>) -> (r: Result<Vec<Media>, DomainError>)
    ensures
        response.errors is Some ==> r == Err::<Vec<Media>, DomainError>(DomainError::QueryError),
        response.errors is None ==> match response.data {
            None => r == Err::<Vec<Media>, DomainError>(DomainError::QueryError),
            Some(AliasedMediaData::NotAnObject) => r == Err::<Vec<Media>, DomainError>(DomainError::QueryError),
            Some(AliasedMediaData::Answers(answers)) => if has_unreadable(answers@) {
                r == Err::<Vec<Media>, DomainError>(DomainError::SystemError)
            } else {
                media_batches_result(answer_batches(answers@), product_ids@, r)
            },
        },
{
    let data = match response.into_query_data(DomainError::QueryError) {
        Ok(d) => d,
        Err(e) => {
            return Err(e);
        },
    };
    let answers = match data {
        AliasedMediaData::NotAnObject => {
            return Err(DomainError::QueryError);
        },
        AliasedMediaData::Answers(a) => a,
    };
    let ghost all = answers@;
    let mut rest = answers;
    let total = rest.len();
    let mut batches: Vec<Option<Vec<MediaNode>>> = Vec::new();
    let mut i: usize = 0;
    while rest.len() > 0
        invariant
            total == all.len(),
            i + rest@.len() == all.len(),
            rest@ == all.subrange(i as int, all.len() as int),
            response.errors is None,
            response.data matches Some(AliasedMediaData::Answers(a)) && a@ == all,
            batches@ == answer_batches(all.subrange(0, i as int)),
            forall|k: int| 0 <= k < i ==> !(#[trigger] all[k] is Unreadable),
        decreases rest.len(),
    {
        let answer = rest.remove(0);
        assert(answer == all[i as int]);
        match answer {
            AliasAnswer::Missing => {
                batches.push(None);
            },
            AliasAnswer::Files(v) => {
                batches.push(Some(v));
            },
            AliasAnswer::Unreadable => {
                assert(all[i as int] is Unreadable);
                return Err(DomainError::SystemError);
            },
        }
        assert(batches@ =~= answer_batches(all.subrange(0, i + 1)));
        assert(rest@ =~= all.subrange(i + 1, all.len() as int));
        i = i + 1;
    }
    assert(all.subrange(0, all.len() as int) =~= all);
    media_by_product_ids(batches, product_ids)
}

} // verus!
