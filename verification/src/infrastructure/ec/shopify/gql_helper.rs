//! Query fragments and Shopify global-id (gid) handling for the GraphQL Admin API.
use vstd::prelude::*;
use vstd::string::*;

use crate::text::{
    chars_of, contains_seq, decimal, decimal_string, has_char, lemma_prefix_before, lemma_prefix_before_free,
    lemma_suffix_after_last, lemma_suffix_after_last_concat, owned, prefix_before, str_contains,
    string_from_chars, suffix_after_last,
};

verus! {

/// `id` with `prefix` put in front, unless `prefix` already occurs in `id`.
pub open spec fn with_gid_prefix(prefix: Seq<char>, id: Seq<char>) -> Seq<char> {
    if contains_seq(id, prefix) {
        id
    } else {
        prefix + id
    }
}

/// The bare id of a gid: the query string (from the first `?`) is dropped,
/// then everything up to and including the last `/`.
pub open spec fn gid_tail(gid: Seq<char>) -> Seq<char> {
    suffix_after_last(prefix_before(gid, '?'), '/')
}

/// A gid prefix: non-empty, ends with `/` and has no `?`.
pub open spec fn is_gid_prefix(prefix: Seq<char>) -> bool {
    &&& prefix.len() > 0
    &&& prefix.last() == '/'
    &&& !has_char(prefix, '?')
}

/// A bare id: neither `/` nor `?` occurs in it.
pub open spec fn is_bare_id(id: Seq<char>) -> bool {
    !has_char(id, '/') && !has_char(id, '?')
}

pub open spec fn first_query_text(limit: nat) -> Seq<char> {
    "first: "@ + decimal(limit)
}

/// Puts `prefix` in front of `id` unless it already occurs in it.
pub fn add_gid_prefix(prefix: &str, id: &str) -> (r: String)
    ensures
        r@ == with_gid_prefix(prefix@, id@),
{
    if str_contains(id, prefix) {
        return owned(id);
    }
    let mut r = owned(prefix);
    r.append(id);
    r
}

/// Strips the query string and the path of a gid, leaving the bare id.
pub fn strip_gid(gid: &str) -> (r: String)
    ensures
        r@ == gid_tail(gid@),
{
    let v = chars_of(gid);
    let n = v.len();
    let mut q: usize = 0;
    while q < n && v[q] != '?'
        invariant
            v@ == gid@,
            n == v@.len(),
            q <= n,
            forall|i: int| 0 <= i < q ==> v@[i] != '?',
        decreases n - q,
    {
        q = q + 1;
    }
    proof {
        lemma_prefix_before(gid@, '?', q as int);
    }
    let mut j: usize = q;
    while j > 0 && v[j - 1] != '/'
        invariant
            v@ == gid@,
            q <= n == v@.len(),
            j <= q,
            forall|i: int| j <= i < q ==> v@[i] != '/',
        decreases j,
    {
        j = j - 1;
    }
    proof {
        let p = gid@.subrange(0, q as int);
        lemma_suffix_after_last(p, '/', j as int);
        assert(p.subrange(j as int, q as int) =~= gid@.subrange(j as int, q as int));
    }
    string_from_chars(&v, j, q)
}

/// Renders `first: <limit>`.
pub fn first_query_for(limit: usize) -> (r: String)
    ensures
        r@ == first_query_text(limit as nat),
{
    let mut r = owned("first: ");
    let digits = decimal_string(limit);
    r.append(digits.as_str());
    r
}

pub struct ShopifyGQLHelper {}

impl ShopifyGQLHelper {
    pub const SHOPIFY_QUERY_LIMIT: usize = 250;

    pub const SHOPIFY_PRODUCT_VARIANT_GID_PREFIX: &'static str = "gid://shopify/ProductVariant/";

    pub const SHOPIFY_INVENTORY_ITEM_GID_PREFIX: &'static str = "gid://shopify/InventoryItem/";

    pub const SHOPIFY_LOCATION_GID_PREFIX: &'static str = "gid://shopify/Location/";

    pub const SHOPIFY_DRAFT_ORDER_GID_PREFIX: &'static str = "gid://shopify/DraftOrder/";

    pub const SHOPIFY_CUSTOMER_GID_PREFIX: &'static str = "gid://shopify/Customer/";

    pub const PAGE_INFO_FIELDS: &'static str = "pageInfo {
            hasPreviousPage
            hasNextPage
            startCursor
            endCursor
        }";

    pub const USER_ERRORS_FIELDS: &'static str = "userErrors {
            field
            message
        }";

    pub const ADDRESS_FIELDS: &'static str = "address1
        address2
        city
        coordinatesValidated
        country
        firstName
        id
        lastName
        name
        phone
        province
        zip";

    pub const MONEY_BAG_FIELDS: &'static str = "shopMoney {
            amount
            currencyCode
        }";

    /// Return first query with max limit.
    pub fn first_query() -> (r: String)
        ensures
            r@ == first_query_text(Self::SHOPIFY_QUERY_LIMIT as nat),
    {
        first_query_for(Self::SHOPIFY_QUERY_LIMIT)
    }

    /// Return pageInfo query.
    pub fn page_info() -> (r: String)
        ensures
            r@ == Self::PAGE_INFO_FIELDS@,
    {
        owned(Self::PAGE_INFO_FIELDS)
    }

    /// Return userErrors query.
    pub fn user_errors() -> (r: String)
        ensures
            r@ == Self::USER_ERRORS_FIELDS@,
    {
        owned(Self::USER_ERRORS_FIELDS)
    }

    /// Return address fields.
    pub fn address_fields() -> (r: String)
        ensures
            r@ == Self::ADDRESS_FIELDS@,
    {
        owned(Self::ADDRESS_FIELDS)
    }

    /// Return money bag fields.
    pub fn money_bag_fields() -> (r: String)
        ensures
            r@ == Self::MONEY_BAG_FIELDS@,
    {
        owned(Self::MONEY_BAG_FIELDS)
    }

    /// Add Shopify gid prefix for InventoryItem.
    pub fn add_inventory_item_gid_prefix(id: &str) -> (r: String)
        ensures
            r@ == with_gid_prefix(Self::SHOPIFY_INVENTORY_ITEM_GID_PREFIX@, id@),
    {
        add_gid_prefix(Self::SHOPIFY_INVENTORY_ITEM_GID_PREFIX, id)
    }

    /// Add Shopify gid prefix for Location.
    pub fn add_location_gid_prefix(id: &str) -> (r: String)
        ensures
            r@ == with_gid_prefix(Self::SHOPIFY_LOCATION_GID_PREFIX@, id@),
    {
        add_gid_prefix(Self::SHOPIFY_LOCATION_GID_PREFIX, id)
    }

    /// Add Shopify gid prefix for DraftOrder.
    pub fn add_draft_order_gid_prefix(id: &str) -> (r: String)
        ensures
            r@ == with_gid_prefix(Self::SHOPIFY_DRAFT_ORDER_GID_PREFIX@, id@),
    {
        add_gid_prefix(Self::SHOPIFY_DRAFT_ORDER_GID_PREFIX, id)
    }

    /// Add Shopify gid prefix for Customer.
    pub fn add_customer_gid_prefix(id: &str) -> (r: String)
        ensures
            r@ == with_gid_prefix(Self::SHOPIFY_CUSTOMER_GID_PREFIX@, id@),
    {
        add_gid_prefix(Self::SHOPIFY_CUSTOMER_GID_PREFIX, id)
    }

    /// Add Shopify gid prefix for Product variant.
    pub fn add_product_variant_gid_prefix(id: &str) -> (r: String)
        ensures
            r@ == with_gid_prefix(Self::SHOPIFY_PRODUCT_VARIANT_GID_PREFIX@, id@),
    {
        add_gid_prefix(Self::SHOPIFY_PRODUCT_VARIANT_GID_PREFIX, id)
    }

    /// Remove Shopify gid prefix.
    pub fn remove_gid_prefix(gid: &str) -> (r: String)
        ensures
            r@ == gid_tail(gid@),
    {
        strip_gid(gid)
    }

    /// The value of the metafield `key` in `namespace`, asked for under the alias `key`.
    pub fn metafield_query(key: &str, namespace: &str) -> (r: String)
        ensures
            r@ == metafield_query_text(key@, namespace@),
    {
        let mut r = owned(key);
        r.append(": metafield(key: \"");
        r.append(key);
        r.append("\", namespace: \"");
        r.append(namespace);
        r.append("\") { value }");
        r
    }
}

/// The query fragment for the value of the metafield `key` in `namespace`, under the alias `key`.
pub open spec fn metafield_query_text(key: Seq<char>, namespace: Seq<char>) -> Seq<char> {
    key + ": metafield(key: \""@ + key + "\", namespace: \""@ + namespace + "\") { value }"@
}

/// Removing the gid prefix gives back the bare id that a gid prefix was added to.
pub proof fn lemma_remove_undoes_add(prefix: Seq<char>, id: Seq<char>)
    requires
        is_gid_prefix(prefix),
        is_bare_id(id),
    ensures
        gid_tail(with_gid_prefix(prefix, id)) == id,
{
    if contains_seq(id, prefix) {
        let i = choose|i: int| 0 <= i && i + prefix.len() <= id.len() && #[trigger] id.subrange(i, i + prefix.len()) == prefix;
        assert(id.subrange(i, i + prefix.len())[prefix.len() - 1] == '/');
        assert(false);
    }
    let s = prefix + id;
    assert(!has_char(s, '?')) by {
        assert forall|k: int| 0 <= k < s.len() implies s[k] != '?' by {
            if k < prefix.len() {
                assert(s[k] == prefix[k]);
            } else {
                assert(s[k] == id[k - prefix.len()]);
            }
        }
    }
    lemma_prefix_before_free(s, '?');
    lemma_suffix_after_last_concat(prefix, id, '/');
}

/// Adding a gid prefix twice is the same as adding it once.
pub proof fn lemma_add_gid_prefix_idempotent(prefix: Seq<char>, id: Seq<char>)
    ensures
        with_gid_prefix(prefix, with_gid_prefix(prefix, id)) == with_gid_prefix(prefix, id),
{
    if !contains_seq(id, prefix) {
        let s = prefix + id;
        assert(s.subrange(0int, 0int + prefix.len()) =~= prefix);
    }
}

/// A bare id is its own bare id: removing the prefix changes nothing.
pub proof fn lemma_remove_gid_prefix_of_bare_id(id: Seq<char>)
    requires
        is_bare_id(id),
    ensures
        gid_tail(id) == id,
{
    lemma_prefix_before_free(id, '?');
    lemma_suffix_after_last(id, '/', 0);
    assert(id.subrange(0, id.len() as int) =~= id);
}

/// Every prefix constant of the helper is a gid prefix.
pub proof fn lemma_helper_prefixes_are_gid_prefixes()
    ensures
        is_gid_prefix(ShopifyGQLHelper::SHOPIFY_PRODUCT_VARIANT_GID_PREFIX@),
        is_gid_prefix(ShopifyGQLHelper::SHOPIFY_INVENTORY_ITEM_GID_PREFIX@),
        is_gid_prefix(ShopifyGQLHelper::SHOPIFY_LOCATION_GID_PREFIX@),
        is_gid_prefix(ShopifyGQLHelper::SHOPIFY_DRAFT_ORDER_GID_PREFIX@),
        is_gid_prefix(ShopifyGQLHelper::SHOPIFY_CUSTOMER_GID_PREFIX@),
{
    reveal_strlit("gid://shopify/ProductVariant/");
    reveal_strlit("gid://shopify/InventoryItem/");
    reveal_strlit("gid://shopify/Location/");
    reveal_strlit("gid://shopify/DraftOrder/");
    reveal_strlit("gid://shopify/Customer/");
}

} // verus!
