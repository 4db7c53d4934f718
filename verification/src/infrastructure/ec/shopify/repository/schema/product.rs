//! Products and variants as the Admin API returns them, and the grouping of a list of
//! variants into the products they belong to.
use vstd::prelude::*;

use crate::domain::error::DomainError;
use crate::domain::money::Amount;
use crate::domain::product::{Barcode, InventoryPolicy, Product, ProductStatus, Sku, Variant};
use crate::domain::time::Timestamp;
use crate::infrastructure::ec::shopify::gql_helper::gid_tail;
use crate::infrastructure::ec::shopify::query_helper::ShopifyGQLQueryHelper;
use crate::infrastructure::ec::shopify::repository::schema::common::Edges;
use crate::infrastructure::ec::shopify::repository::schema::money::{amount_text, amount_text_outcome, lemma_amount_text_is_decimal};
use crate::text::str_equals;

verus! {

#[derive(Debug)]
pub struct ProductsData {
    pub products: Edges<ProductNode>,
}

#[derive(Debug)]
pub struct ProductNode {
    pub id: String,
    pub category: Option<TaxonomyCategory>,
    pub title: String,
    pub description: String,
    pub status: String,
}

#[derive(Debug)]
pub struct TaxonomyCategory {
    pub id: String,
}

#[derive(Debug)]
pub struct VariantsData {
    pub product_variants: Edges<VariantNode>,
}

#[derive(Debug)]
pub struct VariantNode {
    pub id: String,
    pub title: String,
    pub sku: Option<String>,
    pub barcode: Option<String>,
    pub available_for_sale: bool,
    pub position: i32,
    pub inventory_item: InventoryItemIdNode,
    pub inventory_quantity: Option<i32>,
    pub inventory_policy: String,
    /// A money amount as text; it is not a MoneyV2 object.
    pub price: String,
    pub taxable: bool,
    pub tax_code: Option<String>,
    pub created_at: Timestamp,
    pub updated_at: Timestamp,
    pub product: ProductNode,
}

#[derive(Debug)]
pub struct InventoryItemIdNode {
    pub id: String,
}

pub open spec fn product_status_of(status: Seq<char>) -> Option<ProductStatus> {
    if status == "ACTIVE"@ {
        Some(ProductStatus::Active)
    } else if status == "ARCHIVED"@ {
        Some(ProductStatus::Inactive)
    } else if status == "DRAFT"@ {
        Some(ProductStatus::Draft)
    } else {
        None
    }
}

pub open spec fn inventory_policy_of(policy: Seq<char>) -> Option<InventoryPolicy> {
    if policy == "DENY"@ {
        Some(InventoryPolicy::Deny)
    } else if policy == "CONTINUE"@ {
        Some(InventoryPolicy::Continue)
    } else {
        None
    }
}

/// The outcome of converting a variant node: an empty SKU or barcode is a validation
/// error, an unknown inventory policy a conversion error, then the price and the id.
pub open spec fn variant_outcome(node: VariantNode) -> Result<(), DomainError> {
    if node.sku matches Some(s) && s@.len() == 0 {
        Err(DomainError::ValidationError)
    } else if node.barcode matches Some(b) && b@.len() == 0 {
        Err(DomainError::ValidationError)
    } else if inventory_policy_of(node.inventory_policy@) is None {
        Err(DomainError::ConversionError)
    } else {
        match amount_text_outcome(node.price@) {
            Err(e) => Err(e),
            Ok(_) => if gid_tail(node.id@).len() == 0 {
                Err(DomainError::ValidationError)
            } else {
                Ok(())
            },
        }
    }
}

/// `v` is the conversion of the variant node `node`.
pub open spec fn variant_of_node(node: VariantNode, v: Variant) -> bool {
    &&& v.id@ == gid_tail(node.id@)
    &&& v.name == Some(node.title)
    &&& v.sku == match node.sku {
        Some(s) => Some(Sku { value: s }),
        None => None,
    }
    &&& v.barcode == match node.barcode {
        Some(b) => Some(Barcode { value: b }),
        None => None,
    }
    &&& v.available_for_sale == node.available_for_sale
    &&& v.list_order == node.position as u8
    &&& v.inventory_item_id@ == gid_tail(node.inventory_item.id@)
    &&& Some(v.inventory_policy) == inventory_policy_of(node.inventory_policy@)
    &&& v.inventory_quantity == match node.inventory_quantity {
        Some(q) => Some(q as u32),
        None => None,
    }
    &&& amount_text_outcome(node.price@) == Ok::<Seq<char>, DomainError>(v.price.value@)
    &&& v.taxable == node.taxable
    &&& v.tax_code == node.tax_code
    &&& v.created_at == node.created_at
    &&& v.updated_at == node.updated_at
}

/// The product a variant node belongs to, by its bare id.
pub open spec fn product_key(node: VariantNode) -> Seq<char> {
    gid_tail(node.product.id@)
}

/// The outcome of converting the first variant node of a product: the product's status,
/// the variant, then the product's id and title.
pub open spec fn product_outcome(node: VariantNode) -> Result<(), DomainError> {
    if product_status_of(node.product.status@) is None {
        Err(DomainError::ConversionError)
    } else {
        match variant_outcome(node) {
            Err(e) => Err(e),
            Ok(_) => if product_key(node).len() == 0 || node.product.title@.len() == 0 {
                Err(DomainError::ValidationError)
            } else {
                Ok(())
            },
        }
    }
}

/// `p` carries the product fields of the variant node `node`.
pub open spec fn product_header_of(node: VariantNode, p: Product) -> bool {
    &&& p.id@ == product_key(node)
    &&& p.title == node.product.title
    &&& p.description == node.product.description
    &&& Some(p.status) == product_status_of(node.product.status@)
    &&& p.category_id == match node.product.category {
        Some(c) => Some(c.id),
        None => None,
    }
}

/// No node before position `k` belongs to the product of `nodes[k]`.
pub open spec fn is_first_of_product(nodes: Seq<VariantNode>, k: int) -> bool {
    forall|m: int| 0 <= m < k ==> product_key(#[trigger] nodes[m]) != product_key(nodes[k])
}

/// The outcome of the node at position `k`: the first node of a product makes the
/// product, a later one only adds its variant.
pub open spec fn grouped_node_outcome(nodes: Seq<VariantNode>, k: int) -> Result<(), DomainError> {
    if is_first_of_product(nodes, k) {
        product_outcome(nodes[k])
    } else {
        variant_outcome(nodes[k])
    }
}

/// Position `k` is listed in some entry of `members`.
pub open spec fn is_member(members: Seq<Seq<int>>, k: int) -> bool {
    exists|j: int, m: int| 0 <= j < members.len() && 0 <= m < members[j].len() && #[trigger] members[j][m] == k
}

/// `products` groups the first `upto` variant nodes by product: `members[j]` lists, in
/// order, the positions of the nodes whose variants product `j` holds; every node is a
/// member of exactly the product with its key, whose fields come from its first node;
/// products come in the order of their first nodes.
pub open spec fn is_grouping(nodes: Seq<VariantNode>, products: Seq<Product>, members: Seq<Seq<int>>, upto: int) -> bool {
    &&& members.len() == products.len()
    &&& forall|j: int| 0 <= j < members.len() ==> (#[trigger] members[j]).len() == products[j].variants@.len() && members[j].len() > 0
    &&& forall|j: int, m: int|
        0 <= j < members.len() && 0 <= m < members[j].len() ==> 0 <= #[trigger] members[j][m] < upto
            && product_key(nodes[members[j][m]]) == products[j].id@
            && variant_of_node(nodes[members[j][m]], products[j].variants@[m])
    &&& forall|j: int, m1: int, m2: int|
        0 <= j < members.len() && 0 <= m1 < m2 < members[j].len() ==> #[trigger] members[j][m1] < #[trigger] members[j][m2]
    &&& forall|k: int| 0 <= k < upto ==> #[trigger] is_member(members, k)
    &&& forall|j: int| 0 <= j < members.len() ==> product_header_of(nodes[(#[trigger] members[j])[0]], products[j])
    &&& forall|j: int, l: int| 0 <= j < l < members.len() ==> (#[trigger] members[j])[0] < (#[trigger] members[l])[0]
    &&& forall|j: int, l: int| 0 <= j < l < products.len() ==> (#[trigger] products[j]).id@ != (#[trigger] products[l]).id@
}

impl VariantNode {
    pub fn to_variant_domain(self) -> (r: Result<Variant, DomainError>)
        ensures
            r is Ok <==> variant_outcome(self) is Ok,
            variant_outcome(self) matches Err(e) ==> r == Err::<Variant, DomainError>(e),
            r matches Ok(v) ==> variant_of_node(self, v),
    {
        let sku = match self.sku {
            Some(s) => match Sku::new(s) {
                Ok(s) => Some(s),
                Err(e) => {
                    return Err(e);
                },
            },
            None => None,
        };
        let barcode = match self.barcode {
            Some(b) => match Barcode::new(b) {
                Ok(b) => Some(b),
                Err(e) => {
                    return Err(e);
                },
            },
            None => None,
        };
        let inventory_quantity = match self.inventory_quantity {
            Some(q) => Some(q as u32),
            None => None,
        };
        let inventory_policy = if str_equals(self.inventory_policy.as_str(), "DENY") {
            InventoryPolicy::Deny
        } else if str_equals(self.inventory_policy.as_str(), "CONTINUE") {
            InventoryPolicy::Continue
        } else {
            return Err(DomainError::ConversionError);
        };
        proof {
            lemma_amount_text_is_decimal(self.price@);
        }
        let price_text = match amount_text(self.price.as_str()) {
            Ok(t) => t,
            Err(e) => {
                return Err(e);
            },
        };
        let price = match Amount::new(price_text) {
            Ok(p) => p,
            Err(e) => {
                return Err(e);
            },
        };
        Variant::new(
            ShopifyGQLQueryHelper::remove_gid_prefix(self.id.as_str()),
            Some(self.title),
            sku,
            barcode,
            self.available_for_sale,
            self.position as u8,
            ShopifyGQLQueryHelper::remove_gid_prefix(self.inventory_item.id.as_str()),
            inventory_policy,
            inventory_quantity,
            price,
            self.taxable,
            self.tax_code,
            self.created_at,
            self.updated_at,
        )
    }

    pub fn to_product_domain(self) -> (r: Result<Product, DomainError>)
        ensures
            r is Ok <==> product_outcome(self) is Ok,
            product_outcome(self) matches Err(e) ==> r == Err::<Product, DomainError>(e),
            r matches Ok(p) ==> product_header_of(self, p) && p.variants@.len() == 1 && variant_of_node(self, p.variants@[0]),
    {
        let product_id = ShopifyGQLQueryHelper::remove_gid_prefix(self.product.id.as_str());
        let status = if str_equals(self.product.status.as_str(), "ACTIVE") {
            ProductStatus::Active
        } else if str_equals(self.product.status.as_str(), "ARCHIVED") {
            ProductStatus::Inactive
        } else if str_equals(self.product.status.as_str(), "DRAFT") {
            ProductStatus::Draft
        } else {
            return Err(DomainError::ConversionError);
        };
        let title = self.product.title;
        let description = self.product.description;
        let category_id = match self.product.category {
            Some(c) => Some(c.id),
            None => None,
        };
        let variant_node = VariantNode {
            id: self.id,
            title: self.title,
            sku: self.sku,
            barcode: self.barcode,
            available_for_sale: self.available_for_sale,
            position: self.position,
            inventory_item: self.inventory_item,
            inventory_quantity: self.inventory_quantity,
            inventory_policy: self.inventory_policy,
            price: self.price,
            taxable: self.taxable,
            tax_code: self.tax_code,
            created_at: self.created_at,
            updated_at: self.updated_at,
            product: ProductNode {
                id: String::new(),
                category: None,
                title: String::new(),
                description: String::new(),
                status: String::new(),
            },
        };
        let variant = match variant_node.to_variant_domain() {
            Ok(v) => v,
            Err(e) => {
                return Err(e);
            },
        };
        let mut variants: Vec<Variant> = Vec::new();
        variants.push(variant);
        Product::new(product_id, title, description, status, variants, category_id)
    }

    /// Groups variant nodes into the products they belong to, in the order in which the
    /// products first occur; each product holds its variants in the order of the nodes.
    #[verifier::rlimit(60)]
    pub fn to_product_domains(variant_schemas: Vec<Self>) -> (r: Result<Vec<Product>, DomainError>)
        ensures
            r is Ok <==> forall|k: int| 0 <= k < variant_schemas@.len() ==> grouped_node_outcome(variant_schemas@, k) is Ok,
            r matches Err(e) ==> exists|k: int|
                0 <= k < variant_schemas@.len() && grouped_node_outcome(variant_schemas@, k) == Err::<(), DomainError>(e)
                    && forall|m: int| 0 <= m < k ==> grouped_node_outcome(variant_schemas@, m) is Ok,
            r matches Ok(products) ==> exists|members: Seq<Seq<int>>|
                is_grouping(variant_schemas@, products@, members, variant_schemas@.len() as int),
    {
        let ghost all = variant_schemas@;
        let mut rest = variant_schemas;
        let n = rest.len();
        let mut products: Vec<Product> = Vec::new();
        let ghost mut members: Seq<Seq<int>> = Seq::empty();
        let mut i: usize = 0;
        while rest.len() > 0
            invariant
                all == variant_schemas@,
                n == all.len(),
                i + rest@.len() == all.len(),
                rest@ == all.subrange(i as int, all.len() as int),
                is_grouping(all, products@, members, i as int),
                forall|k: int| 0 <= k < i ==> grouped_node_outcome(all, k) is Ok,
            decreases rest.len(),
        {
            let node = rest.remove(0);
            assert(node == all[i as int]);
            assert(rest@ =~= all.subrange(i + 1, all.len() as int));
            let key = ShopifyGQLQueryHelper::remove_gid_prefix(node.product.id.as_str());
            let mut j: usize = 0;
            while j < products.len() && !str_equals(products[j].id.as_str(), key.as_str())
                invariant
                    j <= products@.len(),
                    forall|l: int| 0 <= l < j ==> (#[trigger] products@[l]).id@ != key@,
                decreases products.len() - j,
            {
                j = j + 1;
            }
            if j < products.len() {
                // A later variant of a product already made.
                assert(!is_first_of_product(all, i as int)) by {
                    assert(members[j as int].len() > 0);
                    let f = members[j as int][0];
                    assert(0 <= f < i);
                    assert(product_key(all[f]) == products@[j as int].id@);
                }
                let variant = match node.to_variant_domain() {
                    Ok(v) => v,
                    Err(e) => {
                        assert(grouped_node_outcome(all, i as int) == Err::<(), DomainError>(e));
                        return Err(e);
                    },
                };
                let ghost old_products = products@;
                let ghost old_members = members;
                let mut product = products.remove(j);
                let _ = product.add_variant(variant);
                products.insert(j, product);
                proof {
                    members = old_members.update(j as int, old_members[j as int].push(i as int));
                    lemma_grouping_extend(all, old_products, old_members, products@, members, i as int, j as int);
                }
            } else {
                // The first variant of a product not seen yet.
                assert(is_first_of_product(all, i as int)) by {
                    assert forall|m: int| 0 <= m < i implies product_key(#[trigger] all[m]) != product_key(all[i as int]) by {
                        assert(is_member(members, m));
                        let (jj, mm) = choose|jj: int, mm: int|
                            0 <= jj < members.len() && 0 <= mm < members[jj].len() && #[trigger] members[jj][mm] == m;
                        assert(product_key(all[members[jj][mm]]) == products@[jj].id@);
                        assert(products@[jj].id@ != key@);
                    }
                }
                let product = match node.to_product_domain() {
                    Ok(p) => p,
                    Err(e) => {
                        assert(grouped_node_outcome(all, i as int) == Err::<(), DomainError>(e));
                        return Err(e);
                    },
                };
                let ghost old_products = products@;
                let ghost old_members = members;
                products.push(product);
                proof {
                    members = old_members.push(seq![i as int]);
                    lemma_grouping_new_product(all, old_products, old_members, products@, members, i as int);
                }
            }
            i = i + 1;
        }
        assert(is_grouping(variant_schemas@, products@, members, variant_schemas@.len() as int));
        assert(exists|mm: Seq<Seq<int>>| is_grouping(variant_schemas@, products@, mm, variant_schemas@.len() as int));
        let r: Result<Vec<Product>, DomainError> = Ok(products);
        assert(r matches Ok(ps) && ps@ == products@);
        r
    }
}

/// Adding the variant of node `i` to product `j`, whose key it has, keeps the grouping.
proof fn lemma_grouping_extend(
    nodes: Seq<VariantNode>,
    old_products: Seq<Product>,
    old_members: Seq<Seq<int>>,
    products: Seq<Product>,
    members: Seq<Seq<int>>,
    i: int,
    j: int,
)
    requires
        0 <= i < nodes.len(),
        is_grouping(nodes, old_products, old_members, i),
        0 <= j < old_products.len(),
        old_products[j].id@ == product_key(nodes[i]),
        products.len() == old_products.len(),
        forall|l: int| 0 <= l < products.len() && l != j ==> products[l] == old_products[l],
        products[j].id == old_products[j].id,
        products[j].title == old_products[j].title,
        products[j].description == old_products[j].description,
        products[j].status == old_products[j].status,
        products[j].category_id == old_products[j].category_id,
        exists|v: Variant| variant_of_node(nodes[i], v) && products[j].variants@ == old_products[j].variants@.push(v),
        members == old_members.update(j, old_members[j].push(i)),
    ensures
        is_grouping(nodes, products, members, i + 1),
{
    let v = choose|v: Variant| variant_of_node(nodes[i], v) && products[j].variants@ == old_products[j].variants@.push(v);
    assert forall|l: int, m: int|
        0 <= l < members.len() && 0 <= m < members[l].len() implies 0 <= #[trigger] members[l][m] < i + 1
            && product_key(nodes[members[l][m]]) == products[l].id@
            && variant_of_node(nodes[members[l][m]], products[l].variants@[m]) by {
        if l == j && m == old_members[j].len() {
            assert(members[l][m] == i);
        } else {
            assert(members[l][m] == old_members[l][m]);
            if l == j {
                assert(products[l].variants@[m] == old_products[l].variants@[m]);
            }
        }
    }
    assert forall|l: int, m1: int, m2: int|
        0 <= l < members.len() && 0 <= m1 < m2 < members[l].len() implies #[trigger] members[l][m1] < #[trigger] members[l][m2] by {
        assert(members[l][m1] == old_members[l][m1]);
        if !(l == j && m2 == old_members[j].len()) {
            assert(members[l][m2] == old_members[l][m2]);
        }
    }
    assert forall|k: int| 0 <= k < i + 1 implies #[trigger] is_member(members, k) by {
        if k == i {
            assert(members[j][old_members[j].len() as int] == i);
        } else {
            assert(is_member(old_members, k));
            let (l, m) = choose|l: int, m: int|
                0 <= l < old_members.len() && 0 <= m < old_members[l].len() && #[trigger] old_members[l][m] == k;
            assert(members[l][m] == k);
        }
    }
    assert forall|l: int| 0 <= l < members.len() implies product_header_of(nodes[(#[trigger] members[l])[0]], products[l]) by {
        assert(members[l][0] == old_members[l][0]);
        assert(product_header_of(nodes[old_members[l][0]], old_products[l]));
    }
    assert forall|a: int, b: int| 0 <= a < b < members.len() implies (#[trigger] members[a])[0] < (#[trigger] members[b])[0] by {
        assert(members[a][0] == old_members[a][0]);
        assert(members[b][0] == old_members[b][0]);
    }
    assert forall|a: int, b: int| 0 <= a < b < products.len() implies (#[trigger] products[a]).id@ != (#[trigger] products[b]).id@ by {
        assert(old_products[a].id@ != old_products[b].id@);
    }
}

/// Making a new product from node `i`, the first of its key, keeps the grouping.
proof fn lemma_grouping_new_product(
    nodes: Seq<VariantNode>,
    old_products: Seq<Product>,
    old_members: Seq<Seq<int>>,
    products: Seq<Product>,
    members: Seq<Seq<int>>,
    i: int,
)
    requires
        0 <= i < nodes.len(),
        is_grouping(nodes, old_products, old_members, i),
        forall|l: int| 0 <= l < old_products.len() ==> (#[trigger] old_products[l]).id@ != product_key(nodes[i]),
        products.len() == old_products.len() + 1,
        forall|l: int| 0 <= l < old_products.len() ==> products[l] == old_products[l],
        product_header_of(nodes[i], products[old_products.len() as int]),
        products[old_products.len() as int].variants@.len() == 1,
        variant_of_node(nodes[i], products[old_products.len() as int].variants@[0]),
        members == old_members.push(seq![i]),
    ensures
        is_grouping(nodes, products, members, i + 1),
{
    let last = old_products.len() as int;
    assert forall|l: int, m: int|
        0 <= l < members.len() && 0 <= m < members[l].len() implies 0 <= #[trigger] members[l][m] < i + 1
            && product_key(nodes[members[l][m]]) == products[l].id@
            && variant_of_node(nodes[members[l][m]], products[l].variants@[m]) by {
        if l < last {
            assert(members[l] == old_members[l]);
        } else {
            assert(members[l][m] == i);
        }
    }
    assert forall|l: int, m1: int, m2: int|
        0 <= l < members.len() && 0 <= m1 < m2 < members[l].len() implies #[trigger] members[l][m1] < #[trigger] members[l][m2] by {
        assert(l < last);
        assert(members[l] == old_members[l]);
    }
    assert forall|k: int| 0 <= k < i + 1 implies #[trigger] is_member(members, k) by {
        if k == i {
            assert(members[last][0] == i);
        } else {
            assert(is_member(old_members, k));
            let (l, m) = choose|l: int, m: int|
                0 <= l < old_members.len() && 0 <= m < old_members[l].len() && #[trigger] old_members[l][m] == k;
            assert(members[l] == old_members[l]);
            assert(members[l][m] == k);
        }
    }
    assert forall|l: int| 0 <= l < members.len() implies product_header_of(nodes[(#[trigger] members[l])[0]], products[l]) by {
        if l < last {
            assert(members[l] == old_members[l]);
        } else {
            assert(members[l][0] == i);
        }
    }
    assert forall|a: int, b: int| 0 <= a < b < members.len() implies (#[trigger] members[a])[0] < (#[trigger] members[b])[0] by {
        assert(members[a] == old_members[a]);
        assert(old_members[a].len() > 0);
        assert(old_members[a][0] < i);
        if b < last {
            assert(members[b] == old_members[b]);
        } else {
            assert(members[b][0] == i);
        }
    }
    assert forall|a: int, b: int| 0 <= a < b < products.len() implies (#[trigger] products[a]).id@ != (#[trigger] products[b]).id@ by {
        if b < last {
            assert(old_products[a].id@ != old_products[b].id@);
        } else {
            assert(products[a] == old_products[a]);
            assert(product_header_of(nodes[i], products[b]));
        }
    }
}

/// The product statuses of the Admin API map by a fixed table, whatever the node:
/// `ACTIVE` is active, `ARCHIVED` inactive and `DRAFT` a draft, and no other status is
/// known.
pub proof fn lemma_product_status_table(status: Seq<char>)
    ensures
        product_status_of(status) == Some(ProductStatus::Active) <==> status == "ACTIVE"@,
        product_status_of(status) == Some(ProductStatus::Inactive) <==> status == "ARCHIVED"@,
        product_status_of(status) == Some(ProductStatus::Draft) <==> status == "DRAFT"@,
        product_status_of(status) is None <==> (status != "ACTIVE"@ && status != "ARCHIVED"@ && status != "DRAFT"@),
{
    reveal_strlit("ACTIVE");
    reveal_strlit("ARCHIVED");
    reveal_strlit("DRAFT");
    assert("ACTIVE"@[1] != "ARCHIVED"@[1]);
    assert("ACTIVE"@[0] != "DRAFT"@[0]);
    assert("ARCHIVED"@[0] != "DRAFT"@[0]);
}

/// A product made from a variant node has the status that the node's product status
/// names: active for `ACTIVE`, inactive for `ARCHIVED`, a draft for `DRAFT`.
pub proof fn lemma_product_status_of_node(node: VariantNode, p: Product)
    requires
        product_header_of(node, p),
    ensures
        p.status == ProductStatus::Active <==> node.product.status@ == "ACTIVE"@,
        p.status == ProductStatus::Inactive <==> node.product.status@ == "ARCHIVED"@,
        p.status == ProductStatus::Draft <==> node.product.status@ == "DRAFT"@,
{
    lemma_product_status_table(node.product.status@);
}

} // verus!
