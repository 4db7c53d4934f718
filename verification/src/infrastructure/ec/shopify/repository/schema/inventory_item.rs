//! Inventory items as the inventory-level queries return them.
use vstd::prelude::*;

use crate::domain::error::DomainError;
use crate::domain::inventory_item::InventoryItem;
use crate::domain::time::Timestamp;
use crate::infrastructure::ec::shopify::gql_helper::gid_tail;
use crate::infrastructure::ec::shopify::query_helper::ShopifyGQLQueryHelper;
use crate::infrastructure::ec::shopify::repository::schema::common::Edges;
use crate::infrastructure::ec::shopify::repository::schema::inventory_level::InventoryLevelNode;

verus! {

#[derive(Debug)]
pub struct VariantsDataForInventory {
    pub product_variants: Edges<VariantNodeForInventory>,
}

#[derive(Debug)]
pub struct VariantNodeForInventory {
    pub inventory_item: InventoryItemNode,
}

#[derive(Debug)]
pub struct InventoryItemsData {
    pub inventory_items: Edges<InventoryItemNode>,
}

#[derive(Debug)]
pub struct InventoryItemNode {
    pub id: String,
    pub variant: VariantIdNode,
    /// Used when obtaining a single InventoryLevel.
    pub inventory_level: Option<InventoryLevelNode>,
    /// Used when acquiring multiple InventoryLevels.
    pub inventory_levels: Edges<InventoryLevelNode>,
    pub requires_shipping: bool,
    pub is_tracked: bool,
    pub created_at: Timestamp,
    pub updated_at: Timestamp,
}

#[derive(Debug)]
pub struct VariantIdNode {
    pub id: String,
}

/// An inventory item node converts when both bare ids are non-empty.
pub open spec fn item_node_valid(node: InventoryItemNode) -> bool {
    gid_tail(node.id@).len() > 0 && gid_tail(node.variant.id@).len() > 0
}

/// `item` is the conversion of the node.
pub open spec fn item_of_node(node: InventoryItemNode, item: InventoryItem) -> bool {
    &&& item.id@ == gid_tail(node.id@)
    &&& item.variant_id@ == gid_tail(node.variant.id@)
    &&& item.requires_shipping == node.requires_shipping
    &&& item.is_tracked == node.is_tracked
    &&& item.created_at == node.created_at
    &&& item.updated_at == node.updated_at
}

impl InventoryItemNode {
    pub fn to_domain(self) -> (r: Result<InventoryItem, DomainError>)
        ensures
            r is Ok <==> item_node_valid(self),
            r is Err ==> r == Err::<InventoryItem, DomainError>(DomainError::ValidationError),
            r matches Ok(item) ==> item_of_node(self, item),
    {
        InventoryItem::new(
            ShopifyGQLQueryHelper::remove_gid_prefix(self.id.as_str()),
            ShopifyGQLQueryHelper::remove_gid_prefix(self.variant.id.as_str()),
            self.requires_shipping,
            self.is_tracked,
            self.created_at,
            self.updated_at,
        )
    }

    pub fn to_domains(schemas: Vec<Self>) -> (r: Result<Vec<InventoryItem>, DomainError>)
        ensures
            r is Ok <==> forall|k: int| 0 <= k < schemas@.len() ==> item_node_valid(#[trigger] schemas@[k]),
            r is Err ==> r == Err::<Vec<InventoryItem>, DomainError>(DomainError::ValidationError),
            r matches Ok(items) ==> items@.len() == schemas@.len() && forall|k: int|
                0 <= k < schemas@.len() ==> item_of_node(#[trigger] schemas@[k], items@[k]),
    {
        let ghost all = schemas@;
        let mut rest = schemas;
        let n = rest.len();
        let mut out: Vec<InventoryItem> = Vec::new();
        let mut i: usize = 0;
        while rest.len() > 0
            invariant
                all == schemas@,
                n == all.len(),
                i + rest@.len() == all.len(),
                rest@ == all.subrange(i as int, all.len() as int),
                out@.len() == i,
                forall|k: int| 0 <= k < i ==> item_node_valid(#[trigger] all[k]),
                forall|k: int| 0 <= k < i ==> item_of_node(#[trigger] all[k], out@[k]),
            decreases rest.len(),
        {
            let s = rest.remove(0);
            assert(s == all[i as int]);
            match s.to_domain() {
                Ok(item) => {
                    out.push(item);
                },
                Err(e) => {
                    assert(!item_node_valid(all[i as int]));
                    return Err(e);
                },
            }
            assert(rest@ =~= all.subrange(i + 1, all.len() as int));
            i = i + 1;
        }
        Ok(out)
    }
}

} // verus!
