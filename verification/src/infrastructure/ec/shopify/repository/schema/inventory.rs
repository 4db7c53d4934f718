//! Inventory items and their levels as the inventory queries return them.
use vstd::prelude::*;
use vstd::std_specs::convert::FromSpecImpl;

use crate::domain::error::DomainError;
use crate::domain::inventory_item::InventoryItem;
use crate::domain::inventory_level::{InventoryLevel, Quantity};
use crate::domain::time::Timestamp;
use crate::infrastructure::ec::shopify::gql_helper::gid_tail;
use crate::infrastructure::ec::shopify::query_helper::ShopifyGQLQueryHelper;
use crate::infrastructure::ec::shopify::repository::schema::common::Edges;
use crate::infrastructure::ec::shopify::repository::schema::inventory_level::{inventory_type_of, parse_inventory_type};
use crate::infrastructure::ec::shopify::repository::schema::location::LocationNode;

verus! {

#[derive(Debug)]
pub struct InventoryItemSchema {
    pub id: String,
    pub variant_id: String,
    pub requires_shipping: bool,
    pub is_tracked: bool,
    pub created_at: Timestamp,
    pub updated_at: Timestamp,
}

#[derive(Debug)]
pub struct InventoryLevelSchema {
    pub id: String,
    pub inventory_item_id: String,
    pub location_id: String,
    pub quantities: Vec<QuantitySchema>,
}

#[derive(Debug)]
pub struct QuantitySchema {
    pub quantity: i32,
    pub inventory_type: String,
}

#[derive(Debug)]
pub struct InventoryItemNode {
    pub id: String,
    pub variant: VariantIdNode,
    pub inventory_level: Option<InventoryLevelNode>,
    pub requires_shipping: bool,
    pub is_tracked: bool,
    pub created_at: Timestamp,
    pub updated_at: Timestamp,
}

#[derive(Debug)]
pub struct InventoryLevelNode {
    pub id: String,
    pub item: InventoryItemIdNode,
    pub location: LocationNode,
    pub quantities: Vec<QuantityNode>,
}

#[derive(Debug)]
pub struct InventoryItemIdNode {
    pub id: String,
}

#[derive(Debug)]
pub struct QuantityNode {
    pub quantity: i32,
    pub name: String,
}

#[derive(Debug)]
pub struct VariantIdNode {
    pub id: String,
}

#[derive(Debug)]
pub struct VariantNodeForInventory {
    pub inventory_item: InventoryItemNode,
}

#[derive(Debug)]
pub struct VariantsDataForInventory {
    pub product_variants: Edges<VariantNodeForInventory>,
}

#[derive(Debug)]
pub struct InventoryItemsData {
    pub inventory_items: Edges<InventoryItemNode>,
}

/// An inventory item schema converts when both bare ids are non-empty.
pub open spec fn item_schema_valid(s: InventoryItemSchema) -> bool {
    gid_tail(s.id@).len() > 0 && gid_tail(s.variant_id@).len() > 0
}

/// `item` is the conversion of the schema `s`.
pub open spec fn item_of_schema(s: InventoryItemSchema, item: InventoryItem) -> bool {
    &&& item.id@ == gid_tail(s.id@)
    &&& item.variant_id@ == gid_tail(s.variant_id@)
    &&& item.requires_shipping == s.requires_shipping
    &&& item.is_tracked == s.is_tracked
    &&& item.created_at == s.created_at
    &&& item.updated_at == s.updated_at
}

/// The quantity of a quantity schema, if its type is known.
pub open spec fn quantity_of_schema(q: QuantitySchema) -> Option<Quantity> {
    match inventory_type_of(q.inventory_type@) {
        Some(t) => Some(Quantity { quantity: q.quantity as u32, inventory_type: t }),
        None => None,
    }
}

/// An inventory level schema converts when every quantity type is known and the bare
/// ids are non-empty.
pub open spec fn level_schema_valid(s: InventoryLevelSchema) -> bool {
    &&& forall|k: int| 0 <= k < s.quantities@.len() ==> quantity_of_schema(#[trigger] s.quantities@[k]) is Some
    &&& gid_tail(s.id@).len() > 0
    &&& gid_tail(s.inventory_item_id@).len() > 0
    &&& gid_tail(s.location_id@).len() > 0
}

/// `level` is the conversion of the schema `s`.
pub open spec fn level_of_schema(s: InventoryLevelSchema, level: InventoryLevel) -> bool {
    &&& level.id@ == gid_tail(s.id@)
    &&& level.inventory_item_id@ == gid_tail(s.inventory_item_id@)
    &&& level.location_id@ == gid_tail(s.location_id@)
    &&& level.quantities@ == s.quantities@.map_values(|q: QuantitySchema| quantity_of_schema(q)->0)
}

impl InventoryItemSchema {
    pub fn to_domain(self) -> (r: Result<InventoryItem, DomainError>)
        ensures
            r is Ok <==> item_schema_valid(self),
            r is Err ==> r == Err::<InventoryItem, DomainError>(DomainError::ValidationError),
            r matches Ok(item) ==> item_of_schema(self, item),
    {
        InventoryItem::new(
            ShopifyGQLQueryHelper::remove_gid_prefix(self.id.as_str()),
            ShopifyGQLQueryHelper::remove_gid_prefix(self.variant_id.as_str()),
            self.requires_shipping,
            self.is_tracked,
            self.created_at,
            self.updated_at,
        )
    }

    pub fn to_domains(schemas: Vec<InventoryItemSchema>) -> (r: Result<Vec<InventoryItem>, DomainError>)
        ensures
            r is Ok <==> forall|k: int| 0 <= k < schemas@.len() ==> item_schema_valid(#[trigger] schemas@[k]),
            r is Err ==> r == Err::<Vec<InventoryItem>, DomainError>(DomainError::ValidationError),
            r matches Ok(items) ==> items@.len() == schemas@.len() && forall|k: int|
                0 <= k < schemas@.len() ==> item_of_schema(#[trigger] schemas@[k], items@[k]),
    {
        let ghost all = schemas@;
        let mut rest = schemas;
        let n = rest.len();
        let mut out: Vec<InventoryItem> = Vec::new();
        let mut i: usize = 0;
        while rest.len() > 0
            invariant
                all == schemas@,
                n == all.len(),
                i + rest@.len() == all.len(),
                rest@ == all.subrange(i as int, all.len() as int),
                out@.len() == i,
                forall|k: int| 0 <= k < i ==> item_schema_valid(#[trigger] all[k]),
                forall|k: int| 0 <= k < i ==> item_of_schema(#[trigger] all[k], out@[k]),
            decreases rest.len(),
        {
            let s = rest.remove(0);
            assert(s == all[i as int]);
            match s.to_domain() {
                Ok(item) => {
                    out.push(item);
                },
                Err(e) => {
                    assert(!item_schema_valid(all[i as int]));
                    return Err(e);
                },
            }
            assert(rest@ =~= all.subrange(i + 1, all.len() as int));
            i = i + 1;
        }
        Ok(out)
    }
}

impl QuantitySchema {
    pub fn to_domain(self) -> (r: Result<Quantity, DomainError>)
        ensures
            quantity_of_schema(self) is None ==> r == Err::<Quantity, DomainError>(DomainError::ValidationError),
            quantity_of_schema(self) matches Some(q) ==> r == Ok::<Quantity, DomainError>(q),
    {
        let inventory_type = match parse_inventory_type(self.inventory_type.as_str()) {
            Some(t) => t,
            None => {
                return Err(DomainError::ValidationError);
            },
        };
        Quantity::new(self.quantity as u32, inventory_type)
    }
}

impl InventoryLevelSchema {
    pub fn to_domain(self) -> (r: Result<InventoryLevel, DomainError>)
        ensures
            r is Ok <==> level_schema_valid(self),
            r is Err ==> r == Err::<InventoryLevel, DomainError>(DomainError::ValidationError),
            r matches Ok(level) ==> level_of_schema(self, level),
    {
        let ghost qs = self.quantities@;
        let mut rest = self.quantities;
        let n = rest.len();
        let mut quantities: Vec<Quantity> = Vec::new();
        let mut i: usize = 0;
        while rest.len() > 0
            invariant
                qs == self.quantities@,
                n == qs.len(),
                i + rest@.len() == qs.len(),
                rest@ == qs.subrange(i as int, qs.len() as int),
                forall|k: int| 0 <= k < i ==> quantity_of_schema(#[trigger] qs[k]) is Some,
                quantities@ == qs.subrange(0, i as int).map_values(|q: QuantitySchema| quantity_of_schema(q)->0),
            decreases rest.len(),
        {
            let q = rest.remove(0);
            assert(q == qs[i as int]);
            match q.to_domain() {
                Ok(quantity) => {
                    quantities.push(quantity);
                },
                Err(e) => {
                    assert(quantity_of_schema(qs[i as int]) is None);
                    return Err(e);
                },
            }
            assert(qs.subrange(0, i + 1) =~= qs.subrange(0, i as int).push(qs[i as int]));
            assert(rest@ =~= qs.subrange(i + 1, qs.len() as int));
            i = i + 1;
        }
        assert(qs.subrange(0, qs.len() as int) =~= qs);
        InventoryLevel::new(
            ShopifyGQLQueryHelper::remove_gid_prefix(self.id.as_str()),
            ShopifyGQLQueryHelper::remove_gid_prefix(self.inventory_item_id.as_str()),
            ShopifyGQLQueryHelper::remove_gid_prefix(self.location_id.as_str()),
            quantities,
        )
    }

    pub fn to_domains(schemas: Vec<InventoryLevelSchema>) -> (r: Result<Vec<InventoryLevel>, DomainError>)
        ensures
            r is Ok <==> forall|k: int| 0 <= k < schemas@.len() ==> level_schema_valid(#[trigger] schemas@[k]),
            r is Err ==> r == Err::<Vec<InventoryLevel>, DomainError>(DomainError::ValidationError),
            r matches Ok(levels) ==> levels@.len() == schemas@.len() && forall|k: int|
                0 <= k < schemas@.len() ==> level_of_schema(#[trigger] schemas@[k], levels@[k]),
    {
        let ghost all = schemas@;
        let mut rest = schemas;
        let n = rest.len();
        let mut out: Vec<InventoryLevel> = Vec::new();
        let mut i: usize = 0;
        while rest.len() > 0
            invariant
                all == schemas@,
                n == all.len(),
                i + rest@.len() == all.len(),
                rest@ == all.subrange(i as int, all.len() as int),
                out@.len() == i,
                forall|k: int| 0 <= k < i ==> level_schema_valid(#[trigger] all[k]),
                forall|k: int| 0 <= k < i ==> level_of_schema(#[trigger] all[k], out@[k]),
            decreases rest.len(),
        {
            let s = rest.remove(0);
            assert(s == all[i as int]);
            match s.to_domain() {
                Ok(level) => {
                    out.push(level);
                },
                Err(e) => {
                    assert(!level_schema_valid(all[i as int]));
                    return Err(e);
                },
            }
            assert(rest@ =~= all.subrange(i + 1, all.len() as int));
            i = i + 1;
        }
        Ok(out)
    }

    /// The schema of a level node: the ids of the level, its item and its location, and
    /// the quantities in order.
    pub fn from_node(node: InventoryLevelNode) -> (r: InventoryLevelSchema)
        ensures
            r.id == node.id,
            r.inventory_item_id == node.item.id,
            r.location_id == node.location.id,
            r.quantities@ == node.quantities@.map_values(|q: QuantityNode| QuantitySchema { quantity: q.quantity, inventory_type: q.name }),
    {
        let ghost qs = node.quantities@;
        let mut rest = node.quantities;
        let n = rest.len();
        let mut quantities: Vec<QuantitySchema> = Vec::new();
        let mut i: usize = 0;
        while rest.len() > 0
            invariant
                n == qs.len(),
                i + rest@.len() == qs.len(),
                rest@ == qs.subrange(i as int, qs.len() as int),
                quantities@ == qs.subrange(0, i as int).map_values(|q: QuantityNode| QuantitySchema { quantity: q.quantity, inventory_type: q.name }),
            decreases rest.len(),
        {
            let q = rest.remove(0);
            assert(q == qs[i as int]);
            quantities.push(QuantitySchema::from(q));
            assert(qs.subrange(0, i + 1) =~= qs.subrange(0, i as int).push(qs[i as int]));
            assert(rest@ =~= qs.subrange(i + 1, qs.len() as int));
            i = i + 1;
        }
        assert(qs.subrange(0, qs.len() as int) =~= qs);
        InventoryLevelSchema { id: node.id, inventory_item_id: node.item.id, location_id: node.location.id, quantities }
    }
}

impl From<InventoryItemNode> for InventoryItemSchema {
    fn from(node: InventoryItemNode) -> (r: Self) {
        InventoryItemSchema {
            id: node.id,
            variant_id: node.variant.id,
            requires_shipping: node.requires_shipping,
            is_tracked: node.is_tracked,
            created_at: node.created_at,
            updated_at: node.updated_at,
        }
    }
}

impl FromSpecImpl<InventoryItemNode> for InventoryItemSchema {
    open spec fn obeys_from_spec() -> bool {
        true
    }

    open spec fn from_spec(node: InventoryItemNode) -> InventoryItemSchema {
        InventoryItemSchema {
            id: node.id,
            variant_id: node.variant.id,
            requires_shipping: node.requires_shipping,
            is_tracked: node.is_tracked,
            created_at: node.created_at,
            updated_at: node.updated_at,
        }
    }
}

impl From<QuantityNode> for QuantitySchema {
    fn from(node: QuantityNode) -> (r: Self) {
        QuantitySchema { quantity: node.quantity, inventory_type: node.name }
    }
}

impl FromSpecImpl<QuantityNode> for QuantitySchema {
    open spec fn obeys_from_spec() -> bool {
        true
    }

    open spec fn from_spec(node: QuantityNode) -> QuantitySchema {
        QuantitySchema { quantity: node.quantity, inventory_type: node.name }
    }
}

} // verus!
