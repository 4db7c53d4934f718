//! Inventory levels as the Admin API returns them.
use vstd::prelude::*;

use crate::domain::error::DomainError;
use crate::domain::inventory_level::{InventoryLevel, InventoryType, Quantity};
use crate::infrastructure::ec::shopify::gql_helper::gid_tail;
use crate::infrastructure::ec::shopify::query_helper::ShopifyGQLQueryHelper;
use crate::text::str_equals;

verus! {

#[derive(Debug)]
pub struct InventoryLevelNode {
    pub id: String,
    pub item: InventoryItemIdNode,
    pub location: LocationIdNode,
    pub quantities: Vec<QuantityNode>,
}

#[derive(Debug)]
pub struct QuantityNode {
    pub quantity: i32,
    pub name: String,
}

#[derive(Debug)]
pub struct LocationIdNode {
    pub id: String,
}

#[derive(Debug)]
pub struct InventoryItemIdNode {
    pub id: String,
}

/// The inventory type named `name` in the API.
pub open spec fn inventory_type_of(name: Seq<char>) -> Option<InventoryType> {
    if name == "available"@ {
        Some(InventoryType::Available)
    } else if name == "incoming"@ {
        Some(InventoryType::Incoming)
    } else if name == "committed"@ {
        Some(InventoryType::Committed)
    } else if name == "damaged"@ {
        Some(InventoryType::Damaged)
    } else if name == "safety_stock"@ {
        Some(InventoryType::SafetyStock)
    } else if name == "reserved"@ {
        Some(InventoryType::Reserved)
    } else {
        None
    }
}

/// The inventory type named `name` in the API.
pub fn parse_inventory_type(name: &str) -> (r: Option<InventoryType>)
    ensures
        r == inventory_type_of(name@),
{
    if str_equals(name, "available") {
        Some(InventoryType::Available)
    } else if str_equals(name, "incoming") {
        Some(InventoryType::Incoming)
    } else if str_equals(name, "committed") {
        Some(InventoryType::Committed)
    } else if str_equals(name, "damaged") {
        Some(InventoryType::Damaged)
    } else if str_equals(name, "safety_stock") {
        Some(InventoryType::SafetyStock)
    } else if str_equals(name, "reserved") {
        Some(InventoryType::Reserved)
    } else {
        None
    }
}

/// The quantity of a node: its count as an unsigned number and the type it names.
pub open spec fn quantity_of_node(node: QuantityNode) -> Option<Quantity> {
    match inventory_type_of(node.name@) {
        Some(t) => Some(Quantity { quantity: node.quantity as u32, inventory_type: t }),
        None => None,
    }
}

/// Every quantity of the node names a known inventory type.
pub open spec fn quantities_known(nodes: Seq<QuantityNode>) -> bool {
    forall|k: int| 0 <= k < nodes.len() ==> quantity_of_node(#[trigger] nodes[k]) is Some
}

/// The quantities of the nodes, in order.
pub open spec fn quantities_of(nodes: Seq<QuantityNode>) -> Seq<Quantity> {
    nodes.map_values(|q: QuantityNode| quantity_of_node(q)->0)
}

/// The bare ids of an inventory level node are all non-empty.
pub open spec fn level_ids_present(id: Seq<char>, item_id: Seq<char>, location_id: Seq<char>) -> bool {
    gid_tail(id).len() > 0 && gid_tail(item_id).len() > 0 && gid_tail(location_id).len() > 0
}

/// The outcome of converting an inventory level node: an unknown quantity name is a
/// conversion error, an empty id a validation error.
pub open spec fn level_node_outcome(node: InventoryLevelNode) -> Result<(), DomainError> {
    if !quantities_known(node.quantities@) {
        Err(DomainError::ConversionError)
    } else if !level_ids_present(node.id@, node.item.id@, node.location.id@) {
        Err(DomainError::ValidationError)
    } else {
        Ok(())
    }
}

/// `level` is the conversion of `node`: bare ids and the quantities in order.
pub open spec fn level_of_node(node: InventoryLevelNode, level: InventoryLevel) -> bool {
    &&& level.id@ == gid_tail(node.id@)
    &&& level.inventory_item_id@ == gid_tail(node.item.id@)
    &&& level.location_id@ == gid_tail(node.location.id@)
    &&& level.quantities@ == quantities_of(node.quantities@)
}

impl QuantityNode {
    pub fn to_domain(self) -> (r: Result<Quantity, DomainError>)
        ensures
            quantity_of_node(self) is None ==> r == Err::<Quantity, DomainError>(DomainError::ConversionError),
            quantity_of_node(self) matches Some(q) ==> r == Ok::<Quantity, DomainError>(q),
    {
        let inventory_type = match parse_inventory_type(self.name.as_str()) {
            Some(t) => t,
            None => {
                return Err(DomainError::ConversionError);
            },
        };
        Quantity::new(self.quantity as u32, inventory_type)
    }
}

/// Converts quantity nodes in order, stopping at the first unknown name.
pub fn quantities_to_domain(nodes: Vec<QuantityNode>) -> (r: Result<Vec<Quantity>, DomainError>)
    ensures
        r is Ok <==> quantities_known(nodes@),
        r is Err ==> r == Err::<Vec<Quantity>, DomainError>(DomainError::ConversionError),
        r matches Ok(qs) ==> qs@ == quantities_of(nodes@),
{
    let ghost all = nodes@;
    let mut rest = nodes;
    let n = rest.len();
    let mut out: Vec<Quantity> = Vec::new();
    let mut i: usize = 0;
    while rest.len() > 0
        invariant
            all == nodes@,
            n == all.len(),
            i + rest@.len() == all.len(),
            rest@ == all.subrange(i as int, all.len() as int),
            quantities_known(all.subrange(0, i as int)),
            out@ == quantities_of(all.subrange(0, i as int)),
        decreases rest.len(),
    {
        let node = rest.remove(0);
        assert(node == all[i as int]);
        match node.to_domain() {
            Ok(q) => {
                out.push(q);
            },
            Err(e) => {
                assert(quantity_of_node(all[i as int]) is None);
                return Err(e);
            },
        }
        proof {
            let prev = all.subrange(0, i as int);
            let next = all.subrange(0, i + 1);
            assert(next =~= prev.push(all[i as int]));
            assert(quantities_of(next) =~= quantities_of(prev).push(quantity_of_node(all[i as int])->0));
            assert forall|k: int| 0 <= k < next.len() implies quantity_of_node(#[trigger] next[k]) is Some by {
                if k < prev.len() {
                    assert(next[k] == prev[k]);
                }
            }
            assert(rest@ =~= all.subrange(i + 1, all.len() as int));
        }
        i = i + 1;
    }
    assert(all.subrange(0, all.len() as int) =~= all);
    Ok(out)
}

impl InventoryLevelNode {
    pub fn to_domain(self) -> (r: Result<InventoryLevel, DomainError>)
        ensures
            r is Ok <==> level_node_outcome(self) is Ok,
            level_node_outcome(self) matches Err(e) ==> r == Err::<InventoryLevel, DomainError>(e),
            r matches Ok(level) ==> level_of_node(self, level),
    {
        let quantities = quantities_to_domain(self.quantities);
        let id = ShopifyGQLQueryHelper::remove_gid_prefix(self.id.as_str());
        let item_id = ShopifyGQLQueryHelper::remove_gid_prefix(self.item.id.as_str());
        let location_id = ShopifyGQLQueryHelper::remove_gid_prefix(self.location.id.as_str());
        let quantities = match quantities {
            Ok(q) => q,
            Err(e) => {
                return Err(e);
            },
        };
        InventoryLevel::new(id, item_id, location_id, quantities)
    }

    #[verifier::rlimit(40)]
    pub fn to_domains(schemas: Vec<Self>) -> (r: Result<Vec<InventoryLevel>, DomainError>)
        ensures
            r is Ok <==> forall|k: int| 0 <= k < schemas@.len() ==> level_node_outcome(#[trigger] schemas@[k]) is Ok,
            r matches Err(e) ==> exists|k: int|
                0 <= k < schemas@.len() && level_node_outcome(#[trigger] schemas@[k]) == Err::<(), DomainError>(e)
                    && forall|m: int| 0 <= m < k ==> level_node_outcome(#[trigger] schemas@[m]) is Ok,
            r matches Ok(levels) ==> levels@.len() == schemas@.len() && forall|k: int|
                0 <= k < schemas@.len() ==> level_of_node(#[trigger] schemas@[k], levels@[k]),
    {
        let ghost all = schemas@;
        let mut rest = schemas;
        let n = rest.len();
        let mut out: Vec<InventoryLevel> = Vec::new();
        let mut i: usize = 0;
        while rest.len() > 0
            invariant
                all == schemas@,
                n == all.len(),
                i + rest@.len() == all.len(),
                rest@ == all.subrange(i as int, all.len() as int),
                out@.len() == i,
                forall|k: int| 0 <= k < i ==> level_node_outcome(#[trigger] all[k]) is Ok,
                forall|k: int| 0 <= k < i ==> level_of_node(#[trigger] all[k], out@[k]),
            decreases rest.len(),
        {
            let node = rest.remove(0);
            assert(node == all[i as int]);
            match node.to_domain() {
                Ok(level) => {
                    out.push(level);
                },
                Err(e) => {
                    assert(level_node_outcome(all[i as int]) == Err::<(), DomainError>(e));
                    return Err(e);
                },
            }
            assert(rest@ =~= all.subrange(i + 1, all.len() as int));
            i = i + 1;
        }
        Ok(out)
    }
}

} // verus!
