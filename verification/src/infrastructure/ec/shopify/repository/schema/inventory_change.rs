//! Inventory adjustments: the mutation input and what the mutation returns.
use vstd::prelude::*;

use crate::domain::error::DomainError;
use crate::domain::inventory_change::{Change, InventoryChange, InventoryChangeReason};
use crate::domain::inventory_level::{InventoryLevel, InventoryType};
use crate::infrastructure::ec::shopify::gql_helper::with_gid_prefix;
use crate::infrastructure::ec::shopify::query_helper::ShopifyGQLQueryHelper;
use crate::infrastructure::ec::shopify::repository::schema::common::UserError;
use crate::infrastructure::ec::shopify::repository::schema::inventory_item::InventoryItemNode;
use crate::infrastructure::ec::shopify::repository::schema::inventory_level::{
    inventory_type_of, level_node_outcome, level_of_node, InventoryLevelNode,
};
use crate::text::owned;

verus! {

#[derive(Debug)]
pub struct InventoryAdjustQuantitiesInput {
    pub changes: Vec<InventoryChangeInput>,
    pub name: String,
    pub reason: String,
}

#[derive(Debug)]
pub struct InventoryChangeInput {
    pub delta: i32,
    pub inventory_item_id: String,
    pub ledger_document_uri: Option<String>,
    pub location_id: String,
}

#[derive(Debug)]
pub struct InventoryAdjustQuantitiesData {
    pub inventory_adjust_quantities: InventoryAdjustQuantities,
}

#[derive(Debug)]
pub struct InventoryAdjustQuantities {
    pub inventory_adjustment_group: Option<InventoryAdjustmentGroupNode>,
    pub user_errors: Vec<UserError>,
}

#[derive(Debug)]
pub struct InventoryAdjustmentGroupNode {
    pub changes: Vec<InventoryChangeNode>,
}

#[derive(Debug)]
pub struct InventoryChangeNode {
    pub item: InventoryItemNode,
}

/// The API name of an adjustment reason.
pub open spec fn reason_text(reason: InventoryChangeReason) -> Seq<char> {
    match reason {
        InventoryChangeReason::Correction => "correction"@,
        InventoryChangeReason::CycleCountAvailable => "cycle_count_available"@,
        InventoryChangeReason::Damaged => "damaged"@,
        InventoryChangeReason::MovementCreated => "movement_created"@,
        InventoryChangeReason::MovementUpdated => "movement_updated"@,
        InventoryChangeReason::MovementReceived => "movement_received"@,
        InventoryChangeReason::MovementCanceled => "movement_canceled"@,
        InventoryChangeReason::Other => "other"@,
        InventoryChangeReason::Promotion => "promotion"@,
        InventoryChangeReason::QualityControl => "quality_control"@,
        InventoryChangeReason::Received => "received"@,
        InventoryChangeReason::ReservationCreated => "reservation_created"@,
        InventoryChangeReason::ReservationDeleted => "reservation_deleted"@,
        InventoryChangeReason::ReservationUpdated => "reservation_updated"@,
    }
}

/// The API name of an inventory type.
pub open spec fn inventory_type_text(t: InventoryType) -> Seq<char> {
    match t {
        InventoryType::Available => "available"@,
        InventoryType::Incoming => "incoming"@,
        InventoryType::Committed => "committed"@,
        InventoryType::Damaged => "damaged"@,
        InventoryType::SafetyStock => "safety_stock"@,
        InventoryType::Reserved => "reserved"@,
    }
}

/// The API name of an adjustment reason.
pub fn reason_string(reason: InventoryChangeReason) -> (s: String)
    ensures
        s@ == reason_text(reason),
{
    match reason {
        InventoryChangeReason::Correction => owned("correction"),
        InventoryChangeReason::CycleCountAvailable => owned("cycle_count_available"),
        InventoryChangeReason::Damaged => owned("damaged"),
        InventoryChangeReason::MovementCreated => owned("movement_created"),
        InventoryChangeReason::MovementUpdated => owned("movement_updated"),
        InventoryChangeReason::MovementReceived => owned("movement_received"),
        InventoryChangeReason::MovementCanceled => owned("movement_canceled"),
        InventoryChangeReason::Other => owned("other"),
        InventoryChangeReason::Promotion => owned("promotion"),
        InventoryChangeReason::QualityControl => owned("quality_control"),
        InventoryChangeReason::Received => owned("received"),
        InventoryChangeReason::ReservationCreated => owned("reservation_created"),
        InventoryChangeReason::ReservationDeleted => owned("reservation_deleted"),
        InventoryChangeReason::ReservationUpdated => owned("reservation_updated"),
    }
}

/// The API name of an inventory type.
pub fn inventory_type_string(t: InventoryType) -> (s: String)
    ensures
        s@ == inventory_type_text(t),
{
    match t {
        InventoryType::Available => owned("available"),
        InventoryType::Incoming => owned("incoming"),
        InventoryType::Committed => owned("committed"),
        InventoryType::Damaged => owned("damaged"),
        InventoryType::SafetyStock => owned("safety_stock"),
        InventoryType::Reserved => owned("reserved"),
    }
}

/// `input` is the mutation input of the change `c`: gid-prefixed ids, the document URI as text.
pub open spec fn change_input_of(c: Change, input: InventoryChangeInput) -> bool {
    &&& input.delta == c.delta
    &&& input.inventory_item_id@ == with_gid_prefix(ShopifyGQLQueryHelper::SHOPIFY_INVENTORY_ITEM_GID_PREFIX@, c.inventory_item_id@)
    &&& input.ledger_document_uri == match c.ledger_document_uri {
        Some(u) => Some(u.value),
        None => None,
    }
    &&& input.location_id@ == with_gid_prefix(ShopifyGQLQueryHelper::SHOPIFY_LOCATION_GID_PREFIX@, c.location_id@)
}

impl InventoryAdjustQuantitiesInput {
    /// The mutation input of an inventory change.
    pub fn from_change(domain: InventoryChange) -> (r: InventoryAdjustQuantitiesInput)
        ensures
            r.changes@.len() == domain.changes@.len(),
            forall|k: int| 0 <= k < domain.changes@.len() ==> change_input_of(#[trigger] domain.changes@[k], r.changes@[k]),
            r.name@ == inventory_type_text(domain.name),
            r.reason@ == reason_text(domain.reason),
    {
        let ghost all = domain.changes@;
        let mut rest = domain.changes;
        let n = rest.len();
        let mut changes: Vec<InventoryChangeInput> = Vec::new();
        let mut i: usize = 0;
        while rest.len() > 0
            invariant
                n == all.len(),
                i + rest@.len() == all.len(),
                rest@ == all.subrange(i as int, all.len() as int),
                changes@.len() == i,
                forall|k: int| 0 <= k < i ==> change_input_of(#[trigger] all[k], changes@[k]),
            decreases rest.len(),
        {
            let change = rest.remove(0);
            assert(change == all[i as int]);
            let ledger_document_uri = match change.ledger_document_uri {
                Some(l) => Some(l.value),
                None => None,
            };
            changes.push(
                InventoryChangeInput {
                    delta: change.delta,
                    inventory_item_id: ShopifyGQLQueryHelper::add_inventory_item_gid_prefix(change.inventory_item_id.as_str()),
                    ledger_document_uri,
                    location_id: ShopifyGQLQueryHelper::add_location_gid_prefix(change.location_id.as_str()),
                },
            );
            assert(rest@ =~= all.subrange(i + 1, all.len() as int));
            i = i + 1;
        }
        InventoryAdjustQuantitiesInput {
            changes,
            name: inventory_type_string(domain.name),
            reason: reason_string(domain.reason),
        }
    }
}

/// The outcome of an inventory adjustment: GraphQL errors, missing data and user
/// errors are all query errors.
pub open spec fn adjust_outcome(
    errors_present: bool,
    data: Option<InventoryAdjustQuantitiesData>,
) -> Result<(), DomainError> {
    if errors_present {
        Err(DomainError::QueryError)
    } else {
        match data {
            None => Err(DomainError::QueryError),
            Some(d) => if d.inventory_adjust_quantities.user_errors@.len() > 0 {
                Err(DomainError::QueryError)
            } else {
                Ok(())
            },
        }
    }
}

/// The inventory level nodes of every changed item, in order.
pub open spec fn changed_level_nodes(changes: Seq<InventoryChangeNode>) -> Seq<InventoryLevelNode>
    decreases changes.len(),
{
    if changes.len() == 0 {
        Seq::empty()
    } else {
        changed_level_nodes(changes.drop_last()) + crate::infrastructure::ec::shopify::repository::schema::common::nodes_of(
            changes.last().item.inventory_levels.edges@,
        )
    }
}

impl InventoryAdjustmentGroupNode {
    /// The inventory levels of all changed items, flattened in order.
    pub fn to_inventory_level_domains(self) -> (r: Result<Vec<InventoryLevel>, DomainError>)
        ensures
            ({
                let nodes = changed_level_nodes(self.changes@);
                &&& r is Ok <==> forall|k: int| 0 <= k < nodes.len() ==> level_node_outcome(#[trigger] nodes[k]) is Ok
                &&& r matches Ok(levels) ==> levels@.len() == nodes.len() && forall|k: int|
                    0 <= k < nodes.len() ==> level_of_node(#[trigger] nodes[k], levels@[k])
            }),
    {
        let ghost all = self.changes@;
        let mut rest = self.changes;
        let n = rest.len();
        let mut out: Vec<InventoryLevel> = Vec::new();
        let mut i: usize = 0;
        while rest.len() > 0
            invariant
                all == self.changes@,
                n == all.len(),
                i + rest@.len() == all.len(),
                rest@ == all.subrange(i as int, all.len() as int),
                out@.len() == changed_level_nodes(all.subrange(0, i as int)).len(),
                forall|k: int| 0 <= k < out@.len() ==> level_node_outcome(#[trigger] changed_level_nodes(all.subrange(0, i as int))[k]) is Ok,
                forall|k: int| 0 <= k < out@.len() ==> level_of_node(#[trigger] changed_level_nodes(all.subrange(0, i as int))[k], out@[k]),
            decreases rest.len(),
        {
            let change = rest.remove(0);
            assert(change == all[i as int]);
            let ghost prev = changed_level_nodes(all.subrange(0, i as int));
            assert(all.subrange(0, i + 1).drop_last() =~= all.subrange(0, i as int));
            let level_nodes = change.item.inventory_levels.into_nodes();
            let ghost block = level_nodes@;
            assert(changed_level_nodes(all.subrange(0, i + 1)) =~= prev + block);
            let levels = match InventoryLevelNode::to_domains(level_nodes) {
                Ok(l) => l,
                Err(e) => {
                    proof {
                        let k = choose|k: int| 0 <= k < block.len() && level_node_outcome(#[trigger] block[k]) == Err::<(), DomainError>(e)
                            && forall|m: int| 0 <= m < k ==> level_node_outcome(#[trigger] block[m]) is Ok;
                        lemma_changed_level_nodes_prefix(all, i as int + 1, self.changes@);
                        let whole = changed_level_nodes(self.changes@);
                        assert(whole.subrange(0, (prev + block).len() as int) == prev + block);
                        assert(whole[prev.len() + k] == (prev + block)[prev.len() + k]);
                        assert(level_node_outcome(whole[prev.len() + k]) is Err);
                    }
                    return Err(e);
                },
            };
            let ghost before = out@;
            let mut levels = levels;
            out.append(&mut levels);
            proof {
                let next = prev + block;
                assert forall|k: int| 0 <= k < out@.len() implies level_node_outcome(#[trigger] next[k]) is Ok && level_of_node(next[k], out@[k]) by {
                    if k < before.len() {
                        assert(next[k] == prev[k]);
                        assert(out@[k] == before[k]);
                    } else {
                        assert(next[k] == block[k - before.len()]);
                    }
                }
            }
            assert(rest@ =~= all.subrange(i + 1, all.len() as int));
            i = i + 1;
        }
        assert(all.subrange(0, all.len() as int) =~= all);
        Ok(out)
    }
}

/// The flattened level nodes of a prefix of the changes are a prefix of those of all changes.
proof fn lemma_changed_level_nodes_prefix(all: Seq<InventoryChangeNode>, j: int, whole: Seq<InventoryChangeNode>)
    requires
        all == whole,
        0 <= j <= all.len(),
    ensures
        changed_level_nodes(all.subrange(0, j)).len() <= changed_level_nodes(whole).len(),
        changed_level_nodes(whole).subrange(0, changed_level_nodes(all.subrange(0, j)).len() as int)
            == changed_level_nodes(all.subrange(0, j)),
    decreases all.len() - j,
{
    if j == all.len() {
        assert(all.subrange(0, j) =~= whole);
        assert(changed_level_nodes(whole).subrange(0, changed_level_nodes(whole).len() as int) =~= changed_level_nodes(whole));
    } else {
        lemma_changed_level_nodes_prefix(all, j + 1, whole);
        let a = changed_level_nodes(all.subrange(0, j));
        let b = changed_level_nodes(all.subrange(0, j + 1));
        assert(all.subrange(0, j + 1).drop_last() =~= all.subrange(0, j));
        assert(b.subrange(0, a.len() as int) =~= a);
        assert(changed_level_nodes(whole).subrange(0, a.len() as int) =~= b.subrange(0, a.len() as int));
    }
}

/// The API name written for an inventory type reads back as that type, and a name that
/// reads as a type is the one written for it.
pub proof fn lemma_inventory_type_round_trip(t: InventoryType, name: Seq<char>)
    ensures
        inventory_type_of(inventory_type_text(t)) == Some(t),
        inventory_type_of(name) == Some(t) ==> name == inventory_type_text(t),
{
    reveal_strlit("available");
    reveal_strlit("incoming");
    reveal_strlit("committed");
    reveal_strlit("damaged");
    reveal_strlit("safety_stock");
    reveal_strlit("reserved");
    let names = seq!["available"@, "incoming"@, "committed"@, "damaged"@, "safety_stock"@, "reserved"@];
    assert forall|i: int, j: int| 0 <= i < j < 6 implies names[i] != names[j] by {
        assert(names[i][0] != names[j][0]);
    }
    assert(names[0] != names[1] && names[0] != names[2] && names[0] != names[3] && names[0] != names[4] && names[0] != names[5]);
    assert(names[1] != names[2] && names[1] != names[3] && names[1] != names[4] && names[1] != names[5]);
    assert(names[2] != names[3] && names[2] != names[4] && names[2] != names[5]);
    assert(names[3] != names[4] && names[3] != names[5] && names[4] != names[5]);
}

} // verus!
