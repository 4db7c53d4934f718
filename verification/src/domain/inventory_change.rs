//! Adjustments of inventory quantities.
use vstd::prelude::*;

use crate::domain::inventory_level::InventoryType;

verus! {

#[derive(Clone, Copy, Debug, PartialEq, Eq, Structural)]
pub enum InventoryChangeReason {
    Correction,
    CycleCountAvailable,
    Damaged,
    MovementCreated,
    MovementUpdated,
    MovementReceived,
    MovementCanceled,
    Other,
    Promotion,
    QualityControl,
    Received,
    ReservationCreated,
    ReservationDeleted,
    ReservationUpdated,
}

/// The URI of the document that records an adjustment.
#[derive(Clone, Debug)]
pub struct LedgerDocumentUri {
    pub value: String,
}

/// A change of the quantity of one inventory item at one location.
#[derive(Clone, Debug)]
pub struct Change {
    pub delta: i32,
    pub inventory_item_id: String,
    pub ledger_document_uri: Option<LedgerDocumentUri>,
    pub location_id: String,
}

/// Changes of one inventory type, made for one reason.
#[derive(Clone, Debug)]
pub struct InventoryChange {
    pub name: InventoryType,
    pub reason: InventoryChangeReason,
    pub changes: Vec<Change>,
}

} // verus!
