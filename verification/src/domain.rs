//! The domain model that the infrastructure layer converts to and from.
//!
//! Constructors check what the conversions rely on: identifiers and titles are
//! non-empty, amounts are not negative; a failed check is a validation error.
pub mod address;
pub mod customer;
pub mod draft_order;
pub mod email;
pub mod error;
pub mod inventory_change;
pub mod inventory_item;
pub mod inventory_level;
pub mod line_item;
pub mod location;
pub mod media;
pub mod money;
pub mod phone;
pub mod product;
pub mod time;
pub mod user;
