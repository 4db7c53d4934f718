pub mod address;
pub mod address_input;
pub mod common;
pub mod inventory_level;
pub mod location;
pub mod money;
pub mod money_input;
pub mod media;
pub mod product;
pub mod inventory;
pub mod inventory_item;
pub mod inventory_change;
pub mod line_item;
pub mod line_item_input;
pub mod draft_order;
pub mod draft_order_input;
pub mod customer;
