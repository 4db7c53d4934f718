pub mod customer;
pub mod draft_order;
pub mod inventory;
pub mod inventory_level;
pub mod location;
pub mod media;
pub mod pagination;
pub mod product;
pub mod schema;
