pub mod product;
pub mod schema;
