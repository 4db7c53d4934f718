pub mod product;
