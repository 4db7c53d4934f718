//! Infrastructure layer of the shop backend: Shopify GraphQL schema
//! conversions, identifier helpers, pagination and role-based authorization.
pub mod text;
pub mod infrastructure;
pub mod domain;
