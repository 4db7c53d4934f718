pub mod gql_helper;
pub mod query_helper;
pub mod query_service;
pub mod repository;
