pub mod rbac_authorizer;
pub mod schema;
