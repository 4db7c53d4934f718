pub mod auth_middleware;
pub mod authorizer_interface;
pub mod cognito;
pub mod idp_user;
pub mod rbac;
