pub mod ec_client_interface;
pub mod shopify;
