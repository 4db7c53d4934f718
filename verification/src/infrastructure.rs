pub mod auth;
pub mod config;
pub mod db;
pub mod ec;
pub mod error;
pub mod module;
pub mod secret;
pub mod shopify;
