pub mod secrets_manager;
