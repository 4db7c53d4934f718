pub mod cognito_authenticator;
