use backend::domain::error::DomainError;
use backend::infrastructure::config::{AppConfig, CognitoConfig, DatabaseConfig, ShopifyConfig};
use backend::infrastructure::module::interact_provider_impl::InteractProviderImpl;
use backend::text::parse_bounded;

fn some(s: &str) -> Option<String> {
    Some(s.to_string())
}

#[test]
fn app_config_defaults() {
    let config = AppConfig::new(None, None, None).unwrap();
    assert_eq!(config.log_level(), "debug");
    assert_eq!(config.port(), "8011");
    assert_eq!(config.address(), "0.0.0.0");
}

#[test]
fn app_config_takes_the_set_values() {
    let config = AppConfig::new(some("warn"), some("9000"), some("127.0.0.1")).unwrap();
    assert_eq!(config.log_level(), "warn");
    assert_eq!(config.port(), "9000");
    assert_eq!(config.address(), "127.0.0.1");
}

#[test]
fn app_config_accepts_only_known_log_levels() {
    for level in ["error", "warn", "info", "debug", "trace", "off"] {
        assert!(AppConfig::new(some(level), None, None).is_ok());
    }
    for level in ["DEBUG", "verbose", ""] {
        assert!(matches!(AppConfig::new(some(level), None, None), Err(DomainError::InitConfigError)));
    }
}

#[test]
fn shopify_config_needs_both_values() {
    let config = ShopifyConfig::new(some("https://shop.example/graphql"), some("token")).unwrap();
    assert_eq!(config.store_url(), "https://shop.example/graphql");
    assert_eq!(config.access_token(), "token");
    assert!(matches!(ShopifyConfig::new(None, some("token")), Err(DomainError::InitConfigError)));
    assert!(matches!(ShopifyConfig::new(some("url"), None), Err(DomainError::InitConfigError)));
    let provider = InteractProviderImpl::new(config.clone());
    assert_eq!(provider.shopify_config().store_url(), "https://shop.example/graphql");
}

#[test]
fn cognito_config_needs_every_value() {
    let config = CognitoConfig::new(some("pool"), some("client"), some("ap-northeast-1"), some("https://keys")).unwrap();
    assert_eq!(config.user_pool_id(), "pool");
    assert_eq!(config.client_id(), "client");
    assert_eq!(config.region(), "ap-northeast-1");
    assert_eq!(config.jwks_uri(), "https://keys");
    assert!(CognitoConfig::new(some("pool"), some("client"), None, some("https://keys")).is_err());
    assert!(CognitoConfig::new(None, None, None, None).is_err());
}

#[test]
fn database_config_defaults() {
    let config = DatabaseConfig::new(some("postgres://db"), None, None, None, None, None, None).unwrap();
    assert_eq!(config.url(), "postgres://db");
    assert_eq!(*config.max_connections(), 10);
    assert_eq!(*config.min_connections(), 5);
    assert_eq!(*config.connect_timeout(), 10);
    assert_eq!(*config.acquire_timeout(), 10);
    assert_eq!(*config.idle_timeout(), 300);
    assert_eq!(*config.max_lifetime(), 300);
    assert!(matches!(
        DatabaseConfig::new(None, None, None, None, None, None, None),
        Err(DomainError::InitConfigError)
    ));
}

#[test]
fn database_config_reads_numbers_and_falls_back() {
    let config = DatabaseConfig::new(
        some("postgres://db"),
        some("20"),
        some("+3"),
        some("abc"),
        some("-1"),
        some("18446744073709551615"),
        some("18446744073709551616"),
    )
    .unwrap();
    assert_eq!(*config.max_connections(), 20);
    assert_eq!(*config.min_connections(), 3);
    assert_eq!(*config.connect_timeout(), 10);
    assert_eq!(*config.acquire_timeout(), 10);
    assert_eq!(*config.idle_timeout(), u64::MAX);
    assert_eq!(*config.max_lifetime(), 300);
    let config = DatabaseConfig::new(some("db"), some("4294967296"), some(" 7"), None, None, None, None).unwrap();
    assert_eq!(*config.max_connections(), 10);
    assert_eq!(*config.min_connections(), 5);
}

#[test]
fn numbers_parse_as_std_does() {
    for text in ["0", "7", "+7", "007", "4294967295", "18446744073709551615", "", "+", "-", "-0", "1_0", " 1", "1 ", "99999999999999999999"] {
        assert_eq!(parse_bounded(text, u64::MAX), text.parse::<u64>().ok(), "{text:?}");
        assert_eq!(parse_bounded(text, u32::MAX as u64), text.parse::<u32>().ok().map(|v| v as u64), "{text:?}");
    }
}
