//! Settings of the application, of the Shopify store, of Cognito and of the
//! database pool. The values come from the environment; each constructor takes
//! the value of every variable (`None` where it is not set) and applies the
//! defaults and checks.
use vstd::prelude::*;

use crate::domain::error::DomainError;
use crate::text::{bounded_value, owned, parse_bounded, str_equals};

verus! {

/// A set value, or `default` where the variable is not set.
pub open spec fn value_or(v: Option<String>, default: Seq<char>) -> Seq<char> {
    match v {
        Some(s) => s@,
        None => default,
    }
}

/// A log level that the application accepts.
pub open spec fn is_log_level(s: Seq<char>) -> bool {
    ||| s == "error"@
    ||| s == "warn"@
    ||| s == "info"@
    ||| s == "debug"@
    ||| s == "trace"@
    ||| s == "off"@
}

/// A numeric setting: the number where the variable holds an unsigned numeral
/// within `max`, otherwise `default`.
pub open spec fn numeric_or(v: Option<String>, max: nat, default: nat) -> nat {
    match v {
        Some(s) => match bounded_value(s@, max) {
            Some(n) => n,
            None => default,
        },
        None => default,
    }
}

fn string_or(v: Option<String>, default: &str) -> (r: String)
    ensures
        r@ == value_or(v, default@),
{
    match v {
        Some(s) => s,
        None => owned(default),
    }
}

fn number_or(v: Option<String>, max: u64, default: u64) -> (r: u64)
    requires
        default <= max,
    ensures
        r as nat == numeric_or(v, max as nat, default as nat),
        r <= max,
{
    match v {
        Some(s) => match parse_bounded(s.as_str(), max) {
            Some(n) => n,
            None => default,
        },
        None => default,
    }
}

fn is_log_level_exec(s: &str) -> (b: bool)
    ensures
        b == is_log_level(s@),
{
    str_equals(s, "error") || str_equals(s, "warn") || str_equals(s, "info")
        || str_equals(s, "debug") || str_equals(s, "trace") || str_equals(s, "off")
}

/// AppConfig manages application settings.
#[derive(Clone)]
pub struct AppConfig {
    address: String,
    port: String,
    log_level: String,
}

impl AppConfig {
    pub closed spec fn spec_address(&self) -> Seq<char> {
        self.address@
    }

    pub closed spec fn spec_port(&self) -> Seq<char> {
        self.port@
    }

    pub closed spec fn spec_log_level(&self) -> Seq<char> {
        self.log_level@
    }

    /// From `LOG_LEVEL` (default `debug`, one of `error`, `warn`, `info`, `debug`,
    /// `trace`, `off`, else an init-config error), `APP_PORT` (default `8011`) and
    /// `APP_ADDRESS` (default `0.0.0.0`).
    pub fn new(log_level: Option<String>, port: Option<String>, address: Option<String>) -> (r: Result<Self, DomainError>)
        ensures
            r is Ok <==> is_log_level(value_or(log_level, "debug"@)),
            r matches Err(e) ==> e == DomainError::InitConfigError,
            r matches Ok(c) ==> {
                &&& c.spec_log_level() == value_or(log_level, "debug"@)
                &&& c.spec_port() == value_or(port, "8011"@)
                &&& c.spec_address() == value_or(address, "0.0.0.0"@)
            },
    {
        let log_level = string_or(log_level, "debug");
        if !is_log_level_exec(log_level.as_str()) {
            return Err(DomainError::InitConfigError);
        }
        let port = string_or(port, "8011");
        let address = string_or(address, "0.0.0.0");
        Ok(AppConfig { address, port, log_level })
    }

    pub fn address(&self) -> (r: &String)
        ensures
            r@ == self.spec_address(),
    {
        &self.address
    }

    pub fn port(&self) -> (r: &String)
        ensures
            r@ == self.spec_port(),
    {
        &self.port
    }

    pub fn log_level(&self) -> (r: &String)
        ensures
            r@ == self.spec_log_level(),
    {
        &self.log_level
    }
}

/// ShopifyConfig manages Shopify settings.
#[derive(Clone)]
pub struct ShopifyConfig {
    store_url: String,
    access_token: String,
}

impl ShopifyConfig {
    pub closed spec fn spec_store_url(&self) -> Seq<char> {
        self.store_url@
    }

    pub closed spec fn spec_access_token(&self) -> Seq<char> {
        self.access_token@
    }

    /// From `STORE_URL` and `ACCESS_TOKEN`; either missing is an init-config error.
    pub fn new(store_url: Option<String>, access_token: Option<String>) -> (r: Result<Self, DomainError>)
        ensures
            r is Ok <==> (store_url is Some && access_token is Some),
            r matches Err(e) ==> e == DomainError::InitConfigError,
            r matches Ok(c) ==> {
                &&& c.spec_store_url() == store_url->Some_0@
                &&& c.spec_access_token() == access_token->Some_0@
            },
    {
        let store_url = match store_url {
            Some(s) => s,
            None => return Err(DomainError::InitConfigError),
        };
        let access_token = match access_token {
            Some(s) => s,
            None => return Err(DomainError::InitConfigError),
        };
        Ok(ShopifyConfig { store_url, access_token })
    }

    pub fn store_url(&self) -> (r: &String)
        ensures
            r@ == self.spec_store_url(),
    {
        &self.store_url
    }

    pub fn access_token(&self) -> (r: &String)
        ensures
            r@ == self.spec_access_token(),
    {
        &self.access_token
    }
}

/// CognitoConfig manages Cognito settings.
#[derive(Clone)]
pub struct CognitoConfig {
    user_pool_id: String,
    client_id: String,
    region: String,
    jwks_uri: String,
}

impl CognitoConfig {
    pub closed spec fn spec_user_pool_id(&self) -> Seq<char> {
        self.user_pool_id@
    }

    pub closed spec fn spec_client_id(&self) -> Seq<char> {
        self.client_id@
    }

    pub closed spec fn spec_region(&self) -> Seq<char> {
        self.region@
    }

    pub closed spec fn spec_jwks_uri(&self) -> Seq<char> {
        self.jwks_uri@
    }

    /// From `COGNITO_USER_POOL_ID`, `COGNITO_CLIENT_ID`, `COGNITO_REGION` and
    /// `COGNITO_JWKS_URI`; any of them missing is an init-config error.
    pub fn new(
        user_pool_id: Option<String>,
        client_id: Option<String>,
        region: Option<String>,
        jwks_uri: Option<String>,
    ) -> (r: Result<Self, DomainError>)
        ensures
            r is Ok <==> (user_pool_id is Some && client_id is Some && region is Some && jwks_uri is Some),
            r matches Err(e) ==> e == DomainError::InitConfigError,
            r matches Ok(c) ==> {
                &&& c.spec_user_pool_id() == user_pool_id->Some_0@
                &&& c.spec_client_id() == client_id->Some_0@
                &&& c.spec_region() == region->Some_0@
                &&& c.spec_jwks_uri() == jwks_uri->Some_0@
            },
    {
        let user_pool_id = match user_pool_id {
            Some(s) => s,
            None => return Err(DomainError::InitConfigError),
        };
        let client_id = match client_id {
            Some(s) => s,
            None => return Err(DomainError::InitConfigError),
        };
        let region = match region {
            Some(s) => s,
            None => return Err(DomainError::InitConfigError),
        };
        let jwks_uri = match jwks_uri {
            Some(s) => s,
            None => return Err(DomainError::InitConfigError),
        };
        Ok(CognitoConfig { user_pool_id, client_id, region, jwks_uri })
    }

    pub fn user_pool_id(&self) -> (r: &String)
        ensures
            r@ == self.spec_user_pool_id(),
    {
        &self.user_pool_id
    }

    pub fn client_id(&self) -> (r: &String)
        ensures
            r@ == self.spec_client_id(),
    {
        &self.client_id
    }

    pub fn region(&self) -> (r: &String)
        ensures
            r@ == self.spec_region(),
    {
        &self.region
    }

    pub fn jwks_uri(&self) -> (r: &String)
        ensures
            r@ == self.spec_jwks_uri(),
    {
        &self.jwks_uri
    }
}

/// DatabaseConfig manages Database settings.
#[derive(Clone)]
pub struct DatabaseConfig {
    /// Set the database URL of the pool.
    url: String,
    /// Set the maximum number of connections of the pool.
    max_connections: u32,
    /// Set the minimum number of connections of the pool.
    min_connections: u32,
    /// Set the timeout duration when acquiring a connection.
    connect_timeout: u64,
    /// Set the maximum amount of time to spend waiting for acquiring a connection.
    acquire_timeout: u64,
    /// Set the idle duration before closing a connection.
    idle_timeout: u64,
    /// Set the maximum lifetime of individual connections.
    max_lifetime: u64,
}

impl DatabaseConfig {
    pub closed spec fn spec_url(&self) -> Seq<char> {
        self.url@
    }

    /// The numeric settings, in the order of the fields.
    pub closed spec fn spec_numbers(&self) -> (nat, nat, nat, nat, nat, nat) {
        (
            self.max_connections as nat,
            self.min_connections as nat,
            self.connect_timeout as nat,
            self.acquire_timeout as nat,
            self.idle_timeout as nat,
            self.max_lifetime as nat,
        )
    }

    /// From `DATABASE_URL` (missing: an init-config error) and the numeric
    /// settings `DATABASE_MAX_CONNECTIONS` (default 10), `DATABASE_MIN_CONNECTIONS`
    /// (5), `DATABASE_CONNECT_TIMEOUT` (10), `DATABASE_ACQUIRE_TIMEOUT` (10),
    /// `DATABASE_IDLE_TIMEOUT` (300) and `DATABASE_MAX_LIFETIME` (300); a value that
    /// is not a number of its type gives the default.
    pub fn new(
        url: Option<String>,
        max_connections: Option<String>,
        min_connections: Option<String>,
        connect_timeout: Option<String>,
        acquire_timeout: Option<String>,
        idle_timeout: Option<String>,
        max_lifetime: Option<String>,
    ) -> (r: Result<Self, DomainError>)
        ensures
            r is Ok <==> url is Some,
            r matches Err(e) ==> e == DomainError::InitConfigError,
            r matches Ok(c) ==> {
                &&& c.spec_url() == url->Some_0@
                &&& c.spec_numbers() == (
                    numeric_or(max_connections, u32::MAX as nat, 10),
                    numeric_or(min_connections, u32::MAX as nat, 5),
                    numeric_or(connect_timeout, u64::MAX as nat, 10),
                    numeric_or(acquire_timeout, u64::MAX as nat, 10),
                    numeric_or(idle_timeout, u64::MAX as nat, 300),
                    numeric_or(max_lifetime, u64::MAX as nat, 300),
                )
            },
    {
        let url = match url {
            Some(s) => s,
            None => return Err(DomainError::InitConfigError),
        };
        let max_connections = number_or(max_connections, 0xffff_ffff, 10) as u32;
        let min_connections = number_or(min_connections, 0xffff_ffff, 5) as u32;
        let connect_timeout = number_or(connect_timeout, u64::MAX, 10);
        let acquire_timeout = number_or(acquire_timeout, u64::MAX, 10);
        let idle_timeout = number_or(idle_timeout, u64::MAX, 300);
        let max_lifetime = number_or(max_lifetime, u64::MAX, 300);
        Ok(DatabaseConfig {
            url,
            max_connections,
            min_connections,
            connect_timeout,
            acquire_timeout,
            idle_timeout,
            max_lifetime,
        })
    }

    pub fn url(&self) -> (r: &String)
        ensures
            r@ == self.spec_url(),
    {
        &self.url
    }

    pub fn max_connections(&self) -> (r: &u32)
        ensures
            *r as nat == self.spec_numbers().0,
    {
        &self.max_connections
    }

    pub fn min_connections(&self) -> (r: &u32)
        ensures
            *r as nat == self.spec_numbers().1,
    {
        &self.min_connections
    }

    pub fn connect_timeout(&self) -> (r: &u64)
        ensures
            *r as nat == self.spec_numbers().2,
    {
        &self.connect_timeout
    }

    pub fn acquire_timeout(&self) -> (r: &u64)
        ensures
            *r as nat == self.spec_numbers().3,
    {
        &self.acquire_timeout
    }

    pub fn idle_timeout(&self) -> (r: &u64)
        ensures
            *r as nat == self.spec_numbers().4,
    {
        &self.idle_timeout
    }

    pub fn max_lifetime(&self) -> (r: &u64)
        ensures
            *r as nat == self.spec_numbers().5,
    {
        &self.max_lifetime
    }
}

} // verus!
