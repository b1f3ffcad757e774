//! The settings of the two services, from what the environment holds.

use crate::error::{ErrorKind, GatewayError};
use crate::text::{concat2, opt_str_text, texts};
use vstd::prelude::*;

verus! {

/// The settings of the gateway.
#[derive(Debug, PartialEq, Eq)]
pub struct GatewayConfig {
    pub port: String,
    pub allowed_origin: String,
    pub database_url: String,
}

/// The settings of the authentication service.
#[derive(Debug, PartialEq, Eq)]
pub struct AuthConfig {
    pub port: String,
    pub allowed_origin: String,
    pub database_url: String,
}

/// The settings of the pool of connections to the database.
#[derive(Clone, Copy, Debug, PartialEq, Eq, Structural)]
pub struct PoolSettings {
    pub max_connections: u32,
    pub min_connections: u32,
    pub connect_timeout_secs: u64,
    pub acquire_timeout_secs: u64,
    pub idle_timeout_secs: u64,
    pub max_lifetime_secs: u64,
}

/// The text of an optional string slice, or `default` where there is none.
pub open spec fn text_or(value: Option<&str>, default: Seq<char>) -> Seq<char> {
    match value {
        Some(v) => v@,
        None => default,
    }
}

/// The text of the error for a service without a database.
pub open spec fn database_missing_text() -> Seq<char> {
    "DATABASE_URL must be set"@
}

/// The error for a service without a database.
fn database_missing() -> (e: GatewayError)
    ensures
        e.kind == ErrorKind::ConfigMissing,
        e.message@ == database_missing_text(),
{
    GatewayError::new(ErrorKind::ConfigMissing, "DATABASE_URL must be set".to_owned())
}

/// The settings of the gateway: the port is 9000 and the allowed origin
/// `http://localhost` unless the environment says otherwise, and the
/// address of the database must be given.
pub fn gateway_config(port: Option<&str>, origin: Option<&str>, database_url: Option<&str>) -> (r:
    Result<GatewayConfig, GatewayError>)
    ensures
        r is Ok <==> database_url is Some,
        r matches Ok(c) ==> c.port@ == text_or(port, "9000"@) && c.allowed_origin@ == text_or(
            origin,
            "http://localhost"@,
        ) && Some(c.database_url@) == opt_str_text(database_url),
        r matches Err(e) ==> e.kind == ErrorKind::ConfigMissing && e.message@
            == database_missing_text(),
{
    let database_url = match database_url {
        Some(url) => url,
        None => {
            return Err(database_missing());
        },
    };
    let port = match port {
        Some(p) => p,
        None => "9000",
    };
    let origin = match origin {
        Some(o) => o,
        None => "http://localhost",
    };
    Ok(
        GatewayConfig {
            port: port.to_owned(),
            allowed_origin: origin.to_owned(),
            database_url: database_url.to_owned(),
        },
    )
}

/// The settings of the authentication service: the port is 8000 unless the
/// environment says otherwise, the allowed origin is `http://localhost`,
/// and the address of the database must be given.
pub fn auth_config(port: Option<&str>, database_url: Option<&str>) -> (r: Result<
    AuthConfig,
    GatewayError,
>)
    ensures
        r is Ok <==> database_url is Some,
        r matches Ok(c) ==> c.port@ == text_or(port, "8000"@) && c.allowed_origin@
            == "http://localhost"@ && Some(c.database_url@) == opt_str_text(
            database_url,
        ),
        r matches Err(e) ==> e.kind == ErrorKind::ConfigMissing && e.message@
            == database_missing_text(),
{
    let database_url = match database_url {
        Some(url) => url,
        None => {
            return Err(database_missing());
        },
    };
    let port = match port {
        Some(p) => p,
        None => "8000",
    };
    Ok(
        AuthConfig {
            port: port.to_owned(),
            allowed_origin: "http://localhost".to_owned(),
            database_url: database_url.to_owned(),
        },
    )
}

/// The address on which a service listens: every interface, at `port`.
pub fn bind_address(port: &str) -> (r: String)
    ensures
        r@ == "0.0.0.0:"@ + port@,
{
    concat2("0.0.0.0:", port)
}

/// The methods that other origins may use.
pub fn cors_methods() -> (r: Vec<String>)
    ensures
        texts(r@) == seq!["GET"@, "POST"@, "PUT"@, "DELETE"@],
{
    let mut r: Vec<String> = Vec::new();
    r.push("GET".to_owned());
    r.push("POST".to_owned());
    r.push("PUT".to_owned());
    r.push("DELETE".to_owned());
    assert(texts(r@) =~= seq!["GET"@, "POST"@, "PUT"@, "DELETE"@]);
    r
}

/// The headers that other origins may send.
pub fn cors_headers() -> (r: Vec<String>)
    ensures
        texts(r@) == seq!["authorization"@, "content-type"@],
{
    let mut r: Vec<String> = Vec::new();
    r.push("authorization".to_owned());
    r.push("content-type".to_owned());
    assert(texts(r@) =~= seq!["authorization"@, "content-type"@]);
    r
}

/// The pool of connections to the database: between five and a hundred
/// connections, and eight seconds for each wait.
pub fn connect_db() -> (r: PoolSettings)
    ensures
        r == (PoolSettings {
            max_connections: 100,
            min_connections: 5,
            connect_timeout_secs: 8,
            acquire_timeout_secs: 8,
            idle_timeout_secs: 8,
            max_lifetime_secs: 8,
        }),
{
    PoolSettings {
        max_connections: 100,
        min_connections: 5,
        connect_timeout_secs: 8,
        acquire_timeout_secs: 8,
        idle_timeout_secs: 8,
        max_lifetime_secs: 8,
    }
}

} // verus!
