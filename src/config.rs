use vstd::prelude::*;
use crate::error::CanvasError;

verus! {

/// Pool size used where none is configured.
pub const DEFAULT_CACHE_POOL_MAX_OPEN: u32 = 5;

/// Idle connections kept where none is configured.
pub const DEFAULT_CACHE_POOL_MIN_IDLE: u32 = 1;

/// Connection lifetime in seconds used where none is configured.
pub const DEFAULT_CACHE_POOL_EXPIRE_SECONDS: u64 = 1800;

/// The store settings of the process, read once at startup.
pub struct StoreConfig {
    pub connection_string: String,
    pub max_open: u32,
    pub min_idle: u32,
    pub expire_seconds: u64,
}

/// The store URL: `redis://host:port/`, with `user:password@` in front of the
/// host where either credential is given (the missing one left empty).
pub open spec fn connection_string_spec(
    host: Seq<char>,
    port: Seq<char>,
    username: Option<Seq<char>>,
    password: Option<Seq<char>>,
) -> Seq<char> {
    let address = host + ":"@ + port + "/"@;
    match (username, password) {
        (None, None) => "redis://"@ + address,
        (Some(u), None) => "redis://"@ + u + ":@"@ + address,
        (None, Some(p)) => "redis://:"@ + p + "@"@ + address,
        (Some(u), Some(p)) => "redis://"@ + u + ":"@ + p + "@"@ + address,
    }
}

pub open spec fn opt_view(s: Option<String>) -> Option<Seq<char>> {
    match s {
        Some(v) => Some(v@),
        None => None,
    }
}

/// Builds the store URL from the configured host, port and credentials; the
/// host and the port are required.
pub fn create_connection_string(
    host: Option<String>,
    port: Option<String>,
    username: Option<String>,
    password: Option<String>,
) -> (r: Result<String, CanvasError>)
    ensures
        (host is None || port is None) <==> r is Err,
        r matches Err(e) ==> e == CanvasError::ConfigMissing,
        r matches Ok(s) ==> s@ == connection_string_spec(
            host->Some_0@,
            port->Some_0@,
            opt_view(username),
            opt_view(password),
        ),
{
    let host = match host {
        Some(h) => h,
        None => return Err(CanvasError::ConfigMissing),
    };
    let port = match port {
        Some(p) => p,
        None => return Err(CanvasError::ConfigMissing),
    };
    let prefix = match (username, password) {
        (None, None) => String::from_str("redis://"),
        (Some(u), None) => String::from_str("redis://").concat(u.as_str()).concat(":@"),
        (None, Some(p)) => String::from_str("redis://:").concat(p.as_str()).concat("@"),
        (Some(u), Some(p)) => String::from_str("redis://").concat(u.as_str()).concat(":").concat(
            p.as_str(),
        ).concat("@"),
    };
    let s = prefix.concat(host.as_str()).concat(":").concat(port.as_str()).concat("/");
    proof {
        let ghost address = host@ + ":"@ + port@ + "/"@;
        assert(s@ =~= prefix@ + address);
    }
    Ok(s)
}

impl StoreConfig {
    /// The configuration from the values found at startup: the connection
    /// settings as `create_connection_string` takes them, and the pool sizes,
    /// each replaced by its default where absent.
    pub fn from_values(
        host: Option<String>,
        port: Option<String>,
        username: Option<String>,
        password: Option<String>,
        max_open: Option<u32>,
        min_idle: Option<u32>,
        expire_seconds: Option<u64>,
    ) -> (r: Result<StoreConfig, CanvasError>)
        ensures
            (host is None || port is None) <==> r is Err,
            r matches Err(e) ==> e == CanvasError::ConfigMissing,
            r matches Ok(c) ==> {
                &&& c.connection_string@ == connection_string_spec(
                    host->Some_0@,
                    port->Some_0@,
                    opt_view(username),
                    opt_view(password),
                )
                &&& c.max_open == max_open.unwrap_or(DEFAULT_CACHE_POOL_MAX_OPEN)
                &&& c.min_idle == min_idle.unwrap_or(DEFAULT_CACHE_POOL_MIN_IDLE)
                &&& c.expire_seconds == expire_seconds.unwrap_or(DEFAULT_CACHE_POOL_EXPIRE_SECONDS)
            },
    {
        let connection_string = match create_connection_string(host, port, username, password) {
            Ok(s) => s,
            Err(e) => return Err(e),
        };
        Ok(StoreConfig {
            connection_string,
            max_open: max_open.unwrap_or(DEFAULT_CACHE_POOL_MAX_OPEN),
            min_idle: min_idle.unwrap_or(DEFAULT_CACHE_POOL_MIN_IDLE),
            expire_seconds: expire_seconds.unwrap_or(DEFAULT_CACHE_POOL_EXPIRE_SECONDS),
        })
    }
}

} // verus!
