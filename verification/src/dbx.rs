//! The database configuration model: what a connection pool is sized and
//! pointed at. Building and holding the pool itself happens outside the
//! library.

use vstd::prelude::*;

verus! {

pub const DEFAULT_MAX_CONNECTIONS: u32 = 100;

pub const DEFAULT_MIN_CONNECTIONS: u32 = 100;

pub const DEFAULT_CONNECTION_TIMEOUT: u8 = 8;

pub const DEFAULT_MAX_LIFETIME: u32 = 30;

pub const DEFAULT_IDLE_TIMEOUT: u32 = 8;

pub const DEFAULT_CHECK_HEALTH: bool = true;

/// How a connection pool is sized: connection counts, timeouts (seconds),
/// and whether connections are health-checked before being handed out.
#[derive(Debug, Clone, Copy, PartialEq, Eq, Structural)]
pub struct PoolModel {
    pub max_connections: u32,
    pub min_connections: u32,
    pub connection_timeout: u8,
    pub max_lifetime: u32,
    pub idle_timeout: u32,
    pub check_health: bool,
}

impl Default for PoolModel {
    /// The default sizing.
    fn default() -> (r: Self)
        ensures
            r == (PoolModel {
                max_connections: DEFAULT_MAX_CONNECTIONS,
                min_connections: DEFAULT_MIN_CONNECTIONS,
                connection_timeout: DEFAULT_CONNECTION_TIMEOUT,
                max_lifetime: DEFAULT_MAX_LIFETIME,
                idle_timeout: DEFAULT_IDLE_TIMEOUT,
                check_health: DEFAULT_CHECK_HEALTH,
            }),
    {
        PoolModel {
            max_connections: DEFAULT_MAX_CONNECTIONS,
            min_connections: DEFAULT_MIN_CONNECTIONS,
            connection_timeout: DEFAULT_CONNECTION_TIMEOUT,
            max_lifetime: DEFAULT_MAX_LIFETIME,
            idle_timeout: DEFAULT_IDLE_TIMEOUT,
            check_health: DEFAULT_CHECK_HEALTH,
        }
    }
}

/// How strongly a database connection insists on encryption.
#[derive(Debug, Clone, Copy, PartialEq, Eq, Structural)]
pub enum SslLevel {
    Preferred,
    Disabled,
    Required,
    VerifyIdentity,
    VerifyCa,
}

/// The encryption mode a configured numeric level names: absent and `1`
/// leave the default, `0` disables, `2` requires, `3` verifies the peer's
/// identity, `4` verifies its certificate authority; anything else names
/// no mode.
pub open spec fn spec_ssl_level_of(level: Option<u8>) -> Option<SslLevel> {
    match level {
        None => Some(SslLevel::Preferred),
        Some(v) => {
            if v == 0 {
                Some(SslLevel::Disabled)
            } else if v == 1 {
                Some(SslLevel::Preferred)
            } else if v == 2 {
                Some(SslLevel::Required)
            } else if v == 3 {
                Some(SslLevel::VerifyIdentity)
            } else if v == 4 {
                Some(SslLevel::VerifyCa)
            } else {
                None
            }
        },
    }
}

/// The encryption mode the configured level names, if it names one.
pub fn try_ssl_level(level: Option<u8>) -> (r: Option<SslLevel>)
    ensures
        r == spec_ssl_level_of(level),
{
    match level {
        None => Some(SslLevel::Preferred),
        Some(v) => {
            if v == 0 {
                Some(SslLevel::Disabled)
            } else if v == 1 {
                Some(SslLevel::Preferred)
            } else if v == 2 {
                Some(SslLevel::Required)
            } else if v == 3 {
                Some(SslLevel::VerifyIdentity)
            } else if v == 4 {
                Some(SslLevel::VerifyCa)
            } else {
                None
            }
        },
    }
}

/// The encryption mode the configured level names. The caller must hand
/// over a valid level; `try_ssl_level` is the checked form.
pub fn ssl_level(level: Option<u8>) -> (r: SslLevel)
    requires
        spec_ssl_level_of(level) is Some,
    ensures
        Some(r) == spec_ssl_level_of(level),
{
    try_ssl_level(level).unwrap()
}

/// Optional connection attributes: statement logging, session settings,
/// and the encryption material.
#[derive(Debug, Clone, PartialEq)]
pub struct AttrsModel {
    pub log_global_sql_level: Option<String>,
    pub log_slow_sql_timeout: Option<u16>,
    pub timezone: Option<String>,
    pub charset: Option<String>,
    pub ssl_level: Option<u8>,
    pub ssl_ca_crt_file: Option<String>,
    pub ssl_ca_client_cert_file: Option<String>,
    pub ssl_ca_client_key_file: Option<String>,
}

/// Where and as whom the database is reached, and how its pool is sized.
#[derive(Debug, Clone, PartialEq)]
pub struct DbModel {
    pub host_or_ip: String,
    pub port: u16,
    pub db_name: String,
    pub user: String,
    pub pass: String,
    pub attrs: Option<AttrsModel>,
    pub pool: PoolModel,
}

impl DbModel {
    pub fn new(
        host_or_ip: String,
        port: u16,
        db_name: String,
        user: String,
        pass: String,
        attrs: Option<AttrsModel>,
        pool: PoolModel,
    ) -> (r: Self)
        ensures
            r == (DbModel { host_or_ip, port, db_name, user, pass, attrs, pool }),
    {
        DbModel { host_or_ip, port, db_name, user, pass, attrs, pool }
    }
}

} // verus!
