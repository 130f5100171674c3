//! Configuration of the server: the recognized keys, their defaults, the
//! command-line overrides and the checks a configuration must pass.

use vstd::prelude::*;
use vstd::string::*;
use crate::error::app_error::{AppError, AppResult};
use crate::text::{join2, same_text};

verus! {

/// The whole configuration.
#[derive(Debug)]
pub struct Config {
    pub server: ServerConfig,
    pub database: DatabaseConfig,
    pub auth: AuthConfig,
    pub tls: Option<TlsConfig>,
    pub sync: SyncConfig,
    pub logging: LoggingConfig,
}

/// Listener settings. The bind address also seeds the node id.
#[derive(Debug)]
pub struct ServerConfig {
    pub bind_addr: String,
    pub worker_threads: Option<usize>,
    pub request_timeout_secs: u64,
    pub max_concurrent_connections: usize,
    pub cors: CorsConfig,
}

/// Cross-origin policy.
#[derive(Debug)]
pub struct CorsConfig {
    pub allowed_origins: Vec<String>,
    pub max_age_secs: u64,
}

/// Where the operation log is persisted.
#[derive(Debug)]
pub struct DatabaseConfig {
    pub url: String,
    pub max_connections: u32,
    pub connection_timeout_secs: u64,
}

/// The shared bearer token and the per-device rate limit.
#[derive(Debug)]
pub struct AuthConfig {
    pub shared_token: String,
    pub token_header: String,
    pub rate_limiting: bool,
    pub max_requests_per_minute: u32,
}

/// Paths of the TLS certificate and key.
#[derive(Debug)]
pub struct TlsConfig {
    pub cert_path: String,
    pub key_path: String,
}

/// Limits of the sync protocol.
#[derive(Debug)]
pub struct SyncConfig {
    pub poll_secs: u64,
    pub flush_secs: u64,
    pub max_payload_size: usize,
    pub compression: bool,
    pub max_url_length: usize,
    pub max_title_length: usize,
}

/// Logging settings.
#[derive(Debug)]
pub struct LoggingConfig {
    pub level: String,
    pub format: String,
    pub request_logging: bool,
}

/// Command-line arguments; each optional value overrides the file.
#[derive(Debug)]
pub struct Args {
    pub config: String,
    pub bind_addr: Option<String>,
    pub database_url: Option<String>,
    pub auth_token: Option<String>,
    pub log_level: Option<String>,
}

pub fn default_bind_addr() -> (r: String)
    ensures
        r@ == "127.0.0.1:8443"@,
{
    String::from_str("127.0.0.1:8443")
}

pub fn default_request_timeout() -> (r: u64)
    ensures
        r == 30,
{
    30
}

pub fn default_max_concurrent_connections() -> (r: usize)
    ensures
        r == 1000,
{
    1000
}

pub fn default_database_url() -> (r: String)
    ensures
        r@ == "sqlite://tanaka.db"@,
{
    String::from_str("sqlite://tanaka.db")
}

pub fn default_pool_size() -> (r: u32)
    ensures
        r == 5,
{
    5
}

pub fn default_connection_timeout() -> (r: u64)
    ensures
        r == 10,
{
    10
}

pub fn default_token_header() -> (r: String)
    ensures
        r@ == "Authorization"@,
{
    String::from_str("Authorization")
}

pub fn default_rate_limiting() -> (r: bool)
    ensures
        r,
{
    true
}

pub fn default_max_requests_per_minute() -> (r: u32)
    ensures
        r == 60,
{
    60
}

pub fn default_poll_secs() -> (r: u64)
    ensures
        r == 5,
{
    5
}

pub fn default_flush_secs() -> (r: u64)
    ensures
        r == 5,
{
    5
}

pub fn default_max_payload_size() -> (r: usize)
    ensures
        r == 1048576,
{
    1048576
}

pub fn default_compression() -> (r: bool)
    ensures
        !r,
{
    false
}

pub fn default_max_url_length() -> (r: usize)
    ensures
        r == 2048,
{
    2048
}

pub fn default_max_title_length() -> (r: usize)
    ensures
        r == 512,
{
    512
}

pub fn default_log_level() -> (r: String)
    ensures
        r@ == "info"@,
{
    String::from_str("info")
}

pub fn default_log_format() -> (r: String)
    ensures
        r@ == "pretty"@,
{
    String::from_str("pretty")
}

pub fn default_request_logging() -> (r: bool)
    ensures
        r,
{
    true
}

pub fn default_allowed_origins() -> (r: Vec<String>)
    ensures
        r@.len() == 1,
        r@[0]@ == "moz-extension://*"@,
{
    let mut origins: Vec<String> = Vec::new();
    origins.push(String::from_str("moz-extension://*"));
    origins
}

pub fn default_max_age() -> (r: u64)
    ensures
        r == 3600,
{
    3600
}

impl DatabaseConfig {
    /// How long a connection waits on a locked database, in milliseconds:
    /// the connection timeout, capped at the largest value that fits.
    pub open spec fn busy_timeout(self) -> u64 {
        if self.connection_timeout_secs * 1000 <= u64::MAX {
            (self.connection_timeout_secs * 1000) as u64
        } else {
            u64::MAX
        }
    }

    /// Returns the busy timeout in milliseconds.
    pub fn busy_timeout_ms(&self) -> (millis: u64)
        ensures
            millis == self.busy_timeout(),
    {
        if self.connection_timeout_secs <= u64::MAX / 1000 {
            self.connection_timeout_secs * 1000
        } else {
            u64::MAX
        }
    }
}

impl SyncConfig {
    /// Whether every limit has its default value.
    pub open spec fn is_default(self) -> bool {
        &&& self.poll_secs == 5
        &&& self.flush_secs == 5
        &&& self.max_payload_size == 1048576
        &&& !self.compression
        &&& self.max_url_length == 2048
        &&& self.max_title_length == 512
    }
}

impl Default for SyncConfig {
    fn default() -> (r: Self)
        ensures
            r.is_default(),
    {
        SyncConfig {
            poll_secs: default_poll_secs(),
            flush_secs: default_flush_secs(),
            max_payload_size: default_max_payload_size(),
            compression: default_compression(),
            max_url_length: default_max_url_length(),
            max_title_length: default_max_title_length(),
        }
    }
}

/// Whether `level` is one of the five recognized log levels.
pub open spec fn known_level(level: Seq<char>) -> bool {
    level == "trace"@ || level == "debug"@ || level == "info"@ || level == "warn"@ || level
        == "error"@
}

/// Returns whether `level` is a recognized log level.
pub fn is_known_level(level: &str) -> (r: bool)
    ensures
        r == known_level(level@),
{
    same_text(level, "trace") || same_text(level, "debug") || same_text(level, "info")
        || same_text(level, "warn") || same_text(level, "error")
}

impl Config {
    /// Whether every key has its default value. The token has none: it is
    /// empty until the operator sets it.
    pub open spec fn is_default(self) -> bool {
        &&& self.server.bind_addr@ == "127.0.0.1:8443"@
        &&& self.server.worker_threads is None
        &&& self.server.request_timeout_secs == 30
        &&& self.server.max_concurrent_connections == 1000
        &&& self.server.cors.allowed_origins@.len() == 1
        &&& self.server.cors.allowed_origins@[0]@ == "moz-extension://*"@
        &&& self.server.cors.max_age_secs == 3600
        &&& self.database.url@ == "sqlite://tanaka.db"@
        &&& self.database.max_connections == 5
        &&& self.database.connection_timeout_secs == 10
        &&& self.auth.shared_token@.len() == 0
        &&& self.auth.token_header@ == "Authorization"@
        &&& self.auth.rate_limiting
        &&& self.auth.max_requests_per_minute == 60
        &&& self.tls is None
        &&& self.sync.is_default()
        &&& self.logging.level@ == "info"@
        &&& self.logging.format@ == "pretty"@
        &&& self.logging.request_logging
    }

    /// The first check that the configuration fails, as the message and key
    /// of the error, given whether the TLS files exist on disk.
    pub open spec fn failure(self, cert_exists: bool, key_exists: bool) -> Option<
        (Seq<char>, Seq<char>),
    > {
        if self.server.bind_addr@.len() == 0 {
            Some(("Bind address cannot be empty"@, "server.bind_addr"@))
        } else if self.auth.shared_token@.len() == 0 {
            Some(("Auth token cannot be empty"@, "auth.shared_token"@))
        } else if self.tls is Some && !cert_exists {
            Some(("Certificate file not found: "@ + self.tls->0.cert_path@, "tls.cert_path"@))
        } else if self.tls is Some && !key_exists {
            Some(("Key file not found: "@ + self.tls->0.key_path@, "tls.key_path"@))
        } else if !known_level(self.logging.level@) {
            Some(("Invalid log level: "@ + self.logging.level@, "logging.level"@))
        } else {
            None
        }
    }

    /// The configuration with the command line's overrides applied.
    pub open spec fn overridden_by(self, result: Config, args: Args) -> bool {
        &&& result.server.bind_addr@ == (match args.bind_addr {
            Some(v) => v@,
            None => self.server.bind_addr@,
        })
        &&& result.database.url@ == (match args.database_url {
            Some(v) => v@,
            None => self.database.url@,
        })
        &&& result.auth.shared_token@ == (match args.auth_token {
            Some(v) => v@,
            None => self.auth.shared_token@,
        })
        &&& result.logging.level@ == (match args.log_level {
            Some(v) => v@,
            None => self.logging.level@,
        })
        &&& result.server.worker_threads == self.server.worker_threads
        &&& result.server.request_timeout_secs == self.server.request_timeout_secs
        &&& result.server.max_concurrent_connections == self.server.max_concurrent_connections
        &&& result.server.cors == self.server.cors
        &&& result.database.max_connections == self.database.max_connections
        &&& result.database.connection_timeout_secs == self.database.connection_timeout_secs
        &&& result.auth.token_header == self.auth.token_header
        &&& result.auth.rate_limiting == self.auth.rate_limiting
        &&& result.auth.max_requests_per_minute == self.auth.max_requests_per_minute
        &&& result.tls == self.tls
        &&& result.sync == self.sync
        &&& result.logging.format == self.logging.format
        &&& result.logging.request_logging == self.logging.request_logging
    }

    /// Checks the configuration. `cert_exists` and `key_exists` say whether
    /// the TLS files are on disk; they are read only when TLS is configured.
    pub fn validate(&self, cert_exists: bool, key_exists: bool) -> (r: AppResult<()>)
        ensures
            r is Ok <==> self.failure(cert_exists, key_exists) is None,
            r matches Err(e) ==> self.failure(cert_exists, key_exists) matches Some(f)
                && e.is_config(f.0, f.1),
    {
        if self.server.bind_addr.as_str().is_empty() {
            return Err(AppError::config("Bind address cannot be empty", "server.bind_addr"));
        }
        if self.auth.shared_token.as_str().is_empty() {
            return Err(AppError::config("Auth token cannot be empty", "auth.shared_token"));
        }
        match &self.tls {
            Some(tls) => {
                if !cert_exists {
                    let message = join2("Certificate file not found: ", tls.cert_path.as_str());
                    return Err(AppError::config(message.as_str(), "tls.cert_path"));
                }
                if !key_exists {
                    let message = join2("Key file not found: ", tls.key_path.as_str());
                    return Err(AppError::config(message.as_str(), "tls.key_path"));
                }
            },
            None => {},
        }
        if !is_known_level(self.logging.level.as_str()) {
            let message = join2("Invalid log level: ", self.logging.level.as_str());
            return Err(AppError::config(message.as_str(), "logging.level"));
        }
        Ok(())
    }

    /// Applies the command line's overrides to a configuration.
    pub fn with_overrides(self, args: &Args) -> (r: Config)
        ensures
            self.overridden_by(r, *args),
    {
        let mut config = self;
        match &args.bind_addr {
            Some(v) => {
                config.server.bind_addr = v.clone();
            },
            None => {},
        }
        match &args.database_url {
            Some(v) => {
                config.database.url = v.clone();
            },
            None => {},
        }
        match &args.auth_token {
            Some(v) => {
                config.auth.shared_token = v.clone();
            },
            None => {},
        }
        match &args.log_level {
            Some(v) => {
                config.logging.level = v.clone();
            },
            None => {},
        }
        config
    }

    /// Builds the effective configuration: the file's content where a file
    /// was read, the defaults where none was; then the command line's
    /// overrides; then the checks of [`Config::validate`].
    pub fn load(args: &Args, file: Option<Config>, cert_exists: bool, key_exists: bool) -> (r:
        AppResult<Config>)
        ensures
            r matches Ok(c) ==> c.failure(cert_exists, key_exists) is None && (match file {
                Some(f) => f.overridden_by(c, *args),
                None => exists|d: Config| d.is_default() && d.overridden_by(c, *args),
            }),
            r matches Err(e) ==> exists|c: Config|
                {
                    &&& (match file {
                        Some(f) => f.overridden_by(c, *args),
                        None => exists|d: Config| d.is_default() && d.overridden_by(c, *args),
                    })
                    &&& #[trigger] c.failure(cert_exists, key_exists) matches Some(f)
                    &&& e.is_config(f.0, f.1)
                },
    {
        let base = match file {
            Some(f) => f,
            None => Config::default(),
        };
        let config = base.with_overrides(args);
        match config.validate(cert_exists, key_exists) {
            Ok(()) => Ok(config),
            Err(e) => Err(e),
        }
    }
}

impl Default for Config {
    fn default() -> (r: Self)
        ensures
            r.is_default(),
    {
        Config {
            server: ServerConfig {
                bind_addr: default_bind_addr(),
                worker_threads: None,
                request_timeout_secs: default_request_timeout(),
                max_concurrent_connections: default_max_concurrent_connections(),
                cors: CorsConfig {
                    allowed_origins: default_allowed_origins(),
                    max_age_secs: default_max_age(),
                },
            },
            database: DatabaseConfig {
                url: default_database_url(),
                max_connections: default_pool_size(),
                connection_timeout_secs: default_connection_timeout(),
            },
            auth: AuthConfig {
                shared_token: String::new(),
                token_header: default_token_header(),
                rate_limiting: default_rate_limiting(),
                max_requests_per_minute: default_max_requests_per_minute(),
            },
            tls: None,
            sync: SyncConfig::default(),
            logging: LoggingConfig {
                level: default_log_level(),
                format: default_log_format(),
                request_logging: default_request_logging(),
            },
        }
    }
}

} // verus!
