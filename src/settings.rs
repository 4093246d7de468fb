use vstd::prelude::*;

use crate::text::owned;

verus! {

#[verifier::external_type_specification]
#[verifier::external_body]
pub struct ExConfig(::config::Config);

/// Configuration of the relational store.
#[derive(Debug, Clone)]
pub struct DatabaseConfig {
    pub url: String,
}

/// Configuration of the credential authority.
#[derive(Debug, Clone)]
pub struct AuthConfig {
    pub jwt_secret: String,
    pub token_expiry_seconds: i64,
}

/// Configuration of the listening socket.
#[derive(Debug, Clone)]
pub struct ServerConfig {
    pub host: String,
    pub port: u16,
}

/// The application configuration.
#[derive(Debug, Clone)]
pub struct AppConfig {
    pub database: DatabaseConfig,
    pub auth: AuthConfig,
    pub server: ServerConfig,
}

/// Why a configuration could not be loaded.
#[derive(Debug, Clone, PartialEq, Eq)]
pub enum ConfigError {
    /// The source could not be read or parsed.
    Source(String),
    /// A required key is absent.
    Missing(String),
    /// A key holds a value of the wrong type or out of range.
    Invalid(String),
}

/// The token lifetime used when the configuration names none: one hour.
pub fn default_token_expiry() -> (r: i64)
    ensures
        r == 3600,
{
    3600
}

/// The host used when the configuration names none: every interface.
pub fn default_host() -> (r: String)
    ensures
        r@ == seq!['0', '.', '0', '.', '0', '.', '0'],
{
    proof {
        reveal_strlit("0.0.0.0");
        assert("0.0.0.0"@ =~= seq!['0', '.', '0', '.', '0', '.', '0']);
    }
    owned("0.0.0.0")
}

/// The port used when the configuration names none.
pub fn default_port() -> (r: u16)
    ensures
        r == 3000,
{
    3000
}

/// Relies on the config crate's `Config::builder`, `add_source` with a required
/// `config::File` for the path, and `build`: the file is read and parsed, so the
/// outcome depends on the disk. Nothing is promised of it.
#[verifier::external_body]
fn read_config_file(path: &str) -> (r: Result<::config::Config, String>) {
    ::config::Config::builder()
        .add_source(::config::File::from(std::path::Path::new(path)))
        .build()
        .map_err(|e| e.to_string())
}

/// Relies on `Config::get_string`; a `NotFound` error becomes `Ok(None)`.
#[verifier::external_body]
fn config_string(cfg: &::config::Config, key: &str) -> (r: Result<Option<String>, String>) {
    match cfg.get_string(key) {
        Ok(v) => Ok(Some(v)),
        Err(::config::ConfigError::NotFound(_)) => Ok(None),
        Err(e) => Err(e.to_string()),
    }
}

/// Relies on `Config::get_int`; a `NotFound` error becomes `Ok(None)`.
#[verifier::external_body]
fn config_int(cfg: &::config::Config, key: &str) -> (r: Result<Option<i64>, String>) {
    match cfg.get_int(key) {
        Ok(v) => Ok(Some(v)),
        Err(::config::ConfigError::NotFound(_)) => Ok(None),
        Err(e) => Err(e.to_string()),
    }
}

/// A required text entry: absent is an error.
fn required_text(key: &str, v: Result<Option<String>, String>) -> (r: Result<String, ConfigError>)
    ensures
        v matches Ok(Some(s)) ==> r == Ok::<String, ConfigError>(s),
        v matches Ok(None) ==> r matches Err(ConfigError::Missing(k)) && k@ == key@,
        v matches Err(m) ==> r == Err::<String, ConfigError>(ConfigError::Invalid(m)),
{
    match v {
        Ok(Some(s)) => Ok(s),
        Ok(None) => Err(ConfigError::Missing(owned(key))),
        Err(m) => Err(ConfigError::Invalid(m)),
    }
}

impl AppConfig {
    /// What `from_settings` returns for the entries that the source held.
    pub open spec fn settings_agree(
        url: Result<Option<String>, String>,
        secret: Result<Option<String>, String>,
        expiry: Result<Option<i64>, String>,
        host: Result<Option<String>, String>,
        port: Result<Option<i64>, String>,
        r: Result<AppConfig, ConfigError>,
    ) -> bool {
        if url is Err || secret is Err || expiry is Err || host is Err || port is Err {
            r matches Err(ConfigError::Invalid(_))
        } else if url->Ok_0 is None || secret->Ok_0 is None {
            r matches Err(ConfigError::Missing(_))
        } else if port->Ok_0 matches Some(p) && !(0 <= p <= u16::MAX) {
            r matches Err(ConfigError::Invalid(_))
        } else {
            r matches Ok(c) && c.database.url == url->Ok_0->Some_0 && c.auth.jwt_secret
                == secret->Ok_0->Some_0 && c.auth.token_expiry_seconds == (match expiry->Ok_0 {
                Some(e) => e,
                None => 3600,
            }) && (match host->Ok_0 {
                Some(h) => c.server.host == h,
                None => c.server.host@ == seq!['0', '.', '0', '.', '0', '.', '0'],
            }) && c.server.port == (match port->Ok_0 {
                Some(p) => p as u16,
                None => 3000,
            })
        }
    }

    /// Builds the configuration from the entries read from a source: the
    /// database url and the signing secret are required; the token lifetime,
    /// host and port fall back to their defaults; the port must fit in 16 bits.
    pub fn from_settings(
        url: Result<Option<String>, String>,
        secret: Result<Option<String>, String>,
        expiry: Result<Option<i64>, String>,
        host: Result<Option<String>, String>,
        port: Result<Option<i64>, String>,
    ) -> (r: Result<AppConfig, ConfigError>)
        ensures
            Self::settings_agree(url, secret, expiry, host, port, r),
    {
        let expiry = match expiry {
            Ok(e) => e,
            Err(m) => return Err(ConfigError::Invalid(m)),
        };
        let host = match host {
            Ok(h) => h,
            Err(m) => return Err(ConfigError::Invalid(m)),
        };
        let port = match port {
            Ok(p) => p,
            Err(m) => return Err(ConfigError::Invalid(m)),
        };
        let (url, secret) = match (url, secret) {
            (Err(m), _) => return Err(ConfigError::Invalid(m)),
            (_, Err(m)) => return Err(ConfigError::Invalid(m)),
            (Ok(u), Ok(s)) => (u, s),
        };
        let url = required_text("database.url", Ok(url))?;
        let jwt_secret = required_text("auth.jwt_secret", Ok(secret))?;
        let port = match port {
            None => default_port(),
            Some(p) => {
                if p < 0 || p > u16::MAX as i64 {
                    return Err(ConfigError::Invalid(owned("server.port is out of range")));
                }
                p as u16
            },
        };
        let token_expiry_seconds = match expiry {
            Some(e) => e,
            None => default_token_expiry(),
        };
        let host = match host {
            Some(h) => h,
            None => default_host(),
        };
        Ok(
            AppConfig {
                database: DatabaseConfig { url },
                auth: AuthConfig { jwt_secret, token_expiry_seconds },
                server: ServerConfig { host, port },
            },
        )
    }

    /// Loads the configuration from the file at `path`.
    pub fn from_file(path: &str) -> (r: Result<AppConfig, ConfigError>)
        ensures
            r matches Err(ConfigError::Source(_)) || exists|url, secret, expiry, host, port|
                #[trigger] Self::settings_agree(url, secret, expiry, host, port, r),
    {
        let cfg = match read_config_file(path) {
            Ok(c) => c,
            Err(m) => return Err(ConfigError::Source(m)),
        };
        let url = config_string(&cfg, "database.url");
        let secret = config_string(&cfg, "auth.jwt_secret");
        let expiry = config_int(&cfg, "auth.token_expiry_seconds");
        let host = config_string(&cfg, "server.host");
        let port = config_int(&cfg, "server.port");
        Self::from_settings(url, secret, expiry, host, port)
    }

    /// Loads the configuration from `projectkit.toml` in the working directory.
    pub fn load() -> (r: Result<AppConfig, ConfigError>)
        ensures
            r matches Err(ConfigError::Source(_)) || exists|url, secret, expiry, host, port|
                #[trigger] Self::settings_agree(url, secret, expiry, host, port, r),
    {
        Self::from_file("projectkit.toml")
    }
}

} // verus!
