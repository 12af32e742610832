//! The configuration surface: plain settings types with their documented
//! defaults. Reading the configuration file and the environment is left to
//! the binary around the library.

use vstd::prelude::*;

verus! {

/// Thresholds and expiration window for the anti-abuse gates, in minutes.
#[derive(Clone, Copy, Debug)]
pub struct BehaviourSettings {
    /// Issue a CAPTCHA once a host's failure count strictly exceeds this.
    pub captcha: Option<u64>,
    /// Mask every login success once a host's failure count strictly
    /// exceeds this.
    pub fake_login: Option<u64>,
    /// Failures older than this many minutes are ignored and collected.
    pub expiration: i64,
}

impl Default for BehaviourSettings {
    /// No gates armed, and an empty window.
    fn default() -> (r: Self)
        ensures
            r.captcha is None,
            r.fake_login is None,
            r.expiration == 0,
    {
        BehaviourSettings { captcha: None, fake_login: None, expiration: 0 }
    }
}

/// Where session state lives server-side.
#[derive(Clone, Debug)]
pub enum SessionStorage {
    InMemory,
    Sql,
    Redis(String),
}

/// Session cookie and backend settings.
#[derive(Clone, Debug)]
pub struct SessionSettings {
    pub session_timeout_seconds: Option<u64>,
    pub cookie_name: Option<String>,
    pub backend: SessionStorage,
}

impl Default for SessionSettings {
    /// In-memory sessions, no timeout, and the default cookie name.
    fn default() -> (r: Self)
        ensures
            r.backend is InMemory,
            r.session_timeout_seconds is None,
            r.cookie_name is None,
    {
        SessionSettings {
            backend: SessionStorage::InMemory,
            session_timeout_seconds: None,
            cookie_name: None,
        }
    }
}

/// Log levels, least to most severe around the default.
#[derive(Clone, Copy, Debug)]
pub enum LogLevel {
    Debug,
    Trace,
    Info,
    Warning,
    Error,
}

impl Default for LogLevel {
    fn default() -> (r: Self)
        ensures
            r is Info,
    {
        LogLevel::Info
    }
}

/// Log destination and filtering.
#[derive(Clone, Debug)]
pub struct Logging {
    pub trace_filter: Option<String>,
    pub minimum_level: Option<LogLevel>,
    pub file: String,
}

impl Default for Logging {
    /// Informational logging to the conventional log path.
    fn default() -> (r: Self)
        ensures
            r.trace_filter is None,
            r.minimum_level == Some(LogLevel::Info),
            r.file@ == "/var/log/ruuth/ruuth.log"@,
    {
        Logging {
            trace_filter: None,
            minimum_level: Some(LogLevel::Info),
            file: "/var/log/ruuth/ruuth.log".to_owned(),
        }
    }
}

/// The transport the server binds: plain TCP, TLS with a PEM key pair, or a
/// Unix domain socket. Addresses and paths stay plain strings here; the
/// binary resolves them when it binds.
#[derive(Clone, Debug)]
pub enum BindTo {
    Tcp { bind: String },
    Tls { bind: String, public_key: String, private_key: String },
    Unix { path: String },
}

impl Default for BindTo {
    /// Loopback TCP on the conventional port.
    fn default() -> (r: Self)
        ensures
            r matches BindTo::Tcp { bind } && bind@ == "127.0.0.1:3000"@,
    {
        BindTo::Tcp { bind: "127.0.0.1:3000".to_owned() }
    }
}

/// Host identity and connectivity.
#[derive(Clone, Debug)]
pub struct HostSettings {
    pub cluster_secret: String,
    pub database_url: String,
    pub domain: String,
    pub bind: BindTo,
}

impl Default for HostSettings {
    fn default() -> (r: Self)
        ensures
            r.cluster_secret@.len() == 0,
            r.database_url@.len() == 0,
            r.domain@.len() == 0,
            r.bind matches BindTo::Tcp { bind } && bind@ == "127.0.0.1:3000"@,
    {
        proof {
            reveal_strlit("");
        }
        HostSettings {
            cluster_secret: "".to_owned(),
            database_url: "".to_owned(),
            domain: "".to_owned(),
            bind: Default::default(),
        }
    }
}

/// Everything the service is configured with.
#[derive(Clone, Debug)]
pub struct Settings {
    pub host: HostSettings,
    pub behaviour: BehaviourSettings,
    pub session: SessionSettings,
    pub logging: Option<Logging>,
}

impl Default for Settings {
    fn default() -> (r: Self)
        ensures
            r.behaviour.captcha is None,
            r.behaviour.fake_login is None,
            r.session.backend is InMemory,
            r.logging is Some,
    {
        Settings {
            host: Default::default(),
            behaviour: Default::default(),
            session: Default::default(),
            logging: Some(Default::default()),
        }
    }
}

} // verus!
