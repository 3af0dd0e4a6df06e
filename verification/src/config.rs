//! The configuration of the service and of the daemon, and the defaults
//! that stand in for what a configuration leaves out.

use vstd::prelude::*;
use crate::text::{parse_i32, parse_u64, parsed_i32, parsed_u64};

verus! {

#[derive(Debug, Clone, PartialEq, Eq)]
pub struct StationConfig {
    pub id: Option<String>,
    pub timezone: Option<String>,
}

#[derive(Debug, Clone, PartialEq, Eq)]
pub struct HttpSinkConfig {
    pub bind: Option<String>,
}

#[derive(Debug, Clone, PartialEq, Eq)]
pub struct FsSinkConfig {
    pub dir: Option<String>,
}

#[derive(Debug, Clone, PartialEq, Eq)]
pub struct SqliteSinkConfig {
    pub path: Option<String>,
}

#[derive(Debug, Clone, PartialEq, Eq)]
pub struct PostgresSinkConfig {
    pub url: Option<String>,
}

#[derive(Debug, Clone, PartialEq, Eq)]
pub struct InfluxSinkConfig {
    pub url: Option<String>,
    pub org: Option<String>,
    pub bucket: Option<String>,
    pub token: Option<String>,
}

#[derive(Debug, Clone, PartialEq, Eq)]
pub struct SinksConfig {
    pub http: Option<HttpSinkConfig>,
    pub fs: Option<FsSinkConfig>,
    pub sqlite: Option<SqliteSinkConfig>,
    pub postgres: Option<PostgresSinkConfig>,
    pub influx: Option<InfluxSinkConfig>,
}

#[derive(Debug, Clone, PartialEq, Eq)]
pub struct InterceptorConfig {
    pub bind: Option<String>,
}

#[derive(Debug, Clone, PartialEq, Eq)]
pub struct IngestConfig {
    pub interceptor: Option<InterceptorConfig>,
}

/// The configuration of the service.
#[derive(Debug, Clone, PartialEq, Eq)]
pub struct AppConfig {
    pub station: Option<StationConfig>,
    pub sinks: Option<SinksConfig>,
    pub ingest: Option<IngestConfig>,
}

/// A failure to load the configuration.
#[derive(Debug, Clone, PartialEq, Eq)]
pub enum ConfigError {
    /// The file is not valid TOML; the text says why.
    Toml(String),
    /// The file could not be read; the text says why.
    Io(String),
}

/// The configuration of the daemon.
#[derive(Debug, Clone, PartialEq, Eq)]
pub struct DaemonConfig {
    /// The database connection URL.
    pub database_url: String,
    /// The archive interval in seconds.
    pub archive_interval: i32,
    /// The driver's poll interval in seconds.
    pub poll_interval: u64,
    /// The unit-system tag.
    pub unit_system: i32,
    /// The station driver's name.
    pub driver: String,
}

/// Why the daemon's configuration cannot be made from its settings.
#[derive(Debug, Clone, Copy, PartialEq, Eq, Structural)]
pub enum DaemonConfigError {
    /// No database URL is set.
    MissingDatabaseUrl,
    /// The archive interval is not a 32-bit whole number.
    InvalidArchiveInterval,
    /// The poll interval is not an unsigned number.
    InvalidPollInterval,
    /// The unit system is not a 32-bit whole number.
    InvalidUnitSystem,
}

/// The archive interval where none is set, in seconds.
pub const DEFAULT_ARCHIVE_INTERVAL: i32 = 300;

/// The poll interval where none is set, in seconds.
pub const DEFAULT_POLL_INTERVAL: u64 = 10;

/// The unit system where none is set: metric.
pub const DEFAULT_UNIT_SYSTEM: i32 = 16;

/// What a setting reads as: the default where it is unset, else what its
/// text writes, which may be nothing.
pub open spec fn setting_i32(setting: Option<String>, default: i32) -> Option<i32> {
    match setting {
        Some(text) => parsed_i32(text@),
        None => Some(default),
    }
}

/// What an unsigned setting reads as: the default where it is unset, else
/// what its text writes, which may be nothing.
pub open spec fn setting_u64(setting: Option<String>, default: u64) -> Option<u64> {
    match setting {
        Some(text) => parsed_u64(text@),
        None => Some(default),
    }
}

fn read_i32(setting: &Option<String>, default: i32) -> (r: Option<i32>)
    ensures
        r == setting_i32(*setting, default),
{
    match setting {
        Some(text) => parse_i32(text.as_str()),
        None => Some(default),
    }
}

fn read_u64(setting: &Option<String>, default: u64) -> (r: Option<u64>)
    ensures
        r == setting_u64(*setting, default),
{
    match setting {
        Some(text) => parse_u64(text.as_str()),
        None => Some(default),
    }
}

impl DaemonConfig {
    /// The configuration made from the daemon's settings, each given as its
    /// text or as unset. The database URL must be set. The archive interval
    /// defaults to 300, the poll interval to 10, the unit system to 16 and
    /// the driver to `simulator`. The first setting that cannot be used, in
    /// the order URL, archive interval, poll interval, unit system, is the
    /// one reported.
    pub fn from_settings(
        database_url: Option<String>,
        archive_interval: Option<String>,
        poll_interval: Option<String>,
        unit_system: Option<String>,
        driver: Option<String>,
    ) -> (r: Result<DaemonConfig, DaemonConfigError>)
        ensures
            match r {
                Ok(c) => {
                    &&& database_url == Some(c.database_url)
                    &&& setting_i32(archive_interval, DEFAULT_ARCHIVE_INTERVAL) == Some(
                        c.archive_interval,
                    )
                    &&& setting_u64(poll_interval, DEFAULT_POLL_INTERVAL) == Some(c.poll_interval)
                    &&& setting_i32(unit_system, DEFAULT_UNIT_SYSTEM) == Some(c.unit_system)
                    &&& c.driver@ == match driver {
                        Some(d) => d@,
                        None => "simulator"@,
                    }
                },
                Err(DaemonConfigError::MissingDatabaseUrl) => database_url.is_none(),
                Err(DaemonConfigError::InvalidArchiveInterval) => {
                    &&& database_url.is_some()
                    &&& setting_i32(archive_interval, DEFAULT_ARCHIVE_INTERVAL).is_none()
                },
                Err(DaemonConfigError::InvalidPollInterval) => {
                    &&& database_url.is_some()
                    &&& setting_i32(archive_interval, DEFAULT_ARCHIVE_INTERVAL).is_some()
                    &&& setting_u64(poll_interval, DEFAULT_POLL_INTERVAL).is_none()
                },
                Err(DaemonConfigError::InvalidUnitSystem) => {
                    &&& database_url.is_some()
                    &&& setting_i32(archive_interval, DEFAULT_ARCHIVE_INTERVAL).is_some()
                    &&& setting_u64(poll_interval, DEFAULT_POLL_INTERVAL).is_some()
                    &&& setting_i32(unit_system, DEFAULT_UNIT_SYSTEM).is_none()
                },
            },
    {
        let database_url = match database_url {
            Some(url) => url,
            None => {
                return Err(DaemonConfigError::MissingDatabaseUrl);
            },
        };
        let archive_interval = match read_i32(&archive_interval, DEFAULT_ARCHIVE_INTERVAL) {
            Some(v) => v,
            None => {
                return Err(DaemonConfigError::InvalidArchiveInterval);
            },
        };
        let poll_interval = match read_u64(&poll_interval, DEFAULT_POLL_INTERVAL) {
            Some(v) => v,
            None => {
                return Err(DaemonConfigError::InvalidPollInterval);
            },
        };
        let unit_system = match read_i32(&unit_system, DEFAULT_UNIT_SYSTEM) {
            Some(v) => v,
            None => {
                return Err(DaemonConfigError::InvalidUnitSystem);
            },
        };
        let driver = match driver {
            Some(d) => d,
            None => "simulator".to_owned(),
        };
        Ok(DaemonConfig { database_url, archive_interval, poll_interval, unit_system, driver })
    }
}

/// A copy of an optional string.
fn clone_text(s: &Option<String>) -> (r: Option<String>)
    ensures
        r == *s,
{
    match s {
        Some(t) => Some(t.clone()),
        None => None,
    }
}

impl Default for AppConfig {
    /// The empty configuration.
    fn default() -> (c: Self)
        ensures
            c.station.is_none(),
            c.sinks.is_none(),
            c.ingest.is_none(),
    {
        AppConfig { station: None, sinks: None, ingest: None }
    }
}

impl AppConfig {
    /// The configured HTTP bind address, if any.
    pub open spec fn spec_http_bind(&self) -> Option<String> {
        match self.sinks {
            Some(s) => match s.http {
                Some(h) => h.bind,
                None => None,
            },
            None => None,
        }
    }

    /// The configured UDP bind address, if any.
    pub open spec fn spec_interceptor_bind(&self) -> Option<String> {
        match self.ingest {
            Some(i) => match i.interceptor {
                Some(c) => c.bind,
                None => None,
            },
            None => None,
        }
    }

    /// The configured directory of the filesystem sink, if any.
    pub open spec fn spec_fs_dir(&self) -> Option<String> {
        match self.sinks {
            Some(s) => match s.fs {
                Some(f) => f.dir,
                None => None,
            },
            None => None,
        }
    }

    /// The configured path of the SQLite sink, if any.
    pub open spec fn spec_sqlite_path(&self) -> Option<String> {
        match self.sinks {
            Some(s) => match s.sqlite {
                Some(q) => q.path,
                None => None,
            },
            None => None,
        }
    }

    /// The configured URL of the Postgres sink, if any.
    pub open spec fn spec_postgres_url(&self) -> Option<String> {
        match self.sinks {
            Some(s) => match s.postgres {
                Some(p) => p.url,
                None => None,
            },
            None => None,
        }
    }

    /// The configured Influx sink, if any.
    pub open spec fn spec_influx(&self) -> Option<InfluxSinkConfig> {
        match self.sinks {
            Some(s) => s.influx,
            None => None,
        }
    }

    /// The HTTP bind address: the configured one, else `0.0.0.0:8080`.
    pub fn http_bind(&self) -> (r: String)
        ensures
            r@ == match self.spec_http_bind() {
                Some(b) => b@,
                None => "0.0.0.0:8080"@,
            },
    {
        match &self.sinks {
            Some(s) => match &s.http {
                Some(h) => match &h.bind {
                    Some(b) => b.clone(),
                    None => "0.0.0.0:8080".to_owned(),
                },
                None => "0.0.0.0:8080".to_owned(),
            },
            None => "0.0.0.0:8080".to_owned(),
        }
    }

    /// The UDP bind address: the configured one, else `0.0.0.0:9999`.
    pub fn interceptor_bind(&self) -> (r: String)
        ensures
            r@ == match self.spec_interceptor_bind() {
                Some(b) => b@,
                None => "0.0.0.0:9999"@,
            },
    {
        match &self.ingest {
            Some(i) => match &i.interceptor {
                Some(c) => match &c.bind {
                    Some(b) => b.clone(),
                    None => "0.0.0.0:9999".to_owned(),
                },
                None => "0.0.0.0:9999".to_owned(),
            },
            None => "0.0.0.0:9999".to_owned(),
        }
    }

    /// The directory of the filesystem sink, if configured.
    pub fn fs_dir(&self) -> (r: Option<String>)
        ensures
            r == self.spec_fs_dir(),
    {
        match &self.sinks {
            Some(s) => match &s.fs {
                Some(f) => clone_text(&f.dir),
                None => None,
            },
            None => None,
        }
    }

    /// The path of the SQLite sink, if configured.
    pub fn sqlite_path(&self) -> (r: Option<String>)
        ensures
            r == self.spec_sqlite_path(),
    {
        match &self.sinks {
            Some(s) => match &s.sqlite {
                Some(q) => clone_text(&q.path),
                None => None,
            },
            None => None,
        }
    }

    /// The URL of the Postgres sink, if configured.
    pub fn postgres_url(&self) -> (r: Option<String>)
        ensures
            r == self.spec_postgres_url(),
    {
        match &self.sinks {
            Some(s) => match &s.postgres {
                Some(p) => clone_text(&p.url),
                None => None,
            },
            None => None,
        }
    }

    /// The parameters of the Influx sink (URL, organisation, bucket, token),
    /// if all four are configured.
    pub fn influx_params(&self) -> (r: Option<(String, String, String, String)>)
        ensures
            match r {
                Some(p) => self.spec_influx().is_some() && self.spec_influx().unwrap().url
                    == Some(p.0) && self.spec_influx().unwrap().org == Some(p.1)
                    && self.spec_influx().unwrap().bucket == Some(p.2)
                    && self.spec_influx().unwrap().token == Some(p.3),
                None => self.spec_influx().is_none() || self.spec_influx().unwrap().url.is_none()
                    || self.spec_influx().unwrap().org.is_none()
                    || self.spec_influx().unwrap().bucket.is_none()
                    || self.spec_influx().unwrap().token.is_none(),
            },
    {
        match &self.sinks {
            Some(s) => match &s.influx {
                Some(influx) => match (&influx.url, &influx.org, &influx.bucket, &influx.token) {
                    (Some(url), Some(org), Some(bucket), Some(token)) => Some(
                        (url.clone(), org.clone(), bucket.clone(), token.clone()),
                    ),
                    _ => None,
                },
                None => None,
            },
            None => None,
        }
    }
}

} // verus!
