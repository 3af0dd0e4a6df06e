use weewx::client::DbConnectionBuilder;
use weewx::config::{
    AppConfig, DaemonConfig, DaemonConfigError, FsSinkConfig, HttpSinkConfig, InfluxSinkConfig, IngestConfig,
    InterceptorConfig, PostgresSinkConfig, SinksConfig, SqliteSinkConfig,
};
use weewx::schema::EXPECTED_SCHEMA_VERSION;
use weewx::tables;

fn sinks() -> SinksConfig {
    SinksConfig { http: None, fs: None, sqlite: None, postgres: None, influx: None }
}

#[test]
fn default_bind_is_8080() {
    let cfg = AppConfig::default();
    assert_eq!(cfg.http_bind(), "0.0.0.0:8080");
}

#[test]
fn defaults_of_an_empty_configuration() {
    let cfg = AppConfig::default();
    assert_eq!(cfg.interceptor_bind(), "0.0.0.0:9999");
    assert_eq!(cfg.fs_dir(), None);
    assert_eq!(cfg.sqlite_path(), None);
    assert_eq!(cfg.postgres_url(), None);
    assert_eq!(cfg.influx_params(), None);

    let hollow = AppConfig {
        station: None,
        sinks: Some(SinksConfig { http: Some(HttpSinkConfig { bind: None }), ..sinks() }),
        ingest: Some(IngestConfig { interceptor: Some(InterceptorConfig { bind: None }) }),
    };
    assert_eq!(hollow.http_bind(), "0.0.0.0:8080");
    assert_eq!(hollow.interceptor_bind(), "0.0.0.0:9999");
}

#[test]
fn configured_values_are_returned() {
    let cfg = AppConfig {
        station: None,
        sinks: Some(SinksConfig {
            http: Some(HttpSinkConfig { bind: Some("127.0.0.1:9000".to_string()) }),
            fs: Some(FsSinkConfig { dir: Some("/var/lib/weewx".to_string()) }),
            sqlite: Some(SqliteSinkConfig { path: Some("weewx.db".to_string()) }),
            postgres: Some(PostgresSinkConfig { url: Some("postgres://db".to_string()) }),
            influx: Some(InfluxSinkConfig {
                url: Some("http://influx".to_string()),
                org: Some("home".to_string()),
                bucket: Some("weather".to_string()),
                token: Some("t".to_string()),
            }),
        }),
        ingest: Some(IngestConfig {
            interceptor: Some(InterceptorConfig { bind: Some("127.0.0.1:7000".to_string()) }),
        }),
    };
    assert_eq!(cfg.http_bind(), "127.0.0.1:9000");
    assert_eq!(cfg.interceptor_bind(), "127.0.0.1:7000");
    assert_eq!(cfg.fs_dir(), Some("/var/lib/weewx".to_string()));
    assert_eq!(cfg.sqlite_path(), Some("weewx.db".to_string()));
    assert_eq!(cfg.postgres_url(), Some("postgres://db".to_string()));
    assert_eq!(
        cfg.influx_params(),
        Some((
            "http://influx".to_string(),
            "home".to_string(),
            "weather".to_string(),
            "t".to_string()
        ))
    );

    let partial = AppConfig {
        station: None,
        sinks: Some(SinksConfig {
            influx: Some(InfluxSinkConfig {
                url: Some("http://influx".to_string()),
                org: Some("home".to_string()),
                bucket: None,
                token: Some("t".to_string()),
            }),
            ..sinks()
        }),
        ingest: None,
    };
    assert_eq!(partial.influx_params(), None);
}

#[test]
fn test_config_defaults() {
    let config = DaemonConfig::from_settings(
        Some("mysql://localhost/weewx".to_string()),
        None,
        None,
        None,
        None,
    )
    .unwrap();

    assert_eq!(config.database_url, "mysql://localhost/weewx");
    assert_eq!(config.archive_interval, 300);
    assert_eq!(config.poll_interval, 10);
    assert_eq!(config.unit_system, 16);
    assert_eq!(config.driver, "simulator");
}

#[test]
fn daemon_settings_are_read_in_order() {
    let text = |s: &str| Some(s.to_string());
    let config = DaemonConfig::from_settings(
        text("mysql://db/weewx"),
        text("60"),
        text("+2"),
        text("1"),
        text("interceptor-udp"),
    )
    .unwrap();
    assert_eq!(config.archive_interval, 60);
    assert_eq!(config.poll_interval, 2);
    assert_eq!(config.unit_system, 1);
    assert_eq!(config.driver, "interceptor-udp");

    assert_eq!(
        DaemonConfig::from_settings(None, text("x"), text("x"), text("x"), None),
        Err(DaemonConfigError::MissingDatabaseUrl)
    );
    assert_eq!(
        DaemonConfig::from_settings(text("u"), text("2147483648"), text("x"), text("x"), None),
        Err(DaemonConfigError::InvalidArchiveInterval)
    );
    assert_eq!(
        DaemonConfig::from_settings(text("u"), text("-2147483648"), text("-1"), text("x"), None),
        Err(DaemonConfigError::InvalidPollInterval)
    );
    assert_eq!(
        DaemonConfig::from_settings(text("u"), None, text("18446744073709551615"), text(""), None),
        Err(DaemonConfigError::InvalidUnitSystem)
    );
    assert_eq!(
        DaemonConfig::from_settings(text("u"), None, text("18446744073709551616"), None, None),
        Err(DaemonConfigError::InvalidPollInterval)
    );
    assert_eq!(
        DaemonConfig::from_settings(text("u"), None, text("-0"), None, None),
        Err(DaemonConfigError::InvalidPollInterval)
    );
    assert_eq!(
        DaemonConfig::from_settings(text("u"), text(" 300"), None, None, None),
        Err(DaemonConfigError::InvalidArchiveInterval)
    );
}

#[test]
fn test_connection_builder() {
    let parts = DbConnectionBuilder::new("weewx")
        .host("db.example.com")
        .port(3307)
        .username("admin")
        .password("secret")
        .into_parts();
    assert_eq!(
        parts,
        (
            "db.example.com".to_string(),
            3307,
            "weewx".to_string(),
            "admin".to_string(),
            Some("secret".to_string())
        )
    );
}

#[test]
fn connection_builder_defaults() {
    let parts = DbConnectionBuilder::new("archive").into_parts();
    assert_eq!(
        parts,
        ("localhost".to_string(), 3306, "archive".to_string(), "weewx".to_string(), None)
    );
}

#[test]
fn schema_names() {
    assert_eq!(tables::DAILY_SUMMARY, "archive_day_summary");
    assert_eq!(EXPECTED_SCHEMA_VERSION, "4.0");
}
