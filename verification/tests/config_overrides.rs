use labworks::config::{
    apply_env_overrides, conf_key, parse_bool, resolve_config, ConfKey, Config, ConfigError,
    Mode, Server,
};
use labworks::decimal::IntParseError;

fn vars(pairs: &[(&str, &str)]) -> Vec<(String, String)> {
    pairs.iter().map(|(k, v)| (k.to_string(), v.to_string())).collect()
}

#[test]
fn defaults_match_documented_values() {
    let c = Config::default();
    assert!(!c.mode.debug);
    assert_eq!(c.server.external_url, "http://127.0.0.1");
    assert_eq!(c.server.http_port, 8081);
    assert_eq!(c.server.grpc_port, 8082);
    assert_eq!(c.server.healthz_port, 10025);
    assert_eq!(c.server.metrics_port, 9199);
    assert_eq!(c.db.mysql.host, "127.0.0.1");
    assert_eq!(c.db.mysql.port, 3306);
    assert_eq!(c.db.mysql.dating, "default");
    assert_eq!(c.db.mysql.user, "root");
    assert_eq!(c.db.mysql.pass, "");
    assert_eq!(c.db.mysql.connections.max_idle, 30);
    assert_eq!(c.db.mysql.connections.max_open, 30);
    assert_eq!(c.log.app.level, "info");
    assert_eq!(c.background.watchdog.period, "5s");
    assert_eq!(c.background.watchdog.limit, 10);
    assert_eq!(c.background.watchdog.lock_timeout, "4s");
    assert!(!Mode::default_debug());
    assert_eq!(Server::default_http_port(), 8081);
}

#[test]
fn parse_bool_spellings() {
    for s in ["1", "true", "YES", "On", "TRUE"] {
        assert_eq!(parse_bool(s), Ok(true), "{s}");
    }
    for s in ["0", "false", "No", "OFF"] {
        assert_eq!(parse_bool(s), Ok(false), "{s}");
    }
    let e = parse_bool("maybe").unwrap_err();
    assert_eq!(e, ConfigError::InvalidBool("maybe".to_string()));
    assert_eq!(e.message(), "invalid boolean value 'maybe'");
}

#[test]
fn conf_key_names() {
    assert_eq!(conf_key("CONF_MODE_DEBUG"), Some(ConfKey::ModeDebug));
    assert_eq!(conf_key("CONF_DB_MYSQL_CONNECTIONS_MAX_OPEN"), Some(ConfKey::DbMysqlConnectionsMaxOpen));
    assert_eq!(conf_key("MODE_DEBUG"), None);
    assert_eq!(conf_key("CONF_UNKNOWN"), None);
    assert_eq!(conf_key("conf_mode_debug"), None);
}

#[test]
fn overrides_apply_in_order_last_wins() {
    let mut c = Config::default();
    let v = vars(&[
        ("PATH", "/usr/bin"),
        ("CONF_SERVER_HTTP_PORT", "9000"),
        ("CONF_MODE_DEBUG", "yes"),
        ("CONF_LOG_APP_LEVEL", "debug"),
        ("CONF_SERVER_HTTP_PORT", "+9001"),
        ("CONF_BACKGROUND_WATCHDOG_LIMIT", "4000000000"),
        ("CONF_NOT_A_SETTING", "x"),
    ]);
    apply_env_overrides(&mut c, &v).unwrap();
    assert_eq!(c.server.http_port, 9001);
    assert!(c.mode.debug);
    assert_eq!(c.log.app.level, "debug");
    assert_eq!(c.background.watchdog.limit, 4000000000);
    assert_eq!(c.server.grpc_port, 8082);
}

#[test]
fn invalid_numbers_are_refused() {
    let mut c = Config::default();
    let e = apply_env_overrides(&mut c, &vars(&[("CONF_DB_MYSQL_PORT", "70000")])).unwrap_err();
    assert_eq!(e, ConfigError::InvalidNumber(IntParseError::PosOverflow));
    assert_eq!(e.message(), "number too large to fit in target type");
    let e = apply_env_overrides(&mut c, &vars(&[("CONF_SERVER_GRPC_PORT", "")])).unwrap_err();
    assert_eq!(e.message(), "cannot parse integer from empty string");
    let e = apply_env_overrides(&mut c, &vars(&[("CONF_SERVER_GRPC_PORT", "8o")])).unwrap_err();
    assert_eq!(e.message(), "invalid digit found in string");
    let e = apply_env_overrides(&mut c, &vars(&[("CONF_SERVER_GRPC_PORT", "-1")])).unwrap_err();
    assert_eq!(e, ConfigError::InvalidNumber(IntParseError::InvalidDigit));
}

#[test]
fn resolve_config_layers() {
    let c = resolve_config(None, &vars(&[("CONF_DB_MYSQL_HOST", "db")]), true).unwrap();
    assert!(c.mode.debug);
    assert_eq!(c.db.mysql.host, "db");
    let mut file = Config::default();
    file.server.metrics_port = 1;
    let c = resolve_config(Some(file), &vars(&[]), false).unwrap();
    assert_eq!(c.server.metrics_port, 1);
    assert!(!c.mode.debug);
    assert!(resolve_config(None, &vars(&[("CONF_MODE_DEBUG", "2")]), true).is_err());
}

#[test]
fn later_override_wins_and_foreign_vars_are_ignored() {
    let mut c = Config::default();
    apply_env_overrides(
        &mut c,
        &vars(&[
            ("CONF_LOG_APP_LEVEL", "debug"),
            ("HOME", "/root"),
            ("CONF_UNKNOWN", "x"),
            ("conf_LOG_APP_LEVEL", "error"),
            ("CONF_LOG_APP_LEVEL", "warn"),
        ]),
    )
    .unwrap();
    assert_eq!(c.log.app.level, "warn");

    let mut d = Config::default();
    apply_env_overrides(&mut d, &vars(&[("PATH", "/bin"), ("CONF_", "1"), ("CONF_MODE", "1")])).unwrap();
    let e = Config::default();
    assert_eq!(d.log.app.level, e.log.app.level);
    assert_eq!(d.mode.debug, e.mode.debug);
    assert_eq!(d.server.http_port, e.server.http_port);
}

#[test]
fn an_error_stops_later_overrides() {
    let mut c = Config::default();
    let r = apply_env_overrides(
        &mut c,
        &vars(&[("CONF_DB_MYSQL_USER", "alice"), ("CONF_MODE_DEBUG", "maybe"), ("CONF_DB_MYSQL_PASS", "x")]),
    );
    assert_eq!(r, Err(ConfigError::InvalidBool("maybe".into())));
    assert_eq!(c.db.mysql.user, "alice");
    assert_eq!(c.db.mysql.pass, "");
    assert!(!c.mode.debug);
}

#[test]
fn applying_overrides_twice_changes_nothing() {
    let v = vars(&[
        ("CONF_SERVER_HTTP_PORT", "9000"),
        ("CONF_LOG_APP_LEVEL", "debug"),
        ("CONF_SERVER_HTTP_PORT", "9001"),
        ("CONF_MODE_DEBUG", "on"),
    ]);
    let mut c = Config::default();
    apply_env_overrides(&mut c, &v).unwrap();
    let once = format!("{:?}", c);
    apply_env_overrides(&mut c, &v).unwrap();
    assert_eq!(format!("{:?}", c), once);
    assert_eq!(c.server.http_port, 9001);
}
