use vstd::prelude::*;
use vstd::string::StringExecFns;

use crate::chars::{ascii_lower, chars_eq_str, skip_chars, starts_with, str_to_chars, to_ascii_lowercase};
use crate::decimal::{int_error_text, parse_u16, parse_u32, parse_unsigned, IntParseError};

verus! {

/// `[mode]` section.
#[derive(Debug)]
pub struct Mode {
    pub debug: bool,
}

/// `[server]` section.
#[derive(Debug)]
pub struct Server {
    pub external_url: String,
    pub http_port: u16,
    pub grpc_port: u16,
    pub healthz_port: u16,
    pub metrics_port: u16,
}

/// `[db]` section.
#[derive(Debug)]
pub struct Db {
    pub mysql: Mysql,
}

/// `[db.mysql]` section.
#[derive(Debug)]
pub struct Mysql {
    pub host: String,
    pub port: u16,
    pub dating: String,
    pub user: String,
    pub pass: String,
    pub connections: Connections,
}

/// `[db.mysql.connections]` section.
#[derive(Debug)]
pub struct Connections {
    pub max_idle: u32,
    pub max_open: u32,
}

/// `[log]` section.
#[derive(Debug)]
pub struct Log {
    pub app: AppLog,
}

/// `[log.app]` section.
#[derive(Debug)]
pub struct AppLog {
    pub level: String,
}

/// `[background]` section.
#[derive(Debug)]
pub struct Background {
    pub watchdog: Watchdog,
}

/// `[background.watchdog]` section.
#[derive(Debug)]
pub struct Watchdog {
    pub period: String,
    pub limit: u32,
    pub lock_timeout: String,
}

/// The whole configuration of the service.
#[derive(Debug)]
pub struct Config {
    pub mode: Mode,
    pub server: Server,
    pub db: Db,
    pub log: Log,
    pub background: Background,
}

/// The configuration as plain values, one per setting.
pub struct ConfigView {
    pub debug: bool,
    pub external_url: Seq<char>,
    pub http_port: u16,
    pub grpc_port: u16,
    pub healthz_port: u16,
    pub metrics_port: u16,
    pub mysql_host: Seq<char>,
    pub mysql_port: u16,
    pub mysql_dating: Seq<char>,
    pub mysql_user: Seq<char>,
    pub mysql_pass: Seq<char>,
    pub max_idle: u32,
    pub max_open: u32,
    pub log_level: Seq<char>,
    pub watchdog_period: Seq<char>,
    pub watchdog_limit: u32,
    pub watchdog_lock_timeout: Seq<char>,
}

impl View for Config {
    type V = ConfigView;

    open spec fn view(&self) -> ConfigView {
        ConfigView {
            debug: self.mode.debug,
            external_url: self.server.external_url@,
            http_port: self.server.http_port,
            grpc_port: self.server.grpc_port,
            healthz_port: self.server.healthz_port,
            metrics_port: self.server.metrics_port,
            mysql_host: self.db.mysql.host@,
            mysql_port: self.db.mysql.port,
            mysql_dating: self.db.mysql.dating@,
            mysql_user: self.db.mysql.user@,
            mysql_pass: self.db.mysql.pass@,
            max_idle: self.db.mysql.connections.max_idle,
            max_open: self.db.mysql.connections.max_open,
            log_level: self.log.app.level@,
            watchdog_period: self.background.watchdog.period@,
            watchdog_limit: self.background.watchdog.limit,
            watchdog_lock_timeout: self.background.watchdog.lock_timeout@,
        }
    }
}

/// The settings used where neither the file nor the environment gives one.
pub open spec fn default_config() -> ConfigView {
    ConfigView {
        debug: false,
        external_url: "http://127.0.0.1"@,
        http_port: 8081,
        grpc_port: 8082,
        healthz_port: 10025,
        metrics_port: 9199,
        mysql_host: "127.0.0.1"@,
        mysql_port: 3306,
        mysql_dating: "default"@,
        mysql_user: "root"@,
        mysql_pass: ""@,
        max_idle: 30,
        max_open: 30,
        log_level: "info"@,
        watchdog_period: "5s"@,
        watchdog_limit: 10,
        watchdog_lock_timeout: "4s"@,
    }
}

impl Mode {
    pub fn default_debug() -> (b: bool)
        ensures
            b == default_config().debug,
    {
        false
    }
}

impl Default for Mode {
    fn default() -> (m: Self)
        ensures
            m.debug == default_config().debug,
    {
        Mode { debug: Self::default_debug() }
    }
}

impl Server {
    pub fn default_external_url() -> (s: String)
        ensures
            s@ == default_config().external_url,
    {
        String::from_str("http://127.0.0.1")
    }

    pub fn default_http_port() -> (p: u16)
        ensures
            p == default_config().http_port,
    {
        8081
    }

    pub fn default_grpc_port() -> (p: u16)
        ensures
            p == default_config().grpc_port,
    {
        8082
    }

    pub fn default_healthz_port() -> (p: u16)
        ensures
            p == default_config().healthz_port,
    {
        10025
    }

    pub fn default_metrics_port() -> (p: u16)
        ensures
            p == default_config().metrics_port,
    {
        9199
    }
}

impl Default for Server {
    fn default() -> (s: Self)
        ensures
            s.external_url@ == default_config().external_url,
            s.http_port == default_config().http_port,
            s.grpc_port == default_config().grpc_port,
            s.healthz_port == default_config().healthz_port,
            s.metrics_port == default_config().metrics_port,
    {
        Server {
            external_url: Self::default_external_url(),
            http_port: Self::default_http_port(),
            grpc_port: Self::default_grpc_port(),
            healthz_port: Self::default_healthz_port(),
            metrics_port: Self::default_metrics_port(),
        }
    }
}

impl Mysql {
    pub fn default_host() -> (s: String)
        ensures
            s@ == default_config().mysql_host,
    {
        String::from_str("127.0.0.1")
    }

    pub fn default_port() -> (p: u16)
        ensures
            p == default_config().mysql_port,
    {
        3306
    }

    pub fn default_dating() -> (s: String)
        ensures
            s@ == default_config().mysql_dating,
    {
        String::from_str("default")
    }

    pub fn default_user() -> (s: String)
        ensures
            s@ == default_config().mysql_user,
    {
        String::from_str("root")
    }

    pub fn default_pass() -> (s: String)
        ensures
            s@ == default_config().mysql_pass,
    {
        String::from_str("")
    }
}

impl Default for Mysql {
    fn default() -> (m: Self)
        ensures
            m.host@ == default_config().mysql_host,
            m.port == default_config().mysql_port,
            m.dating@ == default_config().mysql_dating,
            m.user@ == default_config().mysql_user,
            m.pass@ == default_config().mysql_pass,
            m.connections.max_idle == default_config().max_idle,
            m.connections.max_open == default_config().max_open,
    {
        Mysql {
            host: Self::default_host(),
            port: Self::default_port(),
            dating: Self::default_dating(),
            user: Self::default_user(),
            pass: Self::default_pass(),
            connections: Connections::default(),
        }
    }
}

impl Default for Db {
    fn default() -> (d: Self)
        ensures
            d.mysql.host@ == default_config().mysql_host,
            d.mysql.port == default_config().mysql_port,
            d.mysql.dating@ == default_config().mysql_dating,
            d.mysql.user@ == default_config().mysql_user,
            d.mysql.pass@ == default_config().mysql_pass,
            d.mysql.connections.max_idle == default_config().max_idle,
            d.mysql.connections.max_open == default_config().max_open,
    {
        Db { mysql: Mysql::default() }
    }
}

impl Connections {
    pub fn default_max_idle() -> (n: u32)
        ensures
            n == default_config().max_idle,
    {
        30
    }

    pub fn default_max_open() -> (n: u32)
        ensures
            n == default_config().max_open,
    {
        30
    }
}

impl Default for Connections {
    fn default() -> (c: Self)
        ensures
            c.max_idle == default_config().max_idle,
            c.max_open == default_config().max_open,
    {
        Connections { max_idle: Self::default_max_idle(), max_open: Self::default_max_open() }
    }
}

impl AppLog {
    pub fn default_level() -> (s: String)
        ensures
            s@ == default_config().log_level,
    {
        String::from_str("info")
    }
}

impl Default for AppLog {
    fn default() -> (a: Self)
        ensures
            a.level@ == default_config().log_level,
    {
        AppLog { level: Self::default_level() }
    }
}

impl Default for Log {
    fn default() -> (l: Self)
        ensures
            l.app.level@ == default_config().log_level,
    {
        Log { app: AppLog::default() }
    }
}

impl Watchdog {
    pub fn default_period() -> (s: String)
        ensures
            s@ == default_config().watchdog_period,
    {
        String::from_str("5s")
    }

    pub fn default_limit() -> (n: u32)
        ensures
            n == default_config().watchdog_limit,
    {
        10
    }

    pub fn default_lock_timeout() -> (s: String)
        ensures
            s@ == default_config().watchdog_lock_timeout,
    {
        String::from_str("4s")
    }
}

impl Default for Watchdog {
    fn default() -> (w: Self)
        ensures
            w.period@ == default_config().watchdog_period,
            w.limit == default_config().watchdog_limit,
            w.lock_timeout@ == default_config().watchdog_lock_timeout,
    {
        Watchdog {
            period: Self::default_period(),
            limit: Self::default_limit(),
            lock_timeout: Self::default_lock_timeout(),
        }
    }
}

impl Default for Background {
    fn default() -> (b: Self)
        ensures
            b.watchdog.period@ == default_config().watchdog_period,
            b.watchdog.limit == default_config().watchdog_limit,
            b.watchdog.lock_timeout@ == default_config().watchdog_lock_timeout,
    {
        Background { watchdog: Watchdog::default() }
    }
}

impl Default for Config {
    fn default() -> (c: Self)
        ensures
            c@ == default_config(),
    {
        Config {
            mode: Mode::default(),
            server: Server::default(),
            db: Db::default(),
            log: Log::default(),
            background: Background::default(),
        }
    }
}

/// Why a configuration override was refused.
#[derive(Debug, PartialEq, Eq)]
pub enum ConfigError {
    /// A boolean setting was given a value that is not a known spelling of a boolean.
    InvalidBool(String),
    /// A numeric setting was given a value that is not a number of its type.
    InvalidNumber(IntParseError),
}

/// A refused override, as plain values.
pub enum ConfigErrorView {
    InvalidBool(Seq<char>),
    InvalidNumber(IntParseError),
}

impl View for ConfigError {
    type V = ConfigErrorView;

    open spec fn view(&self) -> ConfigErrorView {
        match self {
            ConfigError::InvalidBool(s) => ConfigErrorView::InvalidBool(s@),
            ConfigError::InvalidNumber(e) => ConfigErrorView::InvalidNumber(*e),
        }
    }
}

pub open spec fn config_error_text(e: ConfigErrorView) -> Seq<char> {
    match e {
        ConfigErrorView::InvalidBool(v) => "invalid boolean value '"@ + v + "'"@,
        ConfigErrorView::InvalidNumber(k) => int_error_text(k),
    }
}

impl ConfigError {
    /// The human-readable description of the error.
    pub fn message(&self) -> (m: String)
        ensures
            m@ == config_error_text(self@),
    {
        match self {
            ConfigError::InvalidBool(v) => {
                let mut m = String::from_str("invalid boolean value '");
                m.append(v.as_str());
                m.append("'");
                m
            },
            ConfigError::InvalidNumber(k) => k.message(),
        }
    }
}

/// The boolean that a setting's text spells, ignoring ASCII case.
pub open spec fn spec_parse_bool(s: Seq<char>) -> Option<bool> {
    let l = ascii_lower(s);
    if l == "1"@ || l == "true"@ || l == "yes"@ || l == "on"@ {
        Some(true)
    } else if l == "0"@ || l == "false"@ || l == "no"@ || l == "off"@ {
        Some(false)
    } else {
        None
    }
}

/// Reads a boolean setting: `1`, `true`, `yes`, `on` and `0`, `false`, `no`, `off`, in any
/// ASCII case.
pub fn parse_bool(s: &str) -> (r: Result<bool, ConfigError>)
    ensures
        match spec_parse_bool(s@) {
            Some(b) => r == Ok::<bool, ConfigError>(b),
            None => r is Err && r->Err_0@ == ConfigErrorView::InvalidBool(s@),
        },
{
    let v = str_to_chars(s);
    let l = to_ascii_lowercase(&v);
    if chars_eq_str(&l, "1") || chars_eq_str(&l, "true") || chars_eq_str(&l, "yes")
        || chars_eq_str(&l, "on") {
        return Ok(true);
    }
    if chars_eq_str(&l, "0") || chars_eq_str(&l, "false") || chars_eq_str(&l, "no")
        || chars_eq_str(&l, "off") {
        return Ok(false);
    }
    Err(ConfigError::InvalidBool(String::from_str(s)))
}

/// The settings that an environment variable can override.
#[derive(Debug, Clone, Copy, PartialEq, Eq)]
pub enum ConfKey {
    ModeDebug,
    ServerExternalUrl,
    ServerHttpPort,
    ServerGrpcPort,
    ServerHealthzPort,
    ServerMetricsPort,
    DbMysqlHost,
    DbMysqlPort,
    DbMysqlDating,
    DbMysqlUser,
    DbMysqlPass,
    DbMysqlConnectionsMaxIdle,
    DbMysqlConnectionsMaxOpen,
    LogAppLevel,
    BackgroundWatchdogPeriod,
    BackgroundWatchdogLimit,
    BackgroundWatchdogLockTimeout,
}

/// The setting named by the part of a variable's name after `CONF_`.
pub open spec fn conf_key_of(name: Seq<char>) -> Option<ConfKey> {
    if name == "MODE_DEBUG"@ {
        Some(ConfKey::ModeDebug)
    } else if name == "SERVER_EXTERNAL_URL"@ {
        Some(ConfKey::ServerExternalUrl)
    } else if name == "SERVER_HTTP_PORT"@ {
        Some(ConfKey::ServerHttpPort)
    } else if name == "SERVER_GRPC_PORT"@ {
        Some(ConfKey::ServerGrpcPort)
    } else if name == "SERVER_HEALTHZ_PORT"@ {
        Some(ConfKey::ServerHealthzPort)
    } else if name == "SERVER_METRICS_PORT"@ {
        Some(ConfKey::ServerMetricsPort)
    } else if name == "DB_MYSQL_HOST"@ {
        Some(ConfKey::DbMysqlHost)
    } else if name == "DB_MYSQL_PORT"@ {
        Some(ConfKey::DbMysqlPort)
    } else if name == "DB_MYSQL_DATING"@ {
        Some(ConfKey::DbMysqlDating)
    } else if name == "DB_MYSQL_USER"@ {
        Some(ConfKey::DbMysqlUser)
    } else if name == "DB_MYSQL_PASS"@ {
        Some(ConfKey::DbMysqlPass)
    } else if name == "DB_MYSQL_CONNECTIONS_MAX_IDLE"@ {
        Some(ConfKey::DbMysqlConnectionsMaxIdle)
    } else if name == "DB_MYSQL_CONNECTIONS_MAX_OPEN"@ {
        Some(ConfKey::DbMysqlConnectionsMaxOpen)
    } else if name == "LOG_APP_LEVEL"@ {
        Some(ConfKey::LogAppLevel)
    } else if name == "BACKGROUND_WATCHDOG_PERIOD"@ {
        Some(ConfKey::BackgroundWatchdogPeriod)
    } else if name == "BACKGROUND_WATCHDOG_LIMIT"@ {
        Some(ConfKey::BackgroundWatchdogLimit)
    } else if name == "BACKGROUND_WATCHDOG_LOCK_TIMEOUT"@ {
        Some(ConfKey::BackgroundWatchdogLockTimeout)
    } else {
        None
    }
}

/// The setting that an environment variable overrides, if any: its name must begin with
/// `CONF_` and go on with the setting's name.
pub open spec fn env_conf_key(var_name: Seq<char>) -> Option<ConfKey> {
    let p = "CONF_"@;
    if p.len() <= var_name.len() && var_name.take(p.len() as int) == p {
        conf_key_of(var_name.skip(p.len() as int))
    } else {
        None
    }
}

/// The configuration after one setting is overridden with the text `value`.
pub open spec fn apply_override(c: ConfigView, k: ConfKey, value: Seq<char>) -> Result<
    ConfigView,
    ConfigErrorView,
> {
    match k {
        ConfKey::ModeDebug => match spec_parse_bool(value) {
            Some(b) => Ok(ConfigView { debug: b, ..c }),
            None => Err(ConfigErrorView::InvalidBool(value)),
        },
        ConfKey::ServerExternalUrl => Ok(ConfigView { external_url: value, ..c }),
        ConfKey::ServerHttpPort => match parse_unsigned(value, 0xffff) {
            Ok(n) => Ok(ConfigView { http_port: n as u16, ..c }),
            Err(e) => Err(ConfigErrorView::InvalidNumber(e)),
        },
        ConfKey::ServerGrpcPort => match parse_unsigned(value, 0xffff) {
            Ok(n) => Ok(ConfigView { grpc_port: n as u16, ..c }),
            Err(e) => Err(ConfigErrorView::InvalidNumber(e)),
        },
        ConfKey::ServerHealthzPort => match parse_unsigned(value, 0xffff) {
            Ok(n) => Ok(ConfigView { healthz_port: n as u16, ..c }),
            Err(e) => Err(ConfigErrorView::InvalidNumber(e)),
        },
        ConfKey::ServerMetricsPort => match parse_unsigned(value, 0xffff) {
            Ok(n) => Ok(ConfigView { metrics_port: n as u16, ..c }),
            Err(e) => Err(ConfigErrorView::InvalidNumber(e)),
        },
        ConfKey::DbMysqlHost => Ok(ConfigView { mysql_host: value, ..c }),
        ConfKey::DbMysqlPort => match parse_unsigned(value, 0xffff) {
            Ok(n) => Ok(ConfigView { mysql_port: n as u16, ..c }),
            Err(e) => Err(ConfigErrorView::InvalidNumber(e)),
        },
        ConfKey::DbMysqlDating => Ok(ConfigView { mysql_dating: value, ..c }),
        ConfKey::DbMysqlUser => Ok(ConfigView { mysql_user: value, ..c }),
        ConfKey::DbMysqlPass => Ok(ConfigView { mysql_pass: value, ..c }),
        ConfKey::DbMysqlConnectionsMaxIdle => match parse_unsigned(value, 0xffff_ffff) {
            Ok(n) => Ok(ConfigView { max_idle: n as u32, ..c }),
            Err(e) => Err(ConfigErrorView::InvalidNumber(e)),
        },
        ConfKey::DbMysqlConnectionsMaxOpen => match parse_unsigned(value, 0xffff_ffff) {
            Ok(n) => Ok(ConfigView { max_open: n as u32, ..c }),
            Err(e) => Err(ConfigErrorView::InvalidNumber(e)),
        },
        ConfKey::LogAppLevel => Ok(ConfigView { log_level: value, ..c }),
        ConfKey::BackgroundWatchdogPeriod => Ok(ConfigView { watchdog_period: value, ..c }),
        ConfKey::BackgroundWatchdogLimit => match parse_unsigned(value, 0xffff_ffff) {
            Ok(n) => Ok(ConfigView { watchdog_limit: n as u32, ..c }),
            Err(e) => Err(ConfigErrorView::InvalidNumber(e)),
        },
        ConfKey::BackgroundWatchdogLockTimeout => Ok(
            ConfigView { watchdog_lock_timeout: value, ..c },
        ),
    }
}

/// The configuration after the environment variables `vars`, in order, have overridden
/// `c`; the first refused override ends it with its error.
pub open spec fn apply_overrides(c: ConfigView, vars: Seq<(String, String)>) -> Result<
    ConfigView,
    ConfigErrorView,
>
    decreases vars.len(),
{
    if vars.len() == 0 {
        Ok(c)
    } else {
        match env_conf_key(vars[0].0@) {
            None => apply_overrides(c, vars.drop_first()),
            Some(k) => match apply_override(c, k, vars[0].1@) {
                Ok(c2) => apply_overrides(c2, vars.drop_first()),
                Err(e) => Err(e),
            },
        }
    }
}

/// Overriding with the variables `a` and then `b` is overriding with `a` followed by `b`:
/// each variable acts in the order listed, a later override of a setting replaces an
/// earlier one, and the first refused value ends the pass.
pub proof fn lemma_overrides_concat(
    c: ConfigView,
    a: Seq<(String, String)>,
    b: Seq<(String, String)>,
)
    ensures
        apply_overrides(c, a + b) == match apply_overrides(c, a) {
            Ok(c2) => apply_overrides(c2, b),
            Err(e) => Err(e),
        },
    decreases a.len(),
{
    if a.len() == 0 {
        assert(a + b == b);
    } else {
        assert((a + b)[0] == a[0]);
        assert((a + b).drop_first() == a.drop_first() + b);
        match env_conf_key(a[0].0@) {
            None => lemma_overrides_concat(c, a.drop_first(), b),
            Some(k) => match apply_override(c, k, a[0].1@) {
                Ok(c2) => lemma_overrides_concat(c2, a.drop_first(), b),
                Err(e) => {},
            },
        }
    }
}

/// Variables whose names do not name a setting leave the configuration as it is.
pub proof fn lemma_foreign_vars_ignored(c: ConfigView, vars: Seq<(String, String)>)
    requires
        forall|i: int| 0 <= i < vars.len() ==> env_conf_key(#[trigger] vars[i].0@) is None,
    ensures
        apply_overrides(c, vars) == Ok::<ConfigView, ConfigErrorView>(c),
    decreases vars.len(),
{
    if vars.len() > 0 {
        assert(env_conf_key(vars[0].0@) is None);
        assert forall|i: int| 0 <= i < vars.drop_first().len() implies env_conf_key(
            #[trigger] vars.drop_first()[i].0@,
        ) is None by {
            assert(vars.drop_first()[i] == vars[i + 1]);
        }
        lemma_foreign_vars_ignored(c, vars.drop_first());
    }
}

/// The configuration as far as the overrides `vars` got: after all of them, or after those
/// before the first refused one.
pub open spec fn overrides_reached(c: ConfigView, vars: Seq<(String, String)>) -> ConfigView
    decreases vars.len(),
{
    if vars.len() == 0 {
        c
    } else {
        match env_conf_key(vars[0].0@) {
            None => overrides_reached(c, vars.drop_first()),
            Some(k) => match apply_override(c, k, vars[0].1@) {
                Ok(c2) => overrides_reached(c2, vars.drop_first()),
                Err(_) => c,
            },
        }
    }
}

/// The settings that the variables `vars` override.
pub open spec fn overridden_keys(vars: Seq<(String, String)>) -> Set<ConfKey>
    decreases vars.len(),
{
    if vars.len() == 0 {
        Set::empty()
    } else {
        match env_conf_key(vars[0].0@) {
            None => overridden_keys(vars.drop_first()),
            Some(k) => overridden_keys(vars.drop_first()).insert(k),
        }
    }
}

/// `base` with the settings in `keys` taken from `top`.
pub open spec fn overlay(base: ConfigView, top: ConfigView, keys: Set<ConfKey>) -> ConfigView {
    ConfigView {
        debug: if keys.contains(ConfKey::ModeDebug) { top.debug } else { base.debug },
        external_url: if keys.contains(ConfKey::ServerExternalUrl) { top.external_url } else { base.external_url },
        http_port: if keys.contains(ConfKey::ServerHttpPort) { top.http_port } else { base.http_port },
        grpc_port: if keys.contains(ConfKey::ServerGrpcPort) { top.grpc_port } else { base.grpc_port },
        healthz_port: if keys.contains(ConfKey::ServerHealthzPort) { top.healthz_port } else { base.healthz_port },
        metrics_port: if keys.contains(ConfKey::ServerMetricsPort) { top.metrics_port } else { base.metrics_port },
        mysql_host: if keys.contains(ConfKey::DbMysqlHost) { top.mysql_host } else { base.mysql_host },
        mysql_port: if keys.contains(ConfKey::DbMysqlPort) { top.mysql_port } else { base.mysql_port },
        mysql_dating: if keys.contains(ConfKey::DbMysqlDating) { top.mysql_dating } else { base.mysql_dating },
        mysql_user: if keys.contains(ConfKey::DbMysqlUser) { top.mysql_user } else { base.mysql_user },
        mysql_pass: if keys.contains(ConfKey::DbMysqlPass) { top.mysql_pass } else { base.mysql_pass },
        max_idle: if keys.contains(ConfKey::DbMysqlConnectionsMaxIdle) { top.max_idle } else { base.max_idle },
        max_open: if keys.contains(ConfKey::DbMysqlConnectionsMaxOpen) { top.max_open } else { base.max_open },
        log_level: if keys.contains(ConfKey::LogAppLevel) { top.log_level } else { base.log_level },
        watchdog_period: if keys.contains(ConfKey::BackgroundWatchdogPeriod) { top.watchdog_period } else { base.watchdog_period },
        watchdog_limit: if keys.contains(ConfKey::BackgroundWatchdogLimit) { top.watchdog_limit } else { base.watchdog_limit },
        watchdog_lock_timeout: if keys.contains(ConfKey::BackgroundWatchdogLockTimeout) { top.watchdog_lock_timeout } else { base.watchdog_lock_timeout },
    }
}

proof fn lemma_override_one(c: ConfigView, d: ConfigView, k: ConfKey, value: Seq<char>)
    ensures
        apply_override(c, k, value) is Ok <==> apply_override(d, k, value) is Ok,
        apply_override(c, k, value) is Ok ==> apply_override(d, k, value)->Ok_0 == overlay(
            d,
            apply_override(c, k, value)->Ok_0,
            Set::empty().insert(k),
        ),
{
}

proof fn lemma_overrides_from_anywhere(
    c: ConfigView,
    vars: Seq<(String, String)>,
    r: ConfigView,
    d: ConfigView,
)
    requires
        apply_overrides(c, vars) == Ok::<ConfigView, ConfigErrorView>(r),
    ensures
        apply_overrides(d, vars) == Ok::<ConfigView, ConfigErrorView>(
            overlay(d, r, overridden_keys(vars)),
        ),
    decreases vars.len(),
{
    if vars.len() == 0 {
        assert(overlay(d, r, Set::empty()) == d);
    } else {
        let rest = vars.drop_first();
        match env_conf_key(vars[0].0@) {
            None => {
                lemma_overrides_from_anywhere(c, rest, r, d);
            },
            Some(k) => {
                lemma_override_one(c, d, k, vars[0].1@);
                let c1 = apply_override(c, k, vars[0].1@)->Ok_0;
                let d1 = apply_override(d, k, vars[0].1@)->Ok_0;
                lemma_overrides_from_anywhere(c1, rest, r, c1);
                lemma_overrides_from_anywhere(c1, rest, r, d1);
                assert(overlay(d1, r, overridden_keys(rest)) == overlay(
                    d,
                    r,
                    overridden_keys(rest).insert(k),
                ));
            },
        }
    }
}

/// Applying the same overrides a second time changes nothing: once they succeed, a second
/// pass with the same variables succeeds and leaves the configuration as it is.
pub proof fn lemma_overrides_idempotent(c: ConfigView, vars: Seq<(String, String)>)
    requires
        apply_overrides(c, vars) is Ok,
    ensures
        apply_overrides(apply_overrides(c, vars)->Ok_0, vars) == apply_overrides(c, vars),
{
    let r = apply_overrides(c, vars)->Ok_0;
    lemma_overrides_from_anywhere(c, vars, r, r);
    assert(overlay(r, r, overridden_keys(vars)) == r);
}

proof fn lemma_variable_mode_debug()
    ensures
        env_conf_key("CONF_MODE_DEBUG"@) == Some(ConfKey::ModeDebug),
{
    reveal_strlit("CONF_");
    reveal_strlit("CONF_MODE_DEBUG");
    reveal_strlit("MODE_DEBUG");
    let n = "CONF_MODE_DEBUG"@;
    assert(n.take(5) =~= "CONF_"@);
    assert(n.skip(5) =~= "MODE_DEBUG"@);
}

proof fn lemma_variable_server_external_url()
    ensures
        env_conf_key("CONF_SERVER_EXTERNAL_URL"@) == Some(ConfKey::ServerExternalUrl),
{
    reveal_strlit("CONF_");
    reveal_strlit("CONF_SERVER_EXTERNAL_URL");
    reveal_strlit("SERVER_EXTERNAL_URL");
    reveal_strlit("MODE_DEBUG");
    let n = "CONF_SERVER_EXTERNAL_URL"@;
    assert(n.take(5) =~= "CONF_"@);
    assert(n.skip(5) =~= "SERVER_EXTERNAL_URL"@);
    assert("SERVER_EXTERNAL_URL"@.len() != "MODE_DEBUG"@.len());
}

proof fn lemma_variable_server_http_port()
    ensures
        env_conf_key("CONF_SERVER_HTTP_PORT"@) == Some(ConfKey::ServerHttpPort),
{
    reveal_strlit("CONF_");
    reveal_strlit("CONF_SERVER_HTTP_PORT");
    reveal_strlit("SERVER_HTTP_PORT");
    reveal_strlit("MODE_DEBUG");
    reveal_strlit("SERVER_EXTERNAL_URL");
    let n = "CONF_SERVER_HTTP_PORT"@;
    assert(n.take(5) =~= "CONF_"@);
    assert(n.skip(5) =~= "SERVER_HTTP_PORT"@);
    assert("SERVER_HTTP_PORT"@.len() != "MODE_DEBUG"@.len());
    assert("SERVER_HTTP_PORT"@.len() != "SERVER_EXTERNAL_URL"@.len());
}

proof fn lemma_variable_server_grpc_port()
    ensures
        env_conf_key("CONF_SERVER_GRPC_PORT"@) == Some(ConfKey::ServerGrpcPort),
{
    reveal_strlit("CONF_");
    reveal_strlit("CONF_SERVER_GRPC_PORT");
    reveal_strlit("SERVER_GRPC_PORT");
    reveal_strlit("MODE_DEBUG");
    reveal_strlit("SERVER_EXTERNAL_URL");
    reveal_strlit("SERVER_HTTP_PORT");
    let n = "CONF_SERVER_GRPC_PORT"@;
    assert(n.take(5) =~= "CONF_"@);
    assert(n.skip(5) =~= "SERVER_GRPC_PORT"@);
    assert("SERVER_GRPC_PORT"@.len() != "MODE_DEBUG"@.len());
    assert("SERVER_GRPC_PORT"@.len() != "SERVER_EXTERNAL_URL"@.len());
    assert("SERVER_GRPC_PORT"@[7] != "SERVER_HTTP_PORT"@[7]);
}

proof fn lemma_variable_server_healthz_port()
    ensures
        env_conf_key("CONF_SERVER_HEALTHZ_PORT"@) == Some(ConfKey::ServerHealthzPort),
{
    reveal_strlit("CONF_");
    reveal_strlit("CONF_SERVER_HEALTHZ_PORT");
    reveal_strlit("SERVER_HEALTHZ_PORT");
    reveal_strlit("MODE_DEBUG");
    reveal_strlit("SERVER_EXTERNAL_URL");
    reveal_strlit("SERVER_HTTP_PORT");
    reveal_strlit("SERVER_GRPC_PORT");
    let n = "CONF_SERVER_HEALTHZ_PORT"@;
    assert(n.take(5) =~= "CONF_"@);
    assert(n.skip(5) =~= "SERVER_HEALTHZ_PORT"@);
    assert("SERVER_HEALTHZ_PORT"@.len() != "MODE_DEBUG"@.len());
    assert("SERVER_HEALTHZ_PORT"@[7] != "SERVER_EXTERNAL_URL"@[7]);
    assert("SERVER_HEALTHZ_PORT"@.len() != "SERVER_HTTP_PORT"@.len());
    assert("SERVER_HEALTHZ_PORT"@.len() != "SERVER_GRPC_PORT"@.len());
}

proof fn lemma_variable_server_metrics_port()
    ensures
        env_conf_key("CONF_SERVER_METRICS_PORT"@) == Some(ConfKey::ServerMetricsPort),
{
    reveal_strlit("CONF_");
    reveal_strlit("CONF_SERVER_METRICS_PORT");
    reveal_strlit("SERVER_METRICS_PORT");
    reveal_strlit("MODE_DEBUG");
    reveal_strlit("SERVER_EXTERNAL_URL");
    reveal_strlit("SERVER_HTTP_PORT");
    reveal_strlit("SERVER_GRPC_PORT");
    reveal_strlit("SERVER_HEALTHZ_PORT");
    let n = "CONF_SERVER_METRICS_PORT"@;
    assert(n.take(5) =~= "CONF_"@);
    assert(n.skip(5) =~= "SERVER_METRICS_PORT"@);
    assert("SERVER_METRICS_PORT"@.len() != "MODE_DEBUG"@.len());
    assert("SERVER_METRICS_PORT"@[7] != "SERVER_EXTERNAL_URL"@[7]);
    assert("SERVER_METRICS_PORT"@.len() != "SERVER_HTTP_PORT"@.len());
    assert("SERVER_METRICS_PORT"@.len() != "SERVER_GRPC_PORT"@.len());
    assert("SERVER_METRICS_PORT"@[7] != "SERVER_HEALTHZ_PORT"@[7]);
}

proof fn lemma_variable_db_mysql_host()
    ensures
        env_conf_key("CONF_DB_MYSQL_HOST"@) == Some(ConfKey::DbMysqlHost),
{
    reveal_strlit("CONF_");
    reveal_strlit("CONF_DB_MYSQL_HOST");
    reveal_strlit("DB_MYSQL_HOST");
    reveal_strlit("MODE_DEBUG");
    reveal_strlit("SERVER_EXTERNAL_URL");
    reveal_strlit("SERVER_HTTP_PORT");
    reveal_strlit("SERVER_GRPC_PORT");
    reveal_strlit("SERVER_HEALTHZ_PORT");
    reveal_strlit("SERVER_METRICS_PORT");
    let n = "CONF_DB_MYSQL_HOST"@;
    assert(n.take(5) =~= "CONF_"@);
    assert(n.skip(5) =~= "DB_MYSQL_HOST"@);
    assert("DB_MYSQL_HOST"@.len() != "MODE_DEBUG"@.len());
    assert("DB_MYSQL_HOST"@.len() != "SERVER_EXTERNAL_URL"@.len());
    assert("DB_MYSQL_HOST"@.len() != "SERVER_HTTP_PORT"@.len());
    assert("DB_MYSQL_HOST"@.len() != "SERVER_GRPC_PORT"@.len());
    assert("DB_MYSQL_HOST"@.len() != "SERVER_HEALTHZ_PORT"@.len());
    assert("DB_MYSQL_HOST"@.len() != "SERVER_METRICS_PORT"@.len());
}

proof fn lemma_variable_db_mysql_port()
    ensures
        env_conf_key("CONF_DB_MYSQL_PORT"@) == Some(ConfKey::DbMysqlPort),
{
    reveal_strlit("CONF_");
    reveal_strlit("CONF_DB_MYSQL_PORT");
    reveal_strlit("DB_MYSQL_PORT");
    reveal_strlit("MODE_DEBUG");
    reveal_strlit("SERVER_EXTERNAL_URL");
    reveal_strlit("SERVER_HTTP_PORT");
    reveal_strlit("SERVER_GRPC_PORT");
    reveal_strlit("SERVER_HEALTHZ_PORT");
    reveal_strlit("SERVER_METRICS_PORT");
    reveal_strlit("DB_MYSQL_HOST");
    let n = "CONF_DB_MYSQL_PORT"@;
    assert(n.take(5) =~= "CONF_"@);
    assert(n.skip(5) =~= "DB_MYSQL_PORT"@);
    assert("DB_MYSQL_PORT"@.len() != "MODE_DEBUG"@.len());
    assert("DB_MYSQL_PORT"@.len() != "SERVER_EXTERNAL_URL"@.len());
    assert("DB_MYSQL_PORT"@.len() != "SERVER_HTTP_PORT"@.len());
    assert("DB_MYSQL_PORT"@.len() != "SERVER_GRPC_PORT"@.len());
    assert("DB_MYSQL_PORT"@.len() != "SERVER_HEALTHZ_PORT"@.len());
    assert("DB_MYSQL_PORT"@.len() != "SERVER_METRICS_PORT"@.len());
    assert("DB_MYSQL_PORT"@[9] != "DB_MYSQL_HOST"@[9]);
}

proof fn lemma_variable_db_mysql_dating()
    ensures
        env_conf_key("CONF_DB_MYSQL_DATING"@) == Some(ConfKey::DbMysqlDating),
{
    reveal_strlit("CONF_");
    reveal_strlit("CONF_DB_MYSQL_DATING");
    reveal_strlit("DB_MYSQL_DATING");
    reveal_strlit("MODE_DEBUG");
    reveal_strlit("SERVER_EXTERNAL_URL");
    reveal_strlit("SERVER_HTTP_PORT");
    reveal_strlit("SERVER_GRPC_PORT");
    reveal_strlit("SERVER_HEALTHZ_PORT");
    reveal_strlit("SERVER_METRICS_PORT");
    reveal_strlit("DB_MYSQL_HOST");
    reveal_strlit("DB_MYSQL_PORT");
    let n = "CONF_DB_MYSQL_DATING"@;
    assert(n.take(5) =~= "CONF_"@);
    assert(n.skip(5) =~= "DB_MYSQL_DATING"@);
    assert("DB_MYSQL_DATING"@.len() != "MODE_DEBUG"@.len());
    assert("DB_MYSQL_DATING"@.len() != "SERVER_EXTERNAL_URL"@.len());
    assert("DB_MYSQL_DATING"@.len() != "SERVER_HTTP_PORT"@.len());
    assert("DB_MYSQL_DATING"@.len() != "SERVER_GRPC_PORT"@.len());
    assert("DB_MYSQL_DATING"@.len() != "SERVER_HEALTHZ_PORT"@.len());
    assert("DB_MYSQL_DATING"@.len() != "SERVER_METRICS_PORT"@.len());
    assert("DB_MYSQL_DATING"@.len() != "DB_MYSQL_HOST"@.len());
    assert("DB_MYSQL_DATING"@.len() != "DB_MYSQL_PORT"@.len());
}

proof fn lemma_variable_db_mysql_user()
    ensures
        env_conf_key("CONF_DB_MYSQL_USER"@) == Some(ConfKey::DbMysqlUser),
{
    reveal_strlit("CONF_");
    reveal_strlit("CONF_DB_MYSQL_USER");
    reveal_strlit("DB_MYSQL_USER");
    reveal_strlit("MODE_DEBUG");
    reveal_strlit("SERVER_EXTERNAL_URL");
    reveal_strlit("SERVER_HTTP_PORT");
    reveal_strlit("SERVER_GRPC_PORT");
    reveal_strlit("SERVER_HEALTHZ_PORT");
    reveal_strlit("SERVER_METRICS_PORT");
    reveal_strlit("DB_MYSQL_HOST");
    reveal_strlit("DB_MYSQL_PORT");
    reveal_strlit("DB_MYSQL_DATING");
    let n = "CONF_DB_MYSQL_USER"@;
    assert(n.take(5) =~= "CONF_"@);
    assert(n.skip(5) =~= "DB_MYSQL_USER"@);
    assert("DB_MYSQL_USER"@.len() != "MODE_DEBUG"@.len());
    assert("DB_MYSQL_USER"@.len() != "SERVER_EXTERNAL_URL"@.len());
    assert("DB_MYSQL_USER"@.len() != "SERVER_HTTP_PORT"@.len());
    assert("DB_MYSQL_USER"@.len() != "SERVER_GRPC_PORT"@.len());
    assert("DB_MYSQL_USER"@.len() != "SERVER_HEALTHZ_PORT"@.len());
    assert("DB_MYSQL_USER"@.len() != "SERVER_METRICS_PORT"@.len());
    assert("DB_MYSQL_USER"@[9] != "DB_MYSQL_HOST"@[9]);
    assert("DB_MYSQL_USER"@[9] != "DB_MYSQL_PORT"@[9]);
    assert("DB_MYSQL_USER"@.len() != "DB_MYSQL_DATING"@.len());
}

proof fn lemma_variable_db_mysql_pass()
    ensures
        env_conf_key("CONF_DB_MYSQL_PASS"@) == Some(ConfKey::DbMysqlPass),
{
    reveal_strlit("CONF_");
    reveal_strlit("CONF_DB_MYSQL_PASS");
    reveal_strlit("DB_MYSQL_PASS");
    reveal_strlit("MODE_DEBUG");
    reveal_strlit("SERVER_EXTERNAL_URL");
    reveal_strlit("SERVER_HTTP_PORT");
    reveal_strlit("SERVER_GRPC_PORT");
    reveal_strlit("SERVER_HEALTHZ_PORT");
    reveal_strlit("SERVER_METRICS_PORT");
    reveal_strlit("DB_MYSQL_HOST");
    reveal_strlit("DB_MYSQL_PORT");
    reveal_strlit("DB_MYSQL_DATING");
    reveal_strlit("DB_MYSQL_USER");
    let n = "CONF_DB_MYSQL_PASS"@;
    assert(n.take(5) =~= "CONF_"@);
    assert(n.skip(5) =~= "DB_MYSQL_PASS"@);
    assert("DB_MYSQL_PASS"@.len() != "MODE_DEBUG"@.len());
    assert("DB_MYSQL_PASS"@.len() != "SERVER_EXTERNAL_URL"@.len());
    assert("DB_MYSQL_PASS"@.len() != "SERVER_HTTP_PORT"@.len());
    assert("DB_MYSQL_PASS"@.len() != "SERVER_GRPC_PORT"@.len());
    assert("DB_MYSQL_PASS"@.len() != "SERVER_HEALTHZ_PORT"@.len());
    assert("DB_MYSQL_PASS"@.len() != "SERVER_METRICS_PORT"@.len());
    assert("DB_MYSQL_PASS"@[9] != "DB_MYSQL_HOST"@[9]);
    assert("DB_MYSQL_PASS"@[10] != "DB_MYSQL_PORT"@[10]);
    assert("DB_MYSQL_PASS"@.len() != "DB_MYSQL_DATING"@.len());
    assert("DB_MYSQL_PASS"@[9] != "DB_MYSQL_USER"@[9]);
}

proof fn lemma_variable_db_mysql_connections_max_idle()
    ensures
        env_conf_key("CONF_DB_MYSQL_CONNECTIONS_MAX_IDLE"@) == Some(ConfKey::DbMysqlConnectionsMaxIdle),
{
    reveal_strlit("CONF_");
    reveal_strlit("CONF_DB_MYSQL_CONNECTIONS_MAX_IDLE");
    reveal_strlit("DB_MYSQL_CONNECTIONS_MAX_IDLE");
    reveal_strlit("MODE_DEBUG");
    reveal_strlit("SERVER_EXTERNAL_URL");
    reveal_strlit("SERVER_HTTP_PORT");
    reveal_strlit("SERVER_GRPC_PORT");
    reveal_strlit("SERVER_HEALTHZ_PORT");
    reveal_strlit("SERVER_METRICS_PORT");
    reveal_strlit("DB_MYSQL_HOST");
    reveal_strlit("DB_MYSQL_PORT");
    reveal_strlit("DB_MYSQL_DATING");
    reveal_strlit("DB_MYSQL_USER");
    reveal_strlit("DB_MYSQL_PASS");
    let n = "CONF_DB_MYSQL_CONNECTIONS_MAX_IDLE"@;
    assert(n.take(5) =~= "CONF_"@);
    assert(n.skip(5) =~= "DB_MYSQL_CONNECTIONS_MAX_IDLE"@);
    assert("DB_MYSQL_CONNECTIONS_MAX_IDLE"@.len() != "MODE_DEBUG"@.len());
    assert("DB_MYSQL_CONNECTIONS_MAX_IDLE"@.len() != "SERVER_EXTERNAL_URL"@.len());
    assert("DB_MYSQL_CONNECTIONS_MAX_IDLE"@.len() != "SERVER_HTTP_PORT"@.len());
    assert("DB_MYSQL_CONNECTIONS_MAX_IDLE"@.len() != "SERVER_GRPC_PORT"@.len());
    assert("DB_MYSQL_CONNECTIONS_MAX_IDLE"@.len() != "SERVER_HEALTHZ_PORT"@.len());
    assert("DB_MYSQL_CONNECTIONS_MAX_IDLE"@.len() != "SERVER_METRICS_PORT"@.len());
    assert("DB_MYSQL_CONNECTIONS_MAX_IDLE"@.len() != "DB_MYSQL_HOST"@.len());
    assert("DB_MYSQL_CONNECTIONS_MAX_IDLE"@.len() != "DB_MYSQL_PORT"@.len());
    assert("DB_MYSQL_CONNECTIONS_MAX_IDLE"@.len() != "DB_MYSQL_DATING"@.len());
    assert("DB_MYSQL_CONNECTIONS_MAX_IDLE"@.len() != "DB_MYSQL_USER"@.len());
    assert("DB_MYSQL_CONNECTIONS_MAX_IDLE"@.len() != "DB_MYSQL_PASS"@.len());
}

proof fn lemma_variable_db_mysql_connections_max_open()
    ensures
        env_conf_key("CONF_DB_MYSQL_CONNECTIONS_MAX_OPEN"@) == Some(ConfKey::DbMysqlConnectionsMaxOpen),
{
    reveal_strlit("CONF_");
    reveal_strlit("CONF_DB_MYSQL_CONNECTIONS_MAX_OPEN");
    reveal_strlit("DB_MYSQL_CONNECTIONS_MAX_OPEN");
    reveal_strlit("MODE_DEBUG");
    reveal_strlit("SERVER_EXTERNAL_URL");
    reveal_strlit("SERVER_HTTP_PORT");
    reveal_strlit("SERVER_GRPC_PORT");
    reveal_strlit("SERVER_HEALTHZ_PORT");
    reveal_strlit("SERVER_METRICS_PORT");
    reveal_strlit("DB_MYSQL_HOST");
    reveal_strlit("DB_MYSQL_PORT");
    reveal_strlit("DB_MYSQL_DATING");
    reveal_strlit("DB_MYSQL_USER");
    reveal_strlit("DB_MYSQL_PASS");
    reveal_strlit("DB_MYSQL_CONNECTIONS_MAX_IDLE");
    let n = "CONF_DB_MYSQL_CONNECTIONS_MAX_OPEN"@;
    assert(n.take(5) =~= "CONF_"@);
    assert(n.skip(5) =~= "DB_MYSQL_CONNECTIONS_MAX_OPEN"@);
    assert("DB_MYSQL_CONNECTIONS_MAX_OPEN"@.len() != "MODE_DEBUG"@.len());
    assert("DB_MYSQL_CONNECTIONS_MAX_OPEN"@.len() != "SERVER_EXTERNAL_URL"@.len());
    assert("DB_MYSQL_CONNECTIONS_MAX_OPEN"@.len() != "SERVER_HTTP_PORT"@.len());
    assert("DB_MYSQL_CONNECTIONS_MAX_OPEN"@.len() != "SERVER_GRPC_PORT"@.len());
    assert("DB_MYSQL_CONNECTIONS_MAX_OPEN"@.len() != "SERVER_HEALTHZ_PORT"@.len());
    assert("DB_MYSQL_CONNECTIONS_MAX_OPEN"@.len() != "SERVER_METRICS_PORT"@.len());
    assert("DB_MYSQL_CONNECTIONS_MAX_OPEN"@.len() != "DB_MYSQL_HOST"@.len());
    assert("DB_MYSQL_CONNECTIONS_MAX_OPEN"@.len() != "DB_MYSQL_PORT"@.len());
    assert("DB_MYSQL_CONNECTIONS_MAX_OPEN"@.len() != "DB_MYSQL_DATING"@.len());
    assert("DB_MYSQL_CONNECTIONS_MAX_OPEN"@.len() != "DB_MYSQL_USER"@.len());
    assert("DB_MYSQL_CONNECTIONS_MAX_OPEN"@.len() != "DB_MYSQL_PASS"@.len());
    assert("DB_MYSQL_CONNECTIONS_MAX_OPEN"@[25] != "DB_MYSQL_CONNECTIONS_MAX_IDLE"@[25]);
}

proof fn lemma_variable_log_app_level()
    ensures
        env_conf_key("CONF_LOG_APP_LEVEL"@) == Some(ConfKey::LogAppLevel),
{
    reveal_strlit("CONF_");
    reveal_strlit("CONF_LOG_APP_LEVEL");
    reveal_strlit("LOG_APP_LEVEL");
    reveal_strlit("MODE_DEBUG");
    reveal_strlit("SERVER_EXTERNAL_URL");
    reveal_strlit("SERVER_HTTP_PORT");
    reveal_strlit("SERVER_GRPC_PORT");
    reveal_strlit("SERVER_HEALTHZ_PORT");
    reveal_strlit("SERVER_METRICS_PORT");
    reveal_strlit("DB_MYSQL_HOST");
    reveal_strlit("DB_MYSQL_PORT");
    reveal_strlit("DB_MYSQL_DATING");
    reveal_strlit("DB_MYSQL_USER");
    reveal_strlit("DB_MYSQL_PASS");
    reveal_strlit("DB_MYSQL_CONNECTIONS_MAX_IDLE");
    reveal_strlit("DB_MYSQL_CONNECTIONS_MAX_OPEN");
    let n = "CONF_LOG_APP_LEVEL"@;
    assert(n.take(5) =~= "CONF_"@);
    assert(n.skip(5) =~= "LOG_APP_LEVEL"@);
    assert("LOG_APP_LEVEL"@.len() != "MODE_DEBUG"@.len());
    assert("LOG_APP_LEVEL"@.len() != "SERVER_EXTERNAL_URL"@.len());
    assert("LOG_APP_LEVEL"@.len() != "SERVER_HTTP_PORT"@.len());
    assert("LOG_APP_LEVEL"@.len() != "SERVER_GRPC_PORT"@.len());
    assert("LOG_APP_LEVEL"@.len() != "SERVER_HEALTHZ_PORT"@.len());
    assert("LOG_APP_LEVEL"@.len() != "SERVER_METRICS_PORT"@.len());
    assert("LOG_APP_LEVEL"@[0] != "DB_MYSQL_HOST"@[0]);
    assert("LOG_APP_LEVEL"@[0] != "DB_MYSQL_PORT"@[0]);
    assert("LOG_APP_LEVEL"@.len() != "DB_MYSQL_DATING"@.len());
    assert("LOG_APP_LEVEL"@[0] != "DB_MYSQL_USER"@[0]);
    assert("LOG_APP_LEVEL"@[0] != "DB_MYSQL_PASS"@[0]);
    assert("LOG_APP_LEVEL"@.len() != "DB_MYSQL_CONNECTIONS_MAX_IDLE"@.len());
    assert("LOG_APP_LEVEL"@.len() != "DB_MYSQL_CONNECTIONS_MAX_OPEN"@.len());
}

proof fn lemma_variable_background_watchdog_period()
    ensures
        env_conf_key("CONF_BACKGROUND_WATCHDOG_PERIOD"@) == Some(ConfKey::BackgroundWatchdogPeriod),
{
    reveal_strlit("CONF_");
    reveal_strlit("CONF_BACKGROUND_WATCHDOG_PERIOD");
    reveal_strlit("BACKGROUND_WATCHDOG_PERIOD");
    reveal_strlit("MODE_DEBUG");
    reveal_strlit("SERVER_EXTERNAL_URL");
    reveal_strlit("SERVER_HTTP_PORT");
    reveal_strlit("SERVER_GRPC_PORT");
    reveal_strlit("SERVER_HEALTHZ_PORT");
    reveal_strlit("SERVER_METRICS_PORT");
    reveal_strlit("DB_MYSQL_HOST");
    reveal_strlit("DB_MYSQL_PORT");
    reveal_strlit("DB_MYSQL_DATING");
    reveal_strlit("DB_MYSQL_USER");
    reveal_strlit("DB_MYSQL_PASS");
    reveal_strlit("DB_MYSQL_CONNECTIONS_MAX_IDLE");
    reveal_strlit("DB_MYSQL_CONNECTIONS_MAX_OPEN");
    reveal_strlit("LOG_APP_LEVEL");
    let n = "CONF_BACKGROUND_WATCHDOG_PERIOD"@;
    assert(n.take(5) =~= "CONF_"@);
    assert(n.skip(5) =~= "BACKGROUND_WATCHDOG_PERIOD"@);
    assert("BACKGROUND_WATCHDOG_PERIOD"@.len() != "MODE_DEBUG"@.len());
    assert("BACKGROUND_WATCHDOG_PERIOD"@.len() != "SERVER_EXTERNAL_URL"@.len());
    assert("BACKGROUND_WATCHDOG_PERIOD"@.len() != "SERVER_HTTP_PORT"@.len());
    assert("BACKGROUND_WATCHDOG_PERIOD"@.len() != "SERVER_GRPC_PORT"@.len());
    assert("BACKGROUND_WATCHDOG_PERIOD"@.len() != "SERVER_HEALTHZ_PORT"@.len());
    assert("BACKGROUND_WATCHDOG_PERIOD"@.len() != "SERVER_METRICS_PORT"@.len());
    assert("BACKGROUND_WATCHDOG_PERIOD"@.len() != "DB_MYSQL_HOST"@.len());
    assert("BACKGROUND_WATCHDOG_PERIOD"@.len() != "DB_MYSQL_PORT"@.len());
    assert("BACKGROUND_WATCHDOG_PERIOD"@.len() != "DB_MYSQL_DATING"@.len());
    assert("BACKGROUND_WATCHDOG_PERIOD"@.len() != "DB_MYSQL_USER"@.len());
    assert("BACKGROUND_WATCHDOG_PERIOD"@.len() != "DB_MYSQL_PASS"@.len());
    assert("BACKGROUND_WATCHDOG_PERIOD"@.len() != "DB_MYSQL_CONNECTIONS_MAX_IDLE"@.len());
    assert("BACKGROUND_WATCHDOG_PERIOD"@.len() != "DB_MYSQL_CONNECTIONS_MAX_OPEN"@.len());
    assert("BACKGROUND_WATCHDOG_PERIOD"@.len() != "LOG_APP_LEVEL"@.len());
}

proof fn lemma_variable_background_watchdog_limit()
    ensures
        env_conf_key("CONF_BACKGROUND_WATCHDOG_LIMIT"@) == Some(ConfKey::BackgroundWatchdogLimit),
{
    reveal_strlit("CONF_");
    reveal_strlit("CONF_BACKGROUND_WATCHDOG_LIMIT");
    reveal_strlit("BACKGROUND_WATCHDOG_LIMIT");
    reveal_strlit("MODE_DEBUG");
    reveal_strlit("SERVER_EXTERNAL_URL");
    reveal_strlit("SERVER_HTTP_PORT");
    reveal_strlit("SERVER_GRPC_PORT");
    reveal_strlit("SERVER_HEALTHZ_PORT");
    reveal_strlit("SERVER_METRICS_PORT");
    reveal_strlit("DB_MYSQL_HOST");
    reveal_strlit("DB_MYSQL_PORT");
    reveal_strlit("DB_MYSQL_DATING");
    reveal_strlit("DB_MYSQL_USER");
    reveal_strlit("DB_MYSQL_PASS");
    reveal_strlit("DB_MYSQL_CONNECTIONS_MAX_IDLE");
    reveal_strlit("DB_MYSQL_CONNECTIONS_MAX_OPEN");
    reveal_strlit("LOG_APP_LEVEL");
    reveal_strlit("BACKGROUND_WATCHDOG_PERIOD");
    let n = "CONF_BACKGROUND_WATCHDOG_LIMIT"@;
    assert(n.take(5) =~= "CONF_"@);
    assert(n.skip(5) =~= "BACKGROUND_WATCHDOG_LIMIT"@);
    assert("BACKGROUND_WATCHDOG_LIMIT"@.len() != "MODE_DEBUG"@.len());
    assert("BACKGROUND_WATCHDOG_LIMIT"@.len() != "SERVER_EXTERNAL_URL"@.len());
    assert("BACKGROUND_WATCHDOG_LIMIT"@.len() != "SERVER_HTTP_PORT"@.len());
    assert("BACKGROUND_WATCHDOG_LIMIT"@.len() != "SERVER_GRPC_PORT"@.len());
    assert("BACKGROUND_WATCHDOG_LIMIT"@.len() != "SERVER_HEALTHZ_PORT"@.len());
    assert("BACKGROUND_WATCHDOG_LIMIT"@.len() != "SERVER_METRICS_PORT"@.len());
    assert("BACKGROUND_WATCHDOG_LIMIT"@.len() != "DB_MYSQL_HOST"@.len());
    assert("BACKGROUND_WATCHDOG_LIMIT"@.len() != "DB_MYSQL_PORT"@.len());
    assert("BACKGROUND_WATCHDOG_LIMIT"@.len() != "DB_MYSQL_DATING"@.len());
    assert("BACKGROUND_WATCHDOG_LIMIT"@.len() != "DB_MYSQL_USER"@.len());
    assert("BACKGROUND_WATCHDOG_LIMIT"@.len() != "DB_MYSQL_PASS"@.len());
    assert("BACKGROUND_WATCHDOG_LIMIT"@.len() != "DB_MYSQL_CONNECTIONS_MAX_IDLE"@.len());
    assert("BACKGROUND_WATCHDOG_LIMIT"@.len() != "DB_MYSQL_CONNECTIONS_MAX_OPEN"@.len());
    assert("BACKGROUND_WATCHDOG_LIMIT"@.len() != "LOG_APP_LEVEL"@.len());
    assert("BACKGROUND_WATCHDOG_LIMIT"@.len() != "BACKGROUND_WATCHDOG_PERIOD"@.len());
}

proof fn lemma_variable_background_watchdog_lock_timeout()
    ensures
        env_conf_key("CONF_BACKGROUND_WATCHDOG_LOCK_TIMEOUT"@) == Some(ConfKey::BackgroundWatchdogLockTimeout),
{
    reveal_strlit("CONF_");
    reveal_strlit("CONF_BACKGROUND_WATCHDOG_LOCK_TIMEOUT");
    reveal_strlit("BACKGROUND_WATCHDOG_LOCK_TIMEOUT");
    reveal_strlit("MODE_DEBUG");
    reveal_strlit("SERVER_EXTERNAL_URL");
    reveal_strlit("SERVER_HTTP_PORT");
    reveal_strlit("SERVER_GRPC_PORT");
    reveal_strlit("SERVER_HEALTHZ_PORT");
    reveal_strlit("SERVER_METRICS_PORT");
    reveal_strlit("DB_MYSQL_HOST");
    reveal_strlit("DB_MYSQL_PORT");
    reveal_strlit("DB_MYSQL_DATING");
    reveal_strlit("DB_MYSQL_USER");
    reveal_strlit("DB_MYSQL_PASS");
    reveal_strlit("DB_MYSQL_CONNECTIONS_MAX_IDLE");
    reveal_strlit("DB_MYSQL_CONNECTIONS_MAX_OPEN");
    reveal_strlit("LOG_APP_LEVEL");
    reveal_strlit("BACKGROUND_WATCHDOG_PERIOD");
    reveal_strlit("BACKGROUND_WATCHDOG_LIMIT");
    let n = "CONF_BACKGROUND_WATCHDOG_LOCK_TIMEOUT"@;
    assert(n.take(5) =~= "CONF_"@);
    assert(n.skip(5) =~= "BACKGROUND_WATCHDOG_LOCK_TIMEOUT"@);
    assert("BACKGROUND_WATCHDOG_LOCK_TIMEOUT"@.len() != "MODE_DEBUG"@.len());
    assert("BACKGROUND_WATCHDOG_LOCK_TIMEOUT"@.len() != "SERVER_EXTERNAL_URL"@.len());
    assert("BACKGROUND_WATCHDOG_LOCK_TIMEOUT"@.len() != "SERVER_HTTP_PORT"@.len());
    assert("BACKGROUND_WATCHDOG_LOCK_TIMEOUT"@.len() != "SERVER_GRPC_PORT"@.len());
    assert("BACKGROUND_WATCHDOG_LOCK_TIMEOUT"@.len() != "SERVER_HEALTHZ_PORT"@.len());
    assert("BACKGROUND_WATCHDOG_LOCK_TIMEOUT"@.len() != "SERVER_METRICS_PORT"@.len());
    assert("BACKGROUND_WATCHDOG_LOCK_TIMEOUT"@.len() != "DB_MYSQL_HOST"@.len());
    assert("BACKGROUND_WATCHDOG_LOCK_TIMEOUT"@.len() != "DB_MYSQL_PORT"@.len());
    assert("BACKGROUND_WATCHDOG_LOCK_TIMEOUT"@.len() != "DB_MYSQL_DATING"@.len());
    assert("BACKGROUND_WATCHDOG_LOCK_TIMEOUT"@.len() != "DB_MYSQL_USER"@.len());
    assert("BACKGROUND_WATCHDOG_LOCK_TIMEOUT"@.len() != "DB_MYSQL_PASS"@.len());
    assert("BACKGROUND_WATCHDOG_LOCK_TIMEOUT"@.len() != "DB_MYSQL_CONNECTIONS_MAX_IDLE"@.len());
    assert("BACKGROUND_WATCHDOG_LOCK_TIMEOUT"@.len() != "DB_MYSQL_CONNECTIONS_MAX_OPEN"@.len());
    assert("BACKGROUND_WATCHDOG_LOCK_TIMEOUT"@.len() != "LOG_APP_LEVEL"@.len());
    assert("BACKGROUND_WATCHDOG_LOCK_TIMEOUT"@.len() != "BACKGROUND_WATCHDOG_PERIOD"@.len());
    assert("BACKGROUND_WATCHDOG_LOCK_TIMEOUT"@.len() != "BACKGROUND_WATCHDOG_LIMIT"@.len());
}

proof fn lemma_single_override(c: ConfigView, name: String, value: String)
    ensures
        apply_overrides(c, seq![(name, value)]) == match env_conf_key(name@) {
            None => Ok(c),
            Some(k) => apply_override(c, k, value@),
        },
{
    let vars = seq![(name, value)];
    assert(vars[0] == (name, value));
    assert(vars.drop_first() =~= Seq::<(String, String)>::empty());
    match env_conf_key(name@) {
        None => {
            assert(apply_overrides(c, vars.drop_first()) == Ok::<ConfigView, ConfigErrorView>(c));
        },
        Some(k) => match apply_override(c, k, value@) {
            Ok(c2) => {
                assert(apply_overrides(c2, vars.drop_first()) == Ok::<ConfigView, ConfigErrorView>(
                    c2,
                ));
            },
            Err(_) => {},
        },
    }
}

/// Each environment variable `CONF_<NAME>` overrides exactly the setting that `<NAME>`
/// names: alone, it gives that setting its value (read as a boolean or a number where the
/// setting is one) and leaves every other setting as it was.
pub proof fn lemma_each_variable_sets_its_setting(c: ConfigView, name: String, value: String)
    ensures
        name@ == "CONF_MODE_DEBUG"@ && spec_parse_bool(value@) is Some ==> apply_overrides(
            c,
            seq![(name, value)],
        ) == Ok::<ConfigView, ConfigErrorView>(
            ConfigView { debug: spec_parse_bool(value@)->0, ..c },
        ),
        name@ == "CONF_SERVER_EXTERNAL_URL"@ ==> apply_overrides(c, seq![(name, value)]) == Ok::<ConfigView, ConfigErrorView>(
            ConfigView { external_url: value@, ..c },
        ),
        name@ == "CONF_SERVER_HTTP_PORT"@ && parse_unsigned(value@, 0xffff) is Ok ==> apply_overrides(
            c,
            seq![(name, value)],
        ) == Ok::<ConfigView, ConfigErrorView>(
            ConfigView { http_port: parse_unsigned(value@, 0xffff)->Ok_0 as u16, ..c },
        ),
        name@ == "CONF_SERVER_GRPC_PORT"@ && parse_unsigned(value@, 0xffff) is Ok ==> apply_overrides(
            c,
            seq![(name, value)],
        ) == Ok::<ConfigView, ConfigErrorView>(
            ConfigView { grpc_port: parse_unsigned(value@, 0xffff)->Ok_0 as u16, ..c },
        ),
        name@ == "CONF_SERVER_HEALTHZ_PORT"@ && parse_unsigned(value@, 0xffff) is Ok ==> apply_overrides(
            c,
            seq![(name, value)],
        ) == Ok::<ConfigView, ConfigErrorView>(
            ConfigView { healthz_port: parse_unsigned(value@, 0xffff)->Ok_0 as u16, ..c },
        ),
        name@ == "CONF_SERVER_METRICS_PORT"@ && parse_unsigned(value@, 0xffff) is Ok ==> apply_overrides(
            c,
            seq![(name, value)],
        ) == Ok::<ConfigView, ConfigErrorView>(
            ConfigView { metrics_port: parse_unsigned(value@, 0xffff)->Ok_0 as u16, ..c },
        ),
        name@ == "CONF_DB_MYSQL_HOST"@ ==> apply_overrides(c, seq![(name, value)]) == Ok::<ConfigView, ConfigErrorView>(
            ConfigView { mysql_host: value@, ..c },
        ),
        name@ == "CONF_DB_MYSQL_PORT"@ && parse_unsigned(value@, 0xffff) is Ok ==> apply_overrides(
            c,
            seq![(name, value)],
        ) == Ok::<ConfigView, ConfigErrorView>(
            ConfigView { mysql_port: parse_unsigned(value@, 0xffff)->Ok_0 as u16, ..c },
        ),
        name@ == "CONF_DB_MYSQL_DATING"@ ==> apply_overrides(c, seq![(name, value)]) == Ok::<ConfigView, ConfigErrorView>(
            ConfigView { mysql_dating: value@, ..c },
        ),
        name@ == "CONF_DB_MYSQL_USER"@ ==> apply_overrides(c, seq![(name, value)]) == Ok::<ConfigView, ConfigErrorView>(
            ConfigView { mysql_user: value@, ..c },
        ),
        name@ == "CONF_DB_MYSQL_PASS"@ ==> apply_overrides(c, seq![(name, value)]) == Ok::<ConfigView, ConfigErrorView>(
            ConfigView { mysql_pass: value@, ..c },
        ),
        name@ == "CONF_DB_MYSQL_CONNECTIONS_MAX_IDLE"@ && parse_unsigned(value@, 0xffff_ffff) is Ok ==> apply_overrides(
            c,
            seq![(name, value)],
        ) == Ok::<ConfigView, ConfigErrorView>(
            ConfigView { max_idle: parse_unsigned(value@, 0xffff_ffff)->Ok_0 as u32, ..c },
        ),
        name@ == "CONF_DB_MYSQL_CONNECTIONS_MAX_OPEN"@ && parse_unsigned(value@, 0xffff_ffff) is Ok ==> apply_overrides(
            c,
            seq![(name, value)],
        ) == Ok::<ConfigView, ConfigErrorView>(
            ConfigView { max_open: parse_unsigned(value@, 0xffff_ffff)->Ok_0 as u32, ..c },
        ),
        name@ == "CONF_LOG_APP_LEVEL"@ ==> apply_overrides(c, seq![(name, value)]) == Ok::<ConfigView, ConfigErrorView>(
            ConfigView { log_level: value@, ..c },
        ),
        name@ == "CONF_BACKGROUND_WATCHDOG_PERIOD"@ ==> apply_overrides(c, seq![(name, value)]) == Ok::<ConfigView, ConfigErrorView>(
            ConfigView { watchdog_period: value@, ..c },
        ),
        name@ == "CONF_BACKGROUND_WATCHDOG_LIMIT"@ && parse_unsigned(value@, 0xffff_ffff) is Ok ==> apply_overrides(
            c,
            seq![(name, value)],
        ) == Ok::<ConfigView, ConfigErrorView>(
            ConfigView { watchdog_limit: parse_unsigned(value@, 0xffff_ffff)->Ok_0 as u32, ..c },
        ),
        name@ == "CONF_BACKGROUND_WATCHDOG_LOCK_TIMEOUT"@ ==> apply_overrides(c, seq![(name, value)]) == Ok::<ConfigView, ConfigErrorView>(
            ConfigView { watchdog_lock_timeout: value@, ..c },
        ),
{
    lemma_variable_mode_debug();
    lemma_variable_server_external_url();
    lemma_variable_server_http_port();
    lemma_variable_server_grpc_port();
    lemma_variable_server_healthz_port();
    lemma_variable_server_metrics_port();
    lemma_variable_db_mysql_host();
    lemma_variable_db_mysql_port();
    lemma_variable_db_mysql_dating();
    lemma_variable_db_mysql_user();
    lemma_variable_db_mysql_pass();
    lemma_variable_db_mysql_connections_max_idle();
    lemma_variable_db_mysql_connections_max_open();
    lemma_variable_log_app_level();
    lemma_variable_background_watchdog_period();
    lemma_variable_background_watchdog_limit();
    lemma_variable_background_watchdog_lock_timeout();
    lemma_single_override(c, name, value);
}

/// The setting that an environment variable overrides, if any.
pub fn conf_key(var_name: &str) -> (r: Option<ConfKey>)
    ensures
        r == env_conf_key(var_name@),
{
    let v = str_to_chars(var_name);
    let p = str_to_chars("CONF_");
    if !starts_with(&v, &p) {
        return None;
    }
    let n = skip_chars(&v, p.len());
    if chars_eq_str(&n, "MODE_DEBUG") {
        Some(ConfKey::ModeDebug)
    } else if chars_eq_str(&n, "SERVER_EXTERNAL_URL") {
        Some(ConfKey::ServerExternalUrl)
    } else if chars_eq_str(&n, "SERVER_HTTP_PORT") {
        Some(ConfKey::ServerHttpPort)
    } else if chars_eq_str(&n, "SERVER_GRPC_PORT") {
        Some(ConfKey::ServerGrpcPort)
    } else if chars_eq_str(&n, "SERVER_HEALTHZ_PORT") {
        Some(ConfKey::ServerHealthzPort)
    } else if chars_eq_str(&n, "SERVER_METRICS_PORT") {
        Some(ConfKey::ServerMetricsPort)
    } else if chars_eq_str(&n, "DB_MYSQL_HOST") {
        Some(ConfKey::DbMysqlHost)
    } else if chars_eq_str(&n, "DB_MYSQL_PORT") {
        Some(ConfKey::DbMysqlPort)
    } else if chars_eq_str(&n, "DB_MYSQL_DATING") {
        Some(ConfKey::DbMysqlDating)
    } else if chars_eq_str(&n, "DB_MYSQL_USER") {
        Some(ConfKey::DbMysqlUser)
    } else if chars_eq_str(&n, "DB_MYSQL_PASS") {
        Some(ConfKey::DbMysqlPass)
    } else if chars_eq_str(&n, "DB_MYSQL_CONNECTIONS_MAX_IDLE") {
        Some(ConfKey::DbMysqlConnectionsMaxIdle)
    } else if chars_eq_str(&n, "DB_MYSQL_CONNECTIONS_MAX_OPEN") {
        Some(ConfKey::DbMysqlConnectionsMaxOpen)
    } else if chars_eq_str(&n, "LOG_APP_LEVEL") {
        Some(ConfKey::LogAppLevel)
    } else if chars_eq_str(&n, "BACKGROUND_WATCHDOG_PERIOD") {
        Some(ConfKey::BackgroundWatchdogPeriod)
    } else if chars_eq_str(&n, "BACKGROUND_WATCHDOG_LIMIT") {
        Some(ConfKey::BackgroundWatchdogLimit)
    } else if chars_eq_str(&n, "BACKGROUND_WATCHDOG_LOCK_TIMEOUT") {
        Some(ConfKey::BackgroundWatchdogLockTimeout)
    } else {
        None
    }
}

fn read_u16(value: &String) -> (r: Result<u16, ConfigError>)
    ensures
        match parse_unsigned(value@, 0xffff) {
            Ok(n) => r == Ok::<u16, ConfigError>(n as u16),
            Err(e) => r is Err && r->Err_0@ == ConfigErrorView::InvalidNumber(e),
        },
{
    match parse_u16(&str_to_chars(value.as_str())) {
        Ok(n) => Ok(n),
        Err(e) => Err(ConfigError::InvalidNumber(e)),
    }
}

fn read_u32(value: &String) -> (r: Result<u32, ConfigError>)
    ensures
        match parse_unsigned(value@, 0xffff_ffff) {
            Ok(n) => r == Ok::<u32, ConfigError>(n as u32),
            Err(e) => r is Err && r->Err_0@ == ConfigErrorView::InvalidNumber(e),
        },
{
    match parse_u32(&str_to_chars(value.as_str())) {
        Ok(n) => Ok(n),
        Err(e) => Err(ConfigError::InvalidNumber(e)),
    }
}

/// Overrides one setting with the text `value`.
pub fn apply_one(cfg: &mut Config, k: ConfKey, value: &String) -> (r: Result<(), ConfigError>)
    ensures
        match apply_override(old(cfg)@, k, value@) {
            Ok(c) => r is Ok && final(cfg)@ == c,
            Err(e) => r is Err && r->Err_0@ == e && final(cfg)@ == old(cfg)@,
        },
{
    match k {
        ConfKey::ModeDebug => {
            cfg.mode.debug = parse_bool(value.as_str())?;
        },
        ConfKey::ServerExternalUrl => {
            cfg.server.external_url = value.clone();
        },
        ConfKey::ServerHttpPort => {
            cfg.server.http_port = read_u16(value)?;
        },
        ConfKey::ServerGrpcPort => {
            cfg.server.grpc_port = read_u16(value)?;
        },
        ConfKey::ServerHealthzPort => {
            cfg.server.healthz_port = read_u16(value)?;
        },
        ConfKey::ServerMetricsPort => {
            cfg.server.metrics_port = read_u16(value)?;
        },
        ConfKey::DbMysqlHost => {
            cfg.db.mysql.host = value.clone();
        },
        ConfKey::DbMysqlPort => {
            cfg.db.mysql.port = read_u16(value)?;
        },
        ConfKey::DbMysqlDating => {
            cfg.db.mysql.dating = value.clone();
        },
        ConfKey::DbMysqlUser => {
            cfg.db.mysql.user = value.clone();
        },
        ConfKey::DbMysqlPass => {
            cfg.db.mysql.pass = value.clone();
        },
        ConfKey::DbMysqlConnectionsMaxIdle => {
            cfg.db.mysql.connections.max_idle = read_u32(value)?;
        },
        ConfKey::DbMysqlConnectionsMaxOpen => {
            cfg.db.mysql.connections.max_open = read_u32(value)?;
        },
        ConfKey::LogAppLevel => {
            cfg.log.app.level = value.clone();
        },
        ConfKey::BackgroundWatchdogPeriod => {
            cfg.background.watchdog.period = value.clone();
        },
        ConfKey::BackgroundWatchdogLimit => {
            cfg.background.watchdog.limit = read_u32(value)?;
        },
        ConfKey::BackgroundWatchdogLockTimeout => {
            cfg.background.watchdog.lock_timeout = value.clone();
        },
    }
    Ok(())
}

/// Lets the environment variables `vars` (name and value, in the order the environment
/// lists them) override the configuration. A variable overrides a setting when its name is
/// `CONF_` followed by the setting's name; other variables are ignored. The first value that
/// a numeric or boolean setting cannot take ends the pass with an error.
pub fn apply_env_overrides(cfg: &mut Config, vars: &Vec<(String, String)>) -> (r: Result<
    (),
    ConfigError,
>)
    ensures
        match apply_overrides(old(cfg)@, vars@) {
            Ok(c) => r is Ok && final(cfg)@ == c,
            Err(e) => r is Err && r->Err_0@ == e,
        },
        final(cfg)@ == overrides_reached(old(cfg)@, vars@),
{
    let mut i: usize = 0;
    assert(vars@.skip(0) == vars@);
    while i < vars.len()
        invariant
            i <= vars.len(),
            apply_overrides(old(cfg)@, vars@) == apply_overrides(cfg@, vars@.skip(i as int)),
            overrides_reached(old(cfg)@, vars@) == overrides_reached(cfg@, vars@.skip(i as int)),
        decreases vars.len() - i,
    {
        let ghost before = cfg@;
        assert(vars@.skip(i as int).drop_first() == vars@.skip(i + 1));
        assert(vars@.skip(i as int)[0] == vars@[i as int]);
        match conf_key(vars[i].0.as_str()) {
            None => {},
            Some(k) => {
                apply_one(cfg, k, &vars[i].1)?;
            },
        }
        i = i + 1;
    }
    assert(vars@.skip(i as int).len() == 0);
    Ok(())
}

/// The configuration in force: the one read from the file, or the defaults where there is
/// none, then the environment's overrides, then the command line's debug switch.
pub fn resolve_config(
    from_file: Option<Config>,
    vars: &Vec<(String, String)>,
    cli_debug: bool,
) -> (r: Result<Config, ConfigError>)
    ensures
        ({
            let base = match from_file {
                Some(c) => c@,
                None => default_config(),
            };
            match apply_overrides(base, vars@) {
                Ok(c) => r is Ok && r->Ok_0@ == (if cli_debug {
                    ConfigView { debug: true, ..c }
                } else {
                    c
                }),
                Err(e) => r is Err && r->Err_0@ == e,
            }
        }),
{
    let mut cfg = match from_file {
        Some(c) => c,
        None => Config::default(),
    };
    apply_env_overrides(&mut cfg, vars)?;
    if cli_debug {
        cfg.mode.debug = true;
    }
    Ok(cfg)
}

} // verus!
