//! Settings of the collector, loaded once before the pipeline starts.
use vstd::prelude::*;

verus! {

/// All settings.
pub struct Config {
    pub database: DatabaseConfig,
    pub twitch_api: TwitchApi,
    /// Names of the channels to collect, in onboarding order.
    pub channels: Vec<String>,
    pub log_level: LogLevelFilter,
    pub database_op_retry_limit: u8,
}

/// Where the relational store lives.
pub struct DatabaseConfig {
    pub url: String,
    pub username: String,
    pub password: String,
    pub db: String,
}

/// Credentials of the platform's REST API.
pub struct TwitchApi {
    pub client_id: String,
    pub client_secret: String,
}

/// How much is logged.
#[derive(Debug, Clone, Copy, PartialEq, Eq, Structural)]
pub enum LogLevelFilter {
    /// A level lower than all log levels.
    Off,
    /// Corresponds to the `Error` log level.
    Error,
    /// Corresponds to the `Warn` log level.
    Warn,
    /// Corresponds to the `Info` log level.
    Info,
    /// Corresponds to the `Debug` log level.
    Debug,
    /// Corresponds to the `Trace` log level.
    Trace,
}

impl LogLevelFilter {
    /// The default level: `Info`.
    pub fn const_default() -> (r: LogLevelFilter)
        ensures
            r == LogLevelFilter::Info,
    {
        LogLevelFilter::Info
    }
}

impl Default for LogLevelFilter {
    fn default() -> (r: LogLevelFilter)
        ensures
            r == LogLevelFilter::Info,
    {
        LogLevelFilter::const_default()
    }
}

impl DatabaseConfig {
    /// Empty location and credentials.
    pub fn const_default() -> (r: DatabaseConfig)
        ensures
            r.url@.len() == 0,
            r.username@.len() == 0,
            r.password@.len() == 0,
            r.db@.len() == 0,
    {
        DatabaseConfig {
            url: String::new(),
            username: String::new(),
            password: String::new(),
            db: String::new(),
        }
    }
}

impl Default for DatabaseConfig {
    fn default() -> (r: DatabaseConfig)
        ensures
            r.url@.len() == 0,
            r.username@.len() == 0,
            r.password@.len() == 0,
            r.db@.len() == 0,
    {
        DatabaseConfig::const_default()
    }
}

impl Default for TwitchApi {
    fn default() -> (r: TwitchApi)
        ensures
            r.client_id@.len() == 0,
            r.client_secret@.len() == 0,
    {
        TwitchApi { client_id: String::new(), client_secret: String::new() }
    }
}

impl Config {
    /// Whether this is the configuration used when nothing is configured.
    pub open spec fn is_default(&self) -> bool {
        &&& self.database.url@.len() == 0
        &&& self.database.username@.len() == 0
        &&& self.database.password@.len() == 0
        &&& self.database.db@.len() == 0
        &&& self.twitch_api.client_id@.len() == 0
        &&& self.twitch_api.client_secret@.len() == 0
        &&& self.channels@.len() == 0
        &&& self.log_level == LogLevelFilter::Info
        &&& self.database_op_retry_limit == 3
    }

    /// The configuration used when nothing is configured: empty strings, no
    /// channels, `Info` logging and 3 retries.
    pub fn const_default() -> (r: Config)
        ensures
            r.is_default(),
    {
        Config {
            database: DatabaseConfig::const_default(),
            twitch_api: TwitchApi { client_id: String::new(), client_secret: String::new() },
            channels: Vec::new(),
            log_level: LogLevelFilter::const_default(),
            database_op_retry_limit: 3,
        }
    }
}

impl Default for Config {
    fn default() -> (r: Config)
        ensures
            r.is_default(),
    {
        Config::const_default()
    }
}

/// The connection URL of the store.
pub open spec fn db_url(c: DatabaseConfig) -> Seq<char> {
    "postgres://"@ + c.username@ + ":"@ + c.password@ + "@"@ + c.url@ + "/"@ + c.db@
}

/// The connection URL of the configured store:
/// `postgres://<username>:<password>@<url>/<db>`.
pub fn construct_db_url_blocking(config: &Config) -> (r: String)
    ensures
        r@ == db_url(config.database),
{
    let d = &config.database;
    let mut url = String::from_str("postgres://");
    url.append(d.username.as_str());
    url.append(":");
    url.append(d.password.as_str());
    url.append("@");
    url.append(d.url.as_str());
    url.append("/");
    url.append(d.db.as_str());
    url
}

/// Why the configuration could not be loaded.
#[derive(Debug, Clone, PartialEq, Eq)]
pub enum ConfigError {
    MissingField(String),
    FileParseError(String),
    FieldTypeError(Option<String>),
    Other(Option<String>),
}

/// The text that reports a configuration error.
pub open spec fn config_error_text(e: ConfigError) -> Seq<char> {
    match e {
        ConfigError::MissingField(field) => "Missing field "@ + field@ + " in config"@,
        ConfigError::FileParseError(cause) => "Misconfigured config file: "@ + cause@,
        ConfigError::FieldTypeError(field) => "Field "@ + match field {
            Some(f) => f@,
            None => Seq::<char>::empty(),
        } + " has wrong value"@,
        ConfigError::Other(msg) => match msg {
            Some(m) => "Config error: "@ + m@,
            None => "Unexpect error occured while loading configuration. Please try again!"@,
        },
    }
}

impl ConfigError {
    /// The text that reports this error.
    pub fn to_message(&self) -> (r: String)
        ensures
            r@ == config_error_text(*self),
    {
        match self {
            ConfigError::MissingField(field) => {
                let mut text = String::from_str("Missing field ");
                text.append(field.as_str());
                text.append(" in config");
                text
            },
            ConfigError::FileParseError(cause) => {
                let mut text = String::from_str("Misconfigured config file: ");
                text.append(cause.as_str());
                text
            },
            ConfigError::FieldTypeError(field) => {
                let mut text = String::from_str("Field ");
                match field {
                    Some(f) => text.append(f.as_str()),
                    None => {},
                }
                text.append(" has wrong value");
                text
            },
            ConfigError::Other(msg) => match msg {
                Some(m) => {
                    let mut text = String::from_str("Config error: ");
                    text.append(m.as_str());
                    text
                },
                None => String::from_str(
                    "Unexpect error occured while loading configuration. Please try again!",
                ),
            },
        }
    }
}

} // verus!
