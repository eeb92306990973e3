use twitch_collector::config::{
    construct_db_url_blocking, Config, ConfigError, DatabaseConfig, LogLevelFilter,
};

#[test]
fn default_config() {
    let c = Config::const_default();
    assert!(c.channels.is_empty());
    assert_eq!(c.log_level, LogLevelFilter::Info);
    assert_eq!(c.database_op_retry_limit, 3);
    assert_eq!(c.database.url, "");
    assert_eq!(c.twitch_api.client_id, "");
    let d = Config::default();
    assert_eq!(d.database_op_retry_limit, 3);
    assert_eq!(LogLevelFilter::default(), LogLevelFilter::Info);
    assert_eq!(DatabaseConfig::default().db, "");
}

#[test]
fn database_url() {
    let mut c = Config::const_default();
    c.database = DatabaseConfig {
        url: "localhost:5432".to_string(),
        username: "collector".to_string(),
        password: "pw".to_string(),
        db: "chat".to_string(),
    };
    assert_eq!(
        construct_db_url_blocking(&c),
        "postgres://collector:pw@localhost:5432/chat"
    );
    assert_eq!(construct_db_url_blocking(&Config::const_default()), "postgres://:@/");
}

#[test]
fn config_error_texts() {
    assert_eq!(
        ConfigError::MissingField("channels".to_string()).to_message(),
        "Missing field channels in config"
    );
    assert_eq!(
        ConfigError::FileParseError("bad toml".to_string()).to_message(),
        "Misconfigured config file: bad toml"
    );
    assert_eq!(
        ConfigError::FieldTypeError(Some("log_level".to_string())).to_message(),
        "Field log_level has wrong value"
    );
    assert_eq!(ConfigError::FieldTypeError(None).to_message(), "Field  has wrong value");
    assert_eq!(
        ConfigError::Other(Some("boom".to_string())).to_message(),
        "Config error: boom"
    );
    assert_eq!(
        ConfigError::Other(None).to_message(),
        "Unexpect error occured while loading configuration. Please try again!"
    );
}
