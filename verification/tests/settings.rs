use agent_server::settings::{
    log_level, rest_config_files, session_log, AppConfig, Command, LogLevel, RestConfig,
    DEFAULT_CONFIG_PATH, POOL_ACQUIRE_TIMEOUT_SECS, POOL_MAX_CONNECTIONS, REST_ENV_PREFIX,
};

#[test]
fn rest_config_files_default_to_development() {
    assert_eq!(
        rest_config_files(None),
        vec![
            "../../config/rest_config.toml".to_string(),
            "../../config/rest_config.development.toml".to_string()
        ]
    );
    assert_eq!(
        rest_config_files(Some("production"))[1],
        "../../config/rest_config.production.toml"
    );
    assert_eq!(REST_ENV_PREFIX, "AGPT_REST");
}

#[test]
fn rest_config_holds_its_settings() {
    let config = RestConfig {
        database_url: "postgres://localhost/db".to_string(),
        database_schema: "public".to_string(),
        server_host: "0.0.0.0".to_string(),
        server_port: 5001,
    };
    assert_eq!(config.server_port, 5001);
    assert_eq!(config.database_schema, "public");
}

#[test]
fn log_levels_by_name() {
    assert_eq!(log_level("trace"), LogLevel::Trace);
    assert_eq!(log_level("debug"), LogLevel::Debug);
    assert_eq!(log_level("info"), LogLevel::Info);
    assert_eq!(log_level("warn"), LogLevel::Warn);
    assert_eq!(log_level("error"), LogLevel::Error);
    assert_eq!(log_level("ERROR"), LogLevel::Info);
    assert_eq!(log_level(""), LogLevel::Info);
}

#[test]
fn session_logs() {
    let config = AppConfig { log_level: "debug".to_string(), modules_directory: "/mods".to_string() };
    let run = session_log(&config, Some(Command::Run));
    assert_eq!(
        run,
        vec![
            (LogLevel::Info, "Modules directory: /mods".to_string()),
            (LogLevel::Info, "Log level: debug".to_string()),
            (LogLevel::Info, "Running application logic".to_string()),
        ]
    );
    let check = session_log(&config, Some(Command::Check));
    assert_eq!(check.len(), 8);
    assert_eq!(check[3], (LogLevel::Trace, "Trace message".to_string()));
    assert_eq!(check[7], (LogLevel::Error, "Error message".to_string()));
    let none = session_log(&config, None);
    assert_eq!(none[2], (LogLevel::Warn, "No subcommand provided".to_string()));
}

#[test]
fn pool_and_tool_defaults() {
    assert_eq!(POOL_MAX_CONNECTIONS, 5);
    assert_eq!(POOL_ACQUIRE_TIMEOUT_SECS, 3);
    assert_eq!(DEFAULT_CONFIG_PATH, "config.yaml");
}
