use conport::config::cli::{LogLevel as CliLevel, ServerMode, CLI};
use conport::config::environment::{config_from_values, is_flag_on, EnvironmentConfig, EnvironmentValues, LogLevel};
use conport::config::logging::parse_log_level;
use tracing::Level;
use conport::config::logging::sanitize_workspace_id;
use conport::config::cli::verbosity_level;

#[test]
fn test_log_level_parsing() {
    assert_eq!(LogLevel::from_str("debug"), LogLevel::Debug);
    assert_eq!(LogLevel::from_str("DEBUG"), LogLevel::Debug);
    assert_eq!(LogLevel::from_str("warn"), LogLevel::Warn);
    assert_eq!(LogLevel::from_str("warning"), LogLevel::Warn);
    assert_eq!(LogLevel::from_str("invalid"), LogLevel::Info);
}

#[test]
fn test_default_log_level() {
    assert_eq!(LogLevel::default(), LogLevel::Info);
}

#[test]
fn test_environment_config_default() {
    let config = EnvironmentConfig::default();
    assert_eq!(config.log_level, LogLevel::Info);
    assert!(!config.vector_store_enabled);
    assert!(config.workspace_id.is_none());
}

#[test]
fn test_parse_log_level() {
    assert_eq!(parse_log_level("debug"), Level::DEBUG);
    assert_eq!(parse_log_level("INFO"), Level::INFO);
    assert_eq!(parse_log_level("WARN"), Level::WARN);
    assert_eq!(parse_log_level("ERROR"), Level::ERROR);
    assert_eq!(parse_log_level("unknown"), Level::INFO);
}

#[test]
fn parse_log_level_reads_trace_and_warning() {
    assert_eq!(parse_log_level("Trace"), Level::TRACE);
    assert_eq!(parse_log_level("warning"), Level::WARN);
}

#[test]
fn cli_log_level_parse_and_tracing_level() {
    assert_eq!(CliLevel::parse("TRACE"), Ok(CliLevel::Trace));
    assert_eq!(CliLevel::parse("warn"), Ok(CliLevel::Warn));
    assert_eq!(CliLevel::parse("warning"), Err("Invalid log level: warning".to_string()));
    assert_eq!(CliLevel::Error.ToTracingLevel(), Level::ERROR);
    assert_eq!(CliLevel::default(), CliLevel::Info);
}

#[test]
fn server_mode_parse_and_name() {
    assert_eq!(ServerMode::parse("HTTP"), Ok(ServerMode::Http));
    assert_eq!(ServerMode::parse("stdio"), Ok(ServerMode::Stdio));
    assert_eq!(ServerMode::parse("tcp"), Err("Invalid server mode: tcp".to_string()));
    assert_eq!(ServerMode::Http.to_string(), "http");
    assert_eq!("stdio".parse::<ServerMode>(), Ok(ServerMode::Stdio));
}

#[test]
fn cli_server_address_joins_host_and_port() {
    let cli = CLI {
        Host: "127.0.0.1".to_string(),
        Port: 8080,
        WorkspaceId: None,
        Mode: ServerMode::Stdio,
        LogLevel: CliLevel::Info,
        LogFile: None,
        DatabasePath: None,
        VectorEnabled: false,
        EmbeddingDimension: 384,
    };
    assert_eq!(cli.ServerAddress(), "127.0.0.1:8080");
}

fn no_values() -> EnvironmentValues {
    EnvironmentValues {
        workspace: None,
        log_level: None,
        database_path: None,
        port: None,
        host: None,
        max_connections: None,
        vector_store_enabled: None,
        vector_store_path: None,
    }
}

#[test]
fn config_from_values_reads_each_setting() {
    let values = EnvironmentValues {
        workspace: Some("ws".to_string()),
        log_level: Some("Warning".to_string()),
        database_path: Some("".to_string()),
        port: Some("+8081".to_string()),
        host: Some("localhost".to_string()),
        max_connections: Some("12".to_string()),
        vector_store_enabled: Some("TRUE".to_string()),
        vector_store_path: Some("/tmp/v".to_string()),
    };
    let c = config_from_values(values);
    assert_eq!(c.workspace_id, Some("ws".to_string()));
    assert_eq!(c.log_level, LogLevel::Warn);
    assert_eq!(c.database_path, None);
    assert_eq!(c.port, Some(8081));
    assert_eq!(c.host, Some("localhost".to_string()));
    assert_eq!(c.max_connections, Some(12));
    assert!(c.vector_store_enabled);
    assert_eq!(c.vector_store_path, Some("/tmp/v".to_string()));
}

#[test]
fn config_from_values_drops_unreadable_numbers() {
    let mut values = no_values();
    values.port = Some("70000".to_string());
    values.max_connections = Some("-1".to_string());
    values.vector_store_enabled = Some("yes".to_string());
    let c = config_from_values(values);
    assert_eq!(c.port, None);
    assert_eq!(c.max_connections, None);
    assert!(!c.vector_store_enabled);
    let d = config_from_values(no_values());
    assert_eq!(d.log_level, LogLevel::Info);
    assert_eq!(d.port, None);
}

#[test]
fn flags_switch_on_for_true_and_one() {
    assert!(is_flag_on("True"));
    assert!(is_flag_on("1"));
    assert!(!is_flag_on("0"));
    assert!(!is_flag_on(" true"));
}

#[test]
fn workspace_ids_are_sanitized_for_directories() {
    assert_eq!(sanitize_workspace_id("/home/ana/proj"), "_home_ana_proj");
    assert_eq!(sanitize_workspace_id("C:\\w*?\"<>|x"), "C__w______x");
    assert_eq!(sanitize_workspace_id("plain-id_1"), "plain-id_1");
    assert_eq!(sanitize_workspace_id(""), "");
}

#[test]
fn verbosity_counts_choose_levels() {
    assert_eq!(verbosity_level(0), CliLevel::Info);
    assert_eq!(verbosity_level(1), CliLevel::Debug);
    assert_eq!(verbosity_level(2), CliLevel::Trace);
    assert_eq!(verbosity_level(9).ToTracingLevel(), Level::TRACE);
}
