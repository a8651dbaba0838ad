use dbmazz::config::{Config, ConfigError, EnvVars};
use dbmazz::setup::{SetupManager, SetupSide};
use dbmazz::setup::SetupError;

fn required() -> EnvVars {
    EnvVars {
        database_url: Some("postgres://u@h/db".to_string()),
        slot_name: None,
        publication_name: None,
        tables: None,
        starrocks_url: Some("http://starrocks:8030".to_string()),
        starrocks_port: None,
        starrocks_db: Some("demo".to_string()),
        starrocks_user: None,
        starrocks_pass: None,
        flush_size: None,
        flush_interval_ms: None,
        grpc_port: None,
    }
}

#[test]
fn defaults_fill_what_is_not_set() {
    let config = Config::from_env(&required()).unwrap();
    assert_eq!(
        config,
        Config {
            database_url: "postgres://u@h/db".to_string(),
            slot_name: "dbmazz_slot".to_string(),
            publication_name: "dbmazz_pub".to_string(),
            tables: vec!["orders".to_string(), "order_items".to_string()],
            starrocks_url: "http://starrocks:8030".to_string(),
            starrocks_port: 9030,
            starrocks_db: "demo".to_string(),
            starrocks_user: "root".to_string(),
            starrocks_pass: String::new(),
            flush_size: 10000,
            flush_interval_ms: 5000,
            grpc_port: 50051,
        }
    );
}

#[test]
fn values_that_are_set_are_taken() {
    let mut vars = required();
    vars.slot_name = Some("s".to_string());
    vars.publication_name = Some("p".to_string());
    vars.tables = Some(" public.a , b,,c ".to_string());
    vars.starrocks_port = Some("9031".to_string());
    vars.starrocks_user = Some("loader".to_string());
    vars.starrocks_pass = Some("secret".to_string());
    vars.flush_size = Some("250".to_string());
    vars.flush_interval_ms = Some("100".to_string());
    vars.grpc_port = Some("6000".to_string());
    let config = Config::from_env(&vars).unwrap();
    assert_eq!(config.slot_name, "s");
    assert_eq!(config.publication_name, "p");
    assert_eq!(config.tables, vec!["public.a", "b", "", "c"]);
    assert_eq!(config.starrocks_port, 9031);
    assert_eq!(config.starrocks_user, "loader");
    assert_eq!(config.starrocks_pass, "secret");
    assert_eq!(config.flush_size, 250);
    assert_eq!(config.flush_interval_ms, 100);
    assert_eq!(config.grpc_port, 6000);
}

#[test]
fn numbers_that_do_not_parse_fall_back_to_the_default() {
    let mut vars = required();
    vars.starrocks_port = Some("65536".to_string());
    vars.flush_size = Some("many".to_string());
    vars.flush_interval_ms = Some("-5".to_string());
    vars.grpc_port = Some("".to_string());
    let config = Config::from_env(&vars).unwrap();
    assert_eq!(config.starrocks_port, 9030);
    assert_eq!(config.flush_size, 10000);
    assert_eq!(config.flush_interval_ms, 5000);
    assert_eq!(config.grpc_port, 50051);
}

#[test]
fn first_missing_required_variable_is_the_error() {
    let mut vars = required();
    vars.starrocks_db = None;
    assert_eq!(Config::from_env(&vars), Err(ConfigError::MissingStarrocksDb));
    vars.starrocks_url = None;
    assert_eq!(Config::from_env(&vars), Err(ConfigError::MissingStarrocksUrl));
    vars.database_url = None;
    assert_eq!(Config::from_env(&vars), Err(ConfigError::MissingDatabaseUrl));
    assert_eq!(ConfigError::MissingDatabaseUrl.message(), "DATABASE_URL must be set");
    assert_eq!(ConfigError::MissingStarrocksUrl.message(), "STARROCKS_URL must be set");
    assert_eq!(ConfigError::MissingStarrocksDb.message(), "STARROCKS_DB must be set");
}

#[test]
fn banner_announces_the_configuration() {
    let config = Config::from_env(&required()).unwrap();
    assert_eq!(
        config.print_banner(),
        vec![
            "Starting dbmazz (High Performance Mode)...",
            "Source: Postgres (dbmazz_slot)",
            "Target: StarRocks (demo)",
            "Flush: 10000 msgs or 5000ms interval",
            "gRPC: port 50051",
            "Tables: [\"orders\", \"order_items\"]",
        ]
    );
}

#[test]
fn setup_prepares_postgres_then_starrocks() {
    let config = Config::from_env(&required()).unwrap();
    let manager = SetupManager::new(config.clone());
    assert_eq!(*manager.configuration(), config);
    assert_eq!(SetupManager::run(SetupSide::Postgres, Ok(())), Ok(Some(SetupSide::StarRocks)));
    assert_eq!(SetupManager::run(SetupSide::StarRocks, Ok(())), Ok(None));
    let error = SetupError::SrTableNotFound { table: "orders".to_string() };
    assert_eq!(SetupManager::run(SetupSide::Postgres, Err(error.clone())), Err(error));
}
