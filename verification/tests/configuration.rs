use outbox_messaging::db_config::{
    create_database_accepted, quote_identifier, CreateDatabaseOutcome, DbConfig,
};
use outbox_messaging::decimal::{parse_i64, parse_u64};
use outbox_messaging::env::EnvSnapshot;
use outbox_messaging::relay_config::{build_database_url_from_env, require_env, Config, ConfigError};

fn env_of(pairs: &[(&str, &str)]) -> EnvSnapshot {
    let mut env = EnvSnapshot::new();
    for (k, v) in pairs {
        env.set(k, v);
    }
    env
}

#[test]
fn env_snapshot_lookup_latest_wins() {
    let env = env_of(&[("A", "1"), ("B", "2"), ("A", "3")]);
    assert_eq!(env.get("A"), Some("3".to_string()));
    assert_eq!(env.get("B"), Some("2".to_string()));
    assert_eq!(env.get("C"), None);
}

#[test]
fn parse_i64_follows_from_str() {
    assert_eq!(parse_i64("0"), Some(0));
    assert_eq!(parse_i64("-0"), Some(0));
    assert_eq!(parse_i64("+42"), Some(42));
    assert_eq!(parse_i64("100"), Some(100));
    assert_eq!(parse_i64("-9223372036854775808"), Some(i64::MIN));
    assert_eq!(parse_i64("9223372036854775807"), Some(i64::MAX));
    assert_eq!(parse_i64("9223372036854775808"), None);
    assert_eq!(parse_i64("-9223372036854775809"), None);
    assert_eq!(parse_i64("99999999999999999999999"), None);
    assert_eq!(parse_i64(""), None);
    assert_eq!(parse_i64("-"), None);
    assert_eq!(parse_i64("+"), None);
    assert_eq!(parse_i64(" 5"), None);
    assert_eq!(parse_i64("5a"), None);
    assert_eq!(parse_i64("1_000"), None);
    for s in ["0", "-17", "+3", "12345", "x", "", "--1", "9223372036854775808"] {
        assert_eq!(parse_i64(s), s.parse::<i64>().ok());
    }
}

#[test]
fn parse_u64_follows_from_str() {
    assert_eq!(parse_u64("250"), Some(250));
    assert_eq!(parse_u64("+7"), Some(7));
    assert_eq!(parse_u64("18446744073709551615"), Some(u64::MAX));
    assert_eq!(parse_u64("18446744073709551616"), None);
    assert_eq!(parse_u64("-1"), None);
    assert_eq!(parse_u64("-0"), None);
    assert_eq!(parse_u64(""), None);
    assert_eq!(parse_u64("+"), None);
    for s in ["0", "-0", "+3", "12345", "1e3", "", "18446744073709551616"] {
        assert_eq!(parse_u64(s), s.parse::<u64>().ok());
    }
}

fn db_env(pairs: &[(&str, &str)]) -> EnvSnapshot {
    let mut all = vec![
        ("DB_HOST", "db"),
        ("DB_PORT", "6543"),
        ("DB_USER", "u"),
        ("DB_PASSWORD", "p"),
        ("DB_NAME", "process"),
    ];
    all.extend_from_slice(pairs);
    env_of(&all)
}

#[test]
fn db_config_requires_database_keys() {
    for name in ["DB_HOST", "DB_PORT", "DB_USER", "DB_PASSWORD", "DB_NAME"] {
        let pairs: Vec<(&str, &str)> = [
            ("DB_HOST", "db"),
            ("DB_PORT", "6543"),
            ("DB_USER", "u"),
            ("DB_PASSWORD", "p"),
            ("DB_NAME", "process"),
        ]
        .into_iter()
        .filter(|(k, _)| *k != name)
        .collect();
        assert_eq!(
            DbConfig::from_env(&env_of(&pairs)).unwrap_err(),
            ConfigError::MissingVariable(name.to_string())
        );
    }
    assert_eq!(
        DbConfig::from_env(&EnvSnapshot::new()).unwrap_err(),
        ConfigError::MissingVariable("DB_HOST".to_string())
    );
}

#[test]
fn db_config_type_defaults_to_postgres() {
    let cfg = DbConfig::from_env(&db_env(&[])).unwrap();
    assert_eq!(cfg.app_database_url(), "postgres://u:p@db:6543/process");
    assert_eq!(cfg.maintenance_database_url(), "postgres://u:p@db:6543/postgres");
    assert!(cfg.needs_database_creation());
}

#[test]
fn db_config_from_variables() {
    let cfg = DbConfig::from_env(&db_env(&[("DB_NAME", "postgres"), ("DB_TYPE", "postgresql")])).unwrap();
    assert_eq!(cfg.app_database_url(), "postgresql://u:p@db:6543/postgres");
    assert_eq!(cfg.db_name(), "postgres");
    assert!(!cfg.needs_database_creation());
}

#[test]
fn quote_identifier_doubles_quotes() {
    assert_eq!(quote_identifier("process"), "\"process\"");
    assert_eq!(quote_identifier("we\"ird"), "\"we\"\"ird\"");
    assert_eq!(quote_identifier(""), "\"\"");
    assert_eq!(quote_identifier("\""), "\"\"\"\"");
    assert_ne!(quote_identifier("a\"b"), quote_identifier("a\"\"b"));
}

#[test]
fn create_database_statement_and_messages() {
    let cfg = DbConfig::from_env(&db_env(&[("DB_NAME", "my\"db")])).unwrap();
    assert_eq!(cfg.create_database_statement(), "CREATE DATABASE \"my\"\"db\"");
    assert_eq!(cfg.create_database_failure(), "failed to create database 'my\"db'");
    assert_eq!(
        cfg.maintenance_connect_failure(),
        "failed to connect to maintenance database via postgres://u:p@db:6543/postgres"
    );
}

#[test]
fn create_database_outcomes() {
    assert!(create_database_accepted(&CreateDatabaseOutcome::Created));
    assert!(create_database_accepted(&CreateDatabaseOutcome::DatabaseError {
        code: Some("42P04".to_string())
    }));
    assert!(!create_database_accepted(&CreateDatabaseOutcome::DatabaseError {
        code: Some("42501".to_string())
    }));
    assert!(!create_database_accepted(&CreateDatabaseOutcome::DatabaseError { code: None }));
    assert!(!create_database_accepted(&CreateDatabaseOutcome::OtherError));
}

fn full_relay_env() -> Vec<(&'static str, &'static str)> {
    vec![
        ("DB_HOST", "db"),
        ("DB_PORT", "5432"),
        ("DB_USER", "relay"),
        ("DB_PASSWORD", "secret"),
        ("DB_NAME", "process"),
        ("NATS_URL", "nats://nats:4222"),
        ("OUTBOX_NOTIFY_CHANNEL", "outbox_new"),
        ("OUTBOX_SUBJECT_PREFIX", "events"),
        ("OUTBOX_BATCH_SIZE", "100"),
        ("OUTBOX_FALLBACK_POLL_MS", "5000"),
    ]
}

fn without(name: &str) -> EnvSnapshot {
    let pairs: Vec<(&str, &str)> = full_relay_env().into_iter().filter(|(k, _)| *k != name).collect();
    env_of(&pairs)
}

#[test]
fn relay_config_reads_all_variables() {
    let cfg = Config::from_env(&env_of(&full_relay_env())).unwrap();
    assert_eq!(cfg.database_url(), "postgres://relay:secret@db:5432/process");
    assert_eq!(cfg.nats_url(), "nats://nats:4222");
    assert_eq!(cfg.listen_channel(), "outbox_new");
    assert_eq!(cfg.subject_prefix(), "events");
    assert_eq!(cfg.batch_size(), 100);
    assert_eq!(cfg.fallback_poll_ms(), 5000);
}

#[test]
fn relay_config_names_missing_variable() {
    for name in [
        "DB_HOST",
        "DB_PORT",
        "DB_USER",
        "DB_PASSWORD",
        "DB_NAME",
        "NATS_URL",
        "OUTBOX_NOTIFY_CHANNEL",
        "OUTBOX_SUBJECT_PREFIX",
        "OUTBOX_BATCH_SIZE",
        "OUTBOX_FALLBACK_POLL_MS",
    ] {
        let err = Config::from_env(&without(name)).unwrap_err();
        assert_eq!(err, ConfigError::MissingVariable(name.to_string()));
    }
    assert_eq!(
        Config::from_env(&EnvSnapshot::new()).unwrap_err(),
        ConfigError::MissingVariable("DB_HOST".to_string())
    );
}

#[test]
fn relay_config_rejects_non_integers() {
    let mut env = env_of(&full_relay_env());
    env.set("OUTBOX_BATCH_SIZE", "ten");
    assert_eq!(
        Config::from_env(&env).unwrap_err(),
        ConfigError::InvalidInteger("OUTBOX_BATCH_SIZE".to_string())
    );
    let mut env = env_of(&full_relay_env());
    env.set("OUTBOX_FALLBACK_POLL_MS", "-5");
    assert_eq!(
        Config::from_env(&env).unwrap_err(),
        ConfigError::InvalidInteger("OUTBOX_FALLBACK_POLL_MS".to_string())
    );
    let mut env = without("OUTBOX_FALLBACK_POLL_MS");
    env.set("OUTBOX_BATCH_SIZE", "x");
    assert_eq!(
        Config::from_env(&env).unwrap_err(),
        ConfigError::InvalidInteger("OUTBOX_BATCH_SIZE".to_string())
    );
    let mut env = env_of(&full_relay_env());
    env.set("OUTBOX_BATCH_SIZE", "-3");
    assert_eq!(Config::from_env(&env).unwrap().batch_size(), -3);
}

#[test]
fn config_error_descriptions() {
    assert_eq!(
        ConfigError::MissingVariable("NATS_URL".to_string()).describe(),
        "missing required environment variable: NATS_URL"
    );
    assert_eq!(
        ConfigError::InvalidInteger("OUTBOX_BATCH_SIZE".to_string()).describe(),
        "invalid OUTBOX_BATCH_SIZE, expected integer"
    );
}

#[test]
fn database_url_and_require_env() {
    assert_eq!(
        build_database_url_from_env(&env_of(&full_relay_env())).unwrap(),
        "postgres://relay:secret@db:5432/process"
    );
    assert_eq!(
        build_database_url_from_env(&without("DB_PASSWORD")).unwrap_err(),
        ConfigError::MissingVariable("DB_PASSWORD".to_string())
    );
    assert_eq!(require_env(&env_of(&[("X", "1")]), "X").unwrap(), "1");
    assert_eq!(
        require_env(&EnvSnapshot::new(), "X").unwrap_err(),
        ConfigError::MissingVariable("X".to_string())
    );
}
