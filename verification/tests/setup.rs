use dbmazz::config::{Config, EnvVars};
use dbmazz::grpc::cpu_metrics::{read_cpu_times, CpuReadings, CpuTimes};
use dbmazz::setup::postgres::{
    connection_failed, create_postgres_client, split_table, PostgresSetup, PostgresStep,
};
use dbmazz::setup::starrocks::{
    create_starrocks_pool, table_without_schema, StarRocksSetup, StarRocksStep,
};
use dbmazz::setup::SetupError;
use dbmazz::state_store::StateStore;

fn config(tables: &str) -> Config {
    Config::from_env(&EnvVars {
        database_url: Some("postgres://u@h/db?replication=database".to_string()),
        slot_name: None,
        publication_name: None,
        tables: Some(tables.to_string()),
        starrocks_url: Some("http://starrocks:8030".to_string()),
        starrocks_port: None,
        starrocks_db: Some("demo".to_string()),
        starrocks_user: None,
        starrocks_pass: Some("pw".to_string()),
        flush_size: None,
        flush_interval_ms: None,
        grpc_port: None,
    })
    .unwrap()
}

fn texts(items: &[&str]) -> Vec<String> {
    items.iter().map(|s| s.to_string()).collect()
}

#[test]
fn setup_error_messages() {
    let e = "boom".to_string();
    let cases = [
        (
            SetupError::PgConnectionFailed { host: "h".to_string(), error: e.clone() },
            "PostgreSQL connection failed to 'h': boom",
        ),
        (
            SetupError::PgTableNotFound { table: "t".to_string() },
            "Table 't' not found in PostgreSQL. Verify the table exists and is accessible.",
        ),
        (
            SetupError::PgReplicaIdentityFailed { table: "t".to_string(), error: e.clone() },
            "Failed to set REPLICA IDENTITY FULL on 't': boom",
        ),
        (
            SetupError::PgPublicationFailed { name: "p".to_string(), error: e.clone() },
            "Failed to setup publication 'p': boom",
        ),
        (
            SetupError::PgSlotFailed { name: "s".to_string(), error: e.clone() },
            "Failed to setup replication slot 's': boom",
        ),
        (
            SetupError::SrConnectionFailed { host: "h".to_string(), error: e.clone() },
            "StarRocks connection failed to 'h': boom",
        ),
        (
            SetupError::SrTableNotFound { table: "t".to_string() },
            "Table 't' not found in StarRocks. Create the table before starting CDC.",
        ),
        (
            SetupError::SrAuditColumnsFailed { table: "t".to_string(), error: e.clone() },
            "Failed to add audit columns to StarRocks table 't': boom",
        ),
        (SetupError::CheckpointFailed { error: e.clone() }, "Checkpoint load failed: boom"),
    ];
    for (error, message) in cases {
        assert_eq!(error.to_grpc_message(), message);
    }
}

#[test]
fn table_names_with_and_without_schema() {
    assert_eq!(split_table("orders"), ("public".to_string(), "orders".to_string()));
    assert_eq!(split_table("sales.orders"), ("sales".to_string(), "orders".to_string()));
    assert_eq!(split_table("a.b.c"), ("a".to_string(), "b".to_string()));
    assert_eq!(table_without_schema("sales.orders"), "orders");
    assert_eq!(table_without_schema("orders"), "orders");
    assert_eq!(table_without_schema("a.b.c"), "c");
}

#[test]
fn postgres_connection_for_setup() {
    assert_eq!(create_postgres_client("postgres://h/db?replication=database"), "postgres://h/db");
    assert_eq!(create_postgres_client("postgres://h/db"), "postgres://h/db");
    assert_eq!(
        connection_failed("postgres://h/db", "refused".to_string()),
        SetupError::PgConnectionFailed {
            host: "postgres://h/db".to_string(),
            error: "refused".to_string(),
        }
    );
}

#[test]
fn postgres_steps_in_order() {
    assert_eq!(PostgresSetup::run(PostgresStep::VerifyTables), Some(PostgresStep::ReplicaIdentity));
    assert_eq!(PostgresSetup::run(PostgresStep::ReplicaIdentity), Some(PostgresStep::Publication));
    assert_eq!(PostgresSetup::run(PostgresStep::Publication), Some(PostgresStep::ReplicationSlot));
    assert_eq!(PostgresSetup::run(PostgresStep::ReplicationSlot), None);
    assert_eq!(StarRocksSetup::run(StarRocksStep::VerifyConnection), Some(StarRocksStep::VerifyTables));
    assert_eq!(StarRocksSetup::run(StarRocksStep::VerifyTables), Some(StarRocksStep::AuditColumns));
    assert_eq!(StarRocksSetup::run(StarRocksStep::AuditColumns), None);
}

#[test]
fn postgres_tables_and_replica_identity() {
    assert_eq!(PostgresSetup::verify_tables_exist("orders", Ok(true)), Ok(()));
    assert_eq!(
        PostgresSetup::verify_tables_exist("orders", Ok(false)),
        Err(SetupError::PgTableNotFound { table: "orders".to_string() })
    );
    assert_eq!(
        PostgresSetup::verify_tables_exist("orders", Err("gone".to_string())),
        Err(SetupError::PgConnectionFailed {
            host: "PostgreSQL".to_string(),
            error: "gone".to_string(),
        })
    );
    assert_eq!(PostgresSetup::ensure_replica_identity("orders", Ok(b'f' as i8)), Ok(None));
    assert_eq!(
        PostgresSetup::ensure_replica_identity("orders", Ok(b'd' as i8)),
        Ok(Some("ALTER TABLE orders REPLICA IDENTITY FULL".to_string()))
    );
    assert_eq!(
        PostgresSetup::ensure_replica_identity("orders", Err("gone".to_string())),
        Err(SetupError::PgConnectionFailed {
            host: "PostgreSQL".to_string(),
            error: "gone".to_string(),
        })
    );
    assert_eq!(
        PostgresSetup::replica_identity_failed("orders", "denied".to_string()),
        SetupError::PgReplicaIdentityFailed {
            table: "orders".to_string(),
            error: "denied".to_string(),
        }
    );
}

#[test]
fn publication_is_created_or_completed() {
    let setup = PostgresSetup::new(config("orders,sales.items,users"));
    assert_eq!(
        setup.ensure_publication(false, Ok(Vec::new())),
        Ok(texts(&["CREATE PUBLICATION dbmazz_pub FOR TABLE orders, sales.items, users"]))
    );
    let published = texts(&["public.orders", "sales.other", "users"]);
    assert_eq!(setup.get_missing_tables_in_publication(&published), texts(&["sales.items"]));
    assert_eq!(
        setup.ensure_publication(true, Ok(published)),
        Ok(texts(&["ALTER PUBLICATION dbmazz_pub ADD TABLE sales.items"]))
    );
    assert_eq!(
        setup.ensure_publication(true, Ok(Vec::new())),
        Ok(texts(&[
            "ALTER PUBLICATION dbmazz_pub ADD TABLE orders",
            "ALTER PUBLICATION dbmazz_pub ADD TABLE sales.items",
            "ALTER PUBLICATION dbmazz_pub ADD TABLE users",
        ]))
    );
    assert_eq!(
        setup.ensure_publication(true, Err("denied".to_string())),
        Err(SetupError::PgPublicationFailed {
            name: "dbmazz_pub".to_string(),
            error: "denied".to_string(),
        })
    );
}

#[test]
fn replication_slot_is_created_where_missing() {
    let setup = PostgresSetup::new(config("orders"));
    assert_eq!(setup.ensure_replication_slot(Ok(true)), Ok(false));
    assert_eq!(setup.ensure_replication_slot(Ok(false)), Ok(true));
    assert_eq!(
        setup.ensure_replication_slot(Err("denied".to_string())),
        Err(SetupError::PgSlotFailed {
            name: "dbmazz_slot".to_string(),
            error: "denied".to_string(),
        })
    );
}

#[test]
fn starrocks_pool_target() {
    let pool = create_starrocks_pool(&config("orders"));
    assert_eq!(pool.host, "starrocks");
    assert_eq!(pool.port, 9030);
    assert_eq!(pool.user, "root");
    assert_eq!(pool.pass, "pw");
    assert_eq!(pool.database, "demo");
}

#[test]
fn starrocks_tables_and_audit_columns() {
    let setup = StarRocksSetup::new(config("orders,sales.items"));
    assert_eq!(setup.verify_tables_exist("orders", Ok(true)), Ok(()));
    assert_eq!(
        setup.verify_tables_exist("orders", Ok(false)),
        Err(SetupError::SrTableNotFound { table: "orders".to_string() })
    );
    assert_eq!(
        setup.verify_tables_exist("orders", Err("gone".to_string())),
        Err(SetupError::SrConnectionFailed {
            host: "http://starrocks:8030".to_string(),
            error: "gone".to_string(),
        })
    );
    assert_eq!(setup.ensure_audit_columns(), texts(&["orders", "items"]));
    let existing = texts(&["id", "dbmazz_is_deleted", "dbmazz_cdc_version"]);
    assert_eq!(
        setup.ensure_audit_columns_for_table("orders", Ok(existing)),
        Ok(texts(&[
            "ALTER TABLE demo.orders ADD COLUMN dbmazz_op_type TINYINT COMMENT '0=INSERT, 1=UPDATE, 2=DELETE'",
            "ALTER TABLE demo.orders ADD COLUMN dbmazz_synced_at DATETIME COMMENT 'Timestamp CDC'",
        ]))
    );
    let all = setup.ensure_audit_columns_for_table("orders", Ok(Vec::new())).unwrap();
    assert_eq!(all.len(), 4);
    assert_eq!(
        all[1],
        "ALTER TABLE demo.orders ADD COLUMN dbmazz_is_deleted BOOLEAN COMMENT 'Soft delete flag'"
    );
    assert_eq!(
        all[3],
        "ALTER TABLE demo.orders ADD COLUMN dbmazz_cdc_version BIGINT COMMENT 'LSN PostgreSQL'"
    );
    assert_eq!(
        setup.ensure_audit_columns_for_table("orders", Err("gone".to_string())),
        Err(SetupError::SrConnectionFailed {
            host: "http://starrocks:8030".to_string(),
            error: "gone".to_string(),
        })
    );
    assert_eq!(
        StarRocksSetup::audit_columns_failed("orders", "denied".to_string()),
        SetupError::SrAuditColumnsFailed {
            table: "orders".to_string(),
            error: "denied".to_string(),
        }
    );
}

#[test]
fn checkpoints_keep_the_bits_of_the_lsn() {
    assert_eq!(
        StateStore::new("postgres://h/db?replication=database").url,
        "postgres://h/db"
    );
    assert_eq!(
        StateStore::new("postgres://h/db?a=1&replication=database").url,
        "postgres://h/db?a=1"
    );
    assert_eq!(
        StateStore::new("postgres://h/db?x=1&replication=database&b=2").url,
        "postgres://h/db?x=1&b=2"
    );
    assert_eq!(StateStore::save_checkpoint("s", 0x1000), ("s".to_string(), 4096));
    assert_eq!(StateStore::save_checkpoint("s", u64::MAX), ("s".to_string(), -1));
    assert_eq!(StateStore::load_checkpoint(None), None);
    assert_eq!(StateStore::load_checkpoint(Some(4096)), Some(0x1000));
    assert_eq!(StateStore::load_checkpoint(Some(-1)), Some(u64::MAX));
    assert_eq!(StateStore::load_checkpoint(Some(i64::MIN)), Some(1 << 63));
    for lsn in [0u64, 1, 1 << 62, 1 << 63, u64::MAX - 1] {
        let (_, stored) = StateStore::save_checkpoint("s", lsn);
        assert_eq!(StateStore::load_checkpoint(Some(stored)), Some(lsn));
    }
}

#[test]
fn cpu_times_are_read_after_the_command_name() {
    let line = "1234 (my (odd) cmd) S 1 1234 1234 0 -1 4194304 100 0 0 0 250 75 0 0 20 0 1 0 100 1000 10 18446744073709551615\n";
    assert_eq!(read_cpu_times(line), Some(CpuTimes { utime: 250, stime: 75 }));
    assert_eq!(read_cpu_times("1 (x) S 1 2 3 4 5 6 7 8 9 10 11"), None);
    assert_eq!(
        read_cpu_times("1 (x) S 1 2 3 4 5 6 7 8 9 10 11 12"),
        Some(CpuTimes { utime: 11, stime: 12 })
    );
    assert_eq!(read_cpu_times("1 (x) S 1 2 3 4 5 6 7 8 9 10 -11 12 13"), None);
    assert_eq!(read_cpu_times("no parenthesis here"), None);
    assert_eq!(read_cpu_times(""), None);
    assert_eq!(read_cpu_times(")"), None);
    let now = CpuTimes { utime: 300, stime: 70 };
    let before = CpuTimes { utime: 250, stime: 75 };
    assert_eq!(now.ticks_since(&before), 50);
    assert_eq!(before.ticks_since(&now), 5);
}

#[test]
fn cpu_readings_are_compared_with_the_one_before() {
    let mut tracker = CpuReadings::new();
    assert!(!tracker.initialized);
    assert_eq!(tracker.advance(CpuTimes { utime: 100, stime: 50 }, true), None);
    assert!(tracker.initialized);
    assert_eq!(tracker.advance(CpuTimes { utime: 130, stime: 60 }, true), Some(40));
    assert_eq!(tracker.advance(CpuTimes { utime: 150, stime: 60 }, false), None);
    assert_eq!(tracker.advance(CpuTimes { utime: 151, stime: 59 }, true), Some(1));
    assert_eq!(tracker.last, CpuTimes { utime: 151, stime: 59 });
}

#[test]
fn words_of_a_stat_line_agree_with_the_standard_library() {
    let lines = [
        "1 (a) S 1 2 3 4 5 6 7 8 9 10 11 12 13 14",
        "1 (a b) c)  S\t1 2  3 4 5 6 7 8 9 10 110 120 13\n\n",
        "77 (x) R 0 0 0 0 0 0 0 0 0 0 18446744073709551615 0",
        "77 (x) R 0 0 0 0 0 0 0 0 0 0 18446744073709551616 0",
    ];
    for line in lines {
        let expected = (|| {
            let stat = line.trim_end();
            let rpar = stat.rfind(')')?;
            let parts: Vec<&str> = stat[rpar + 1..].split_whitespace().collect();
            if parts.len() < 13 {
                return None;
            }
            Some(CpuTimes { utime: parts[11].parse().ok()?, stime: parts[12].parse().ok()? })
        })();
        assert_eq!(read_cpu_times(line), expected, "{:?}", line);
    }
}
