use bytes::Bytes;
use dbmazz::config::{Config, EnvVars};
use dbmazz::engine::{checkpoint_reply, CdcEngine, ControlFlow, FrameAction, StartupStep};
use dbmazz::grpc::services::drain_and_stop;
use dbmazz::grpc::state::{CdcState, Stage};
use dbmazz::replication::wal_handler::CdcEvent;
use dbmazz::replication::WalMessage;
use dbmazz::setup::SetupError;
use dbmazz::source::parser::CdcMessage;
use dbmazz::source::postgres::build_standby_status_update;
use dbmazz::source::wire::ParseError;

fn config(flush_size: &str) -> Config {
    Config::from_env(&EnvVars {
        database_url: Some("postgres://u@h/db?replication=database".to_string()),
        slot_name: None,
        publication_name: None,
        tables: None,
        starrocks_url: Some("http://starrocks:8030".to_string()),
        starrocks_port: None,
        starrocks_db: Some("demo".to_string()),
        starrocks_user: None,
        starrocks_pass: None,
        flush_size: Some(flush_size.to_string()),
        flush_interval_ms: None,
        grpc_port: None,
    })
    .unwrap()
}

#[test]
fn engine_starts_with_the_configuration() {
    let engine = CdcEngine::new(config("1500"));
    assert_eq!(engine.iteration, 0);
    assert_eq!(engine.shared_state.config.flush_size, 1500);
    assert_eq!(engine.shared_state.config.flush_interval_ms, 5000);
    assert_eq!(engine.shared_state.config.slot_name, "dbmazz_slot");
    assert_eq!(engine.shared_state.config.tables, vec!["orders", "order_items"]);
    assert_eq!(engine.shared_state.get_state(), CdcState::Running);
}

#[test]
fn startup_steps_report_their_stage() {
    let mut engine = CdcEngine::new(config("10"));
    let expected = [
        (Stage::Setup, "Starting gRPC server"),
        (Stage::Setup, "Running automatic setup"),
        (Stage::Setup, "Loading checkpoint"),
        (Stage::Setup, "Connecting to PostgreSQL"),
        (Stage::Setup, "Starting replication stream"),
        (Stage::Setup, "Connecting to StarRocks"),
        (Stage::Setup, "Initializing pipeline"),
        (Stage::Cdc, "Replicating"),
    ];
    let mut step = StartupStep::StartGrpcServer;
    for (stage, detail) in expected {
        step = engine.run(step);
        assert_eq!(engine.shared_state.get_stage(), (stage, detail.to_string()));
    }
    assert_eq!(step, StartupStep::Replicate);
}

#[test]
fn failed_setup_is_reported_and_kept() {
    let mut engine = CdcEngine::new(config("10"));
    engine.run(StartupStep::RunSetup);
    engine.setup_failed(&SetupError::PgTableNotFound { table: "orders".to_string() });
    assert_eq!(
        engine.shared_state.get_setup_error(),
        Some(
            "Table 'orders' not found in PostgreSQL. Verify the table exists and is accessible."
                .to_string()
        )
    );
    assert_eq!(engine.shared_state.get_stage(), (Stage::Setup, "Setup failed".to_string()));
}

#[test]
fn checkpoint_sets_where_replication_starts() {
    let mut engine = CdcEngine::new(config("10"));
    assert_eq!(engine.load_checkpoint(None), 0);
    assert_eq!(engine.shared_state.get_current_lsn(), 0);
    assert_eq!(engine.load_checkpoint(Some(0x5000)), 0x5000);
    assert_eq!(engine.shared_state.get_current_lsn(), 0x5000);
    assert_eq!(engine.shared_state.get_confirmed_lsn(), 0x5000);
}

#[test]
fn pipeline_and_sink_come_from_the_configuration() {
    let engine = CdcEngine::new(config("1500"));
    let (pipeline, depth) = engine.init_pipeline(42);
    assert_eq!(depth, 3000);
    assert_eq!(pipeline.len(), 0);
    let sink = engine.init_sink();
    assert_eq!(sink.mysql_target().host, "starrocks");
    assert_eq!(sink.mysql_target().database, "demo");
    assert_eq!(sink.mysql_target().user, "root");
}

#[test]
fn control_state_is_looked_at_every_256_turns() {
    let mut engine = CdcEngine::new(config("2"));
    engine.shared_state.set_state(CdcState::Stopped);
    for turn in 1..=255u64 {
        assert_eq!(engine.run_main_loop(4), None, "turn {}", turn);
    }
    assert_eq!(engine.run_main_loop(4), Some(ControlFlow::Break));
    assert_eq!(engine.iteration, 256);
    engine.iteration = u64::MAX;
    assert_eq!(engine.run_main_loop(4), Some(ControlFlow::Break));
    assert_eq!(engine.iteration, 0);
}

#[test]
fn what_the_loop_does_in_each_state() {
    let mut engine = CdcEngine::new(config("2"));
    assert_eq!(engine.check_state_control_sync(0), None);
    engine.shared_state.set_state(CdcState::Paused);
    assert_eq!(engine.check_state_control_sync(0), Some(ControlFlow::Continue));
    assert_eq!(engine.shared_state.get_state(), CdcState::Paused);
    engine.shared_state.set_state(CdcState::Stopped);
    assert_eq!(engine.check_state_control_sync(0), Some(ControlFlow::Break));
}

#[test]
fn drain() {
    let mut engine = CdcEngine::new(config("1500"));
    let depth = 3000;
    assert!(drain_and_stop(&mut engine.shared_state).success);
    assert_eq!(engine.shared_state.get_state(), CdcState::Draining);
    assert!(engine.shared_state.shutdown);
    for free in [0usize, 1, 2999] {
        assert_eq!(engine.check_state_control_sync(free), None);
        assert_eq!(engine.shared_state.get_state(), CdcState::Draining);
    }
    assert_eq!(engine.check_state_control_sync(depth), Some(ControlFlow::Break));
    assert_eq!(engine.shared_state.get_state(), CdcState::Stopped);
    let (_slot, lsn) = engine.handle_checkpoint_feedback(0x7000);
    assert_eq!(lsn, 0x7000);
    assert_eq!(engine.shared_state.get_confirmed_lsn(), 0x7000);
}

#[test]
fn frames_lead_to_actions() {
    let mut engine = CdcEngine::new(config("4"));
    engine.shared_state.confirm_lsn(0x900);

    let data = WalMessage::XLogData { lsn: 0x1000, data: Bytes::from_static(b"T") };
    let (action, lsn) = engine.handle_replication_message(data, 8, 1);
    assert_eq!(
        action,
        FrameAction::Forward {
            event: CdcEvent { lsn: 0x1000, message: CdcMessage::Truncate },
            delta: None,
        }
    );
    assert_eq!(lsn, 0x1000);
    assert_eq!(engine.shared_state.get_current_lsn(), 0x1000);
    assert_eq!(engine.shared_state.get_pending_events(), 0);

    let keepalive = WalMessage::KeepAlive { lsn: 0x2000, reply_requested: true };
    let (action, lsn) = engine.handle_replication_message(keepalive, 8, 77);
    assert_eq!(action, FrameAction::Reply(build_standby_status_update(0x900, 77)));
    assert_eq!(lsn, 0x2000);
    assert_eq!(engine.shared_state.get_current_lsn(), 0x1000);

    let quiet = WalMessage::KeepAlive { lsn: 0x2000, reply_requested: false };
    assert_eq!(engine.handle_replication_message(quiet, 8, 77), (FrameAction::Nothing, 0x2000));
    assert_eq!(
        engine.handle_replication_message(WalMessage::Unknown(b'z'), 8, 77),
        (FrameAction::Unknown(b'z'), 0)
    );
    let broken = WalMessage::XLogData { lsn: 0x3000, data: Bytes::from_static(b"I\x00") };
    assert_eq!(
        engine.handle_replication_message(broken, 8, 77),
        (FrameAction::Malformed(ParseError::Truncated), 0x3000)
    );
    let empty = WalMessage::XLogData { lsn: 0x4000, data: Bytes::new() };
    assert_eq!(engine.handle_replication_message(empty, 8, 77), (FrameAction::Nothing, 0x4000));
}

#[test]
fn confirmed_lsn_is_saved_then_acknowledged() {
    let mut engine = CdcEngine::new(config("4"));
    let (slot, lsn) = engine.handle_checkpoint_feedback(0x1000);
    assert_eq!(slot, "dbmazz_slot");
    assert_eq!(lsn, 0x1000);
    assert_eq!(engine.shared_state.get_confirmed_lsn(), 0x1000);
    assert_eq!(checkpoint_reply(lsn, true, 5), Some(build_standby_status_update(0x1000, 5)));
    assert_eq!(checkpoint_reply(lsn, false, 5), None);
}
