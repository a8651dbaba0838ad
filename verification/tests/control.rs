use dbmazz::grpc::services::{
    check, drain_and_stop, get_status, pause, reload_config, resume, stop, stream_metrics,
    ControlResponse, InvalidInterval, MetricsResponse, ReloadConfigRequest, ServingStatus,
};
use dbmazz::grpc::start_grpc_server;
use dbmazz::grpc::state::{CdcConfig, CdcState, SharedState, Stage};

fn fresh_state() -> SharedState {
    SharedState::new(CdcConfig {
        flush_size: 1500,
        flush_interval_ms: 5000,
        tables: vec!["orders".to_string(), "order_items".to_string()],
        slot_name: "dbmazz_slot".to_string(),
    })
}

fn in_state(state: CdcState) -> SharedState {
    let mut s = fresh_state();
    s.set_state(state);
    s
}

fn response(success: bool, message: &str) -> ControlResponse {
    ControlResponse { success, message: message.to_string() }
}

const ALL: [CdcState; 4] =
    [CdcState::Running, CdcState::Paused, CdcState::Draining, CdcState::Stopped];

#[test]
fn state_bytes() {
    assert_eq!(CdcState::from_u8(0), CdcState::Running);
    assert_eq!(CdcState::from_u8(1), CdcState::Paused);
    assert_eq!(CdcState::from_u8(2), CdcState::Draining);
    assert_eq!(CdcState::from_u8(3), CdcState::Stopped);
    assert_eq!(CdcState::from_u8(4), CdcState::Stopped);
    assert_eq!(CdcState::from_u8(255), CdcState::Stopped);
    for state in ALL {
        assert_eq!(CdcState::from_u8(state.as_u8()), state);
    }
    assert_eq!(CdcState::Draining.name(), "Draining");
}

#[test]
fn fresh_state_is_running_at_zero() {
    let state = fresh_state();
    assert_eq!(state.get_state(), CdcState::Running);
    assert_eq!(state.get_stage(), (Stage::Init, "Initializing".to_string()));
    assert_eq!(state.get_setup_error(), None);
    assert_eq!(state.get_current_lsn(), 0);
    assert_eq!(state.get_confirmed_lsn(), 0);
    assert_eq!(state.get_pending_events(), 0);
    assert_eq!(state.get_events_processed(), 0);
    assert_eq!(state.get_batches_sent(), 0);
    assert!(!state.shutdown);
}

#[test]
fn counters_and_setters() {
    let mut state = fresh_state();
    state.update_lsn(10);
    state.confirm_lsn(7);
    state.increment_events();
    state.increment_events();
    state.increment_batches();
    state.set_pending(3);
    assert_eq!(state.get_current_lsn(), 10);
    assert_eq!(state.get_confirmed_lsn(), 7);
    assert_eq!(state.get_events_processed(), 2);
    assert_eq!(state.get_batches_sent(), 1);
    assert_eq!(state.get_pending_events(), 3);
    assert_eq!(state.estimate_memory(), 3072);
    assert_eq!(state.get_events_last_second(), 2);
    assert_eq!(state.get_events_last_second(), 0);
    assert_eq!(state.get_events_processed(), 2);
    state.events_processed = u64::MAX;
    state.increment_events();
    assert_eq!(state.get_events_processed(), 0);
    state.set_stage(Stage::Cdc, "Replicating");
    assert_eq!(state.get_stage(), (Stage::Cdc, "Replicating".to_string()));
    state.set_setup_error(Some("boom".to_string()));
    assert_eq!(state.get_setup_error(), Some("boom".to_string()));
}

#[test]
fn compare_and_set_moves_only_from_the_expected_state() {
    let mut state = fresh_state();
    assert!(!state.compare_and_set_state(CdcState::Paused, CdcState::Running));
    assert_eq!(state.get_state(), CdcState::Running);
    assert!(state.compare_and_set_state(CdcState::Running, CdcState::Paused));
    assert_eq!(state.get_state(), CdcState::Paused);
}

#[test]
fn control_requests_move_the_state_only_along_the_table() {
    for from in ALL {
        let mut s = in_state(from);
        let r = pause(&mut s);
        let expected = if from == CdcState::Running { CdcState::Paused } else { from };
        assert_eq!(s.get_state(), expected);
        assert_eq!(r.success, from == CdcState::Running);
        assert!(!s.shutdown);

        let mut s = in_state(from);
        let r = resume(&mut s);
        let expected = if from == CdcState::Paused { CdcState::Running } else { from };
        assert_eq!(s.get_state(), expected);
        assert_eq!(r.success, from == CdcState::Paused);
        assert!(!s.shutdown);

        let mut s = in_state(from);
        let r = drain_and_stop(&mut s);
        let moves = from == CdcState::Running || from == CdcState::Paused;
        assert_eq!(s.get_state(), if moves { CdcState::Draining } else { from });
        assert_eq!(r.success, moves);
        assert_eq!(s.shutdown, moves);

        let mut s = in_state(from);
        let r = stop(&mut s);
        assert_eq!(s.get_state(), CdcState::Stopped);
        assert_eq!(r.success, from != CdcState::Stopped);
        assert_eq!(s.shutdown, from != CdcState::Stopped);
    }
}

#[test]
fn control_answers() {
    assert_eq!(pause(&mut in_state(CdcState::Running)), response(true, "CDC paused successfully"));
    assert_eq!(pause(&mut in_state(CdcState::Paused)), response(false, "CDC is already paused"));
    assert_eq!(
        pause(&mut in_state(CdcState::Draining)),
        response(false, "Cannot pause CDC in state: Draining")
    );
    assert_eq!(
        pause(&mut in_state(CdcState::Stopped)),
        response(false, "Cannot pause CDC in state: Stopped")
    );
    assert_eq!(resume(&mut in_state(CdcState::Paused)), response(true, "CDC resumed successfully"));
    assert_eq!(resume(&mut in_state(CdcState::Running)), response(false, "CDC is already running"));
    assert_eq!(
        resume(&mut in_state(CdcState::Stopped)),
        response(false, "Cannot resume CDC in state: Stopped")
    );
    assert_eq!(
        drain_and_stop(&mut in_state(CdcState::Paused)),
        response(true, "CDC is draining and will stop")
    );
    assert_eq!(
        drain_and_stop(&mut in_state(CdcState::Draining)),
        response(false, "CDC is already draining")
    );
    assert_eq!(
        drain_and_stop(&mut in_state(CdcState::Stopped)),
        response(false, "CDC is already stopped")
    );
    assert_eq!(stop(&mut in_state(CdcState::Draining)), response(true, "CDC stopped immediately"));
    assert_eq!(stop(&mut in_state(CdcState::Stopped)), response(false, "CDC is already stopped"));
}

#[test]
fn pause_then_resume() {
    let mut state = fresh_state();
    state.update_lsn(100);
    state.confirm_lsn(100);
    assert!(pause(&mut state).success);
    assert_eq!(state.get_state(), CdcState::Paused);
    state.update_lsn(150);
    state.update_lsn(200);
    assert_eq!(state.get_current_lsn(), 200);
    assert_eq!(state.get_confirmed_lsn(), 100);
    assert!(resume(&mut state).success);
    assert_eq!(state.get_state(), CdcState::Running);
    state.confirm_lsn(200);
    assert_eq!(state.get_confirmed_lsn(), state.get_current_lsn());
}

#[test]
fn health_follows_setup_error_and_state() {
    let mut state = fresh_state();
    let health = check(&state);
    assert_eq!(health.status, ServingStatus::Serving);
    assert_eq!(health.stage, 1);
    assert_eq!(health.stage_detail, "Initializing");
    assert_eq!(health.error_detail, "");
    state.set_stage(Stage::Setup, "Running automatic setup");
    assert_eq!(check(&state).stage, 2);
    state.set_stage(Stage::Cdc, "Replicating");
    assert_eq!(check(&state).stage, 3);
    for s in [CdcState::Paused, CdcState::Draining] {
        state.set_state(s);
        assert_eq!(check(&state).status, ServingStatus::Serving);
    }
    state.set_state(CdcState::Stopped);
    assert_eq!(check(&state).status, ServingStatus::NotServing);
    state.set_state(CdcState::Running);
    state.set_setup_error(Some("Table 'x' not found".to_string()));
    let health = check(&state);
    assert_eq!(health.status, ServingStatus::NotServing);
    assert_eq!(health.error_detail, "Table 'x' not found");
    state.set_setup_error(Some(String::new()));
    assert_eq!(check(&state).status, ServingStatus::Serving);
}

#[test]
fn reload_takes_only_the_values_that_are_given() {
    let mut state = fresh_state();
    let nothing = ReloadConfigRequest { flush_size: 0, flush_interval_ms: 0, tables: Vec::new() };
    assert_eq!(
        reload_config(&mut state, &nothing),
        response(false, "No configuration changes provided (use 0 to keep current values)")
    );
    assert_eq!(state.config.flush_size, 1500);

    let size = ReloadConfigRequest { flush_size: 200, flush_interval_ms: 0, tables: Vec::new() };
    assert_eq!(
        reload_config(&mut state, &size),
        response(true, "Configuration reloaded: flush_size=200")
    );
    assert_eq!(state.config.flush_size, 200);
    assert_eq!(state.config.flush_interval_ms, 5000);
    assert_eq!(state.config.tables.len(), 2);

    let all = ReloadConfigRequest {
        flush_size: 7,
        flush_interval_ms: 250,
        tables: vec!["a".to_string(), "b\"c".to_string()],
    };
    assert_eq!(
        reload_config(&mut state, &all),
        response(
            true,
            "Configuration reloaded: flush_size=7, flush_interval_ms=250, tables=[\"a\", \"b\\\"c\"]"
        )
    );
    assert_eq!(state.config.flush_size, 7);
    assert_eq!(state.config.flush_interval_ms, 250);
    assert_eq!(state.config.tables, vec!["a", "b\"c"]);
    assert_eq!(state.config.slot_name, "dbmazz_slot");
}

#[test]
fn status_reports_state_counters_and_configuration() {
    let mut state = fresh_state();
    state.update_lsn(9);
    state.confirm_lsn(4);
    state.set_pending(2);
    state.set_state(CdcState::Paused);
    let status = get_status(&state);
    assert_eq!(status.state, CdcState::Paused);
    assert_eq!(status.current_lsn, 9);
    assert_eq!(status.confirmed_lsn, 4);
    assert_eq!(status.pending_events, 2);
    assert_eq!(status.slot_name, "dbmazz_slot");
    assert_eq!(status.tables, vec!["orders", "order_items"]);
}

#[test]
fn metrics_stream() {
    let mut state = fresh_state();
    assert_eq!(stream_metrics(&state, 0), Err(InvalidInterval));
    assert_eq!(InvalidInterval.message(), "interval_ms must be > 0");
    state.events_processed = 10;
    let mut stream = stream_metrics(&state, 1000).unwrap();
    assert_eq!(stream.interval_ms, 1000);
    state.events_processed = 25;
    state.update_lsn(1000);
    state.confirm_lsn(400);
    state.set_pending(3);
    state.increment_batches();
    assert_eq!(
        stream.sample(&state, 1_700_000_000),
        MetricsResponse {
            timestamp: 1_700_000_000,
            events_in_interval: 15,
            lag_bytes: 600,
            lag_events: 3,
            memory_bytes: 3072,
            total_events_processed: 25,
            total_batches_sent: 1,
        }
    );
    state.confirm_lsn(2000);
    let next = stream.sample(&state, 1_700_000_001);
    assert_eq!(next.events_in_interval, 0);
    assert_eq!(next.lag_bytes, 0);
}

#[test]
fn listen_address() {
    assert_eq!(start_grpc_server(50051), "0.0.0.0:50051");
    assert_eq!(start_grpc_server(0), "0.0.0.0:0");
}
