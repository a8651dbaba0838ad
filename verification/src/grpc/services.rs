//! What the four services answer: health, control, status and metrics. Each
//! function reads or moves the shared state and returns the answer; the
//! transport around them belongs to the caller.

use crate::grpc::state::{
    next_state, CdcConfigView, CdcState, ControlEvent, SharedState, SharedStateView, Stage,
    EVENT_SIZE_ESTIMATE,
};
use crate::text::{
    copy_str, copy_texts, debug_of_list, debug_text, decimal, decimal_text, join, join_texts,
};
use vstd::prelude::*;

verus! {

/// Whether the process serves.
#[derive(Debug, Clone, Copy, PartialEq, Eq, Structural)]
pub enum ServingStatus {
    Serving,
    NotServing,
}

/// The answer of the health service.
#[derive(Debug, Clone, PartialEq, Eq)]
pub struct HealthCheckResponse {
    pub status: ServingStatus,
    /// 1 for `Init`, 2 for `Setup`, 3 for `Cdc`.
    pub stage: i32,
    pub stage_detail: String,
    pub error_detail: String,
}

/// A `HealthCheckResponse` as plain values.
pub struct HealthCheckResponseView {
    pub status: ServingStatus,
    pub stage: i32,
    pub stage_detail: Seq<char>,
    pub error_detail: Seq<char>,
}

impl View for HealthCheckResponse {
    type V = HealthCheckResponseView;

    open spec fn view(&self) -> HealthCheckResponseView {
        HealthCheckResponseView {
            status: self.status,
            stage: self.stage,
            stage_detail: self.stage_detail@,
            error_detail: self.error_detail@,
        }
    }
}

/// The number that a stage is reported as.
pub open spec fn stage_number(stage: Stage) -> i32 {
    match stage {
        Stage::Init => 1,
        Stage::Setup => 2,
        Stage::Cdc => 3,
    }
}

/// The health of a state: not serving if and only if set-up left an error
/// text or the pipeline is stopped.
pub open spec fn health_of(state: SharedStateView) -> HealthCheckResponseView {
    let error_detail = match state.setup_error {
        Some(e) => e,
        None => Seq::empty(),
    };
    HealthCheckResponseView {
        status: if error_detail.len() > 0 || state.state == CdcState::Stopped {
            ServingStatus::NotServing
        } else {
            ServingStatus::Serving
        },
        stage: stage_number(state.stage),
        stage_detail: state.stage_detail,
        error_detail,
    }
}

/// The health service's answer.
pub fn check(state: &SharedState) -> (r: HealthCheckResponse)
    ensures
        r@ == health_of(state@),
{
    let (stage, stage_detail) = state.get_stage();
    let error_detail = match state.get_setup_error() {
        Some(e) => e,
        None => String::new(),
    };
    let status = if error_detail.as_str().unicode_len() > 0 {
        ServingStatus::NotServing
    } else {
        match state.get_state() {
            CdcState::Running | CdcState::Paused | CdcState::Draining => ServingStatus::Serving,
            CdcState::Stopped => ServingStatus::NotServing,
        }
    };
    let proto_stage: i32 = match stage {
        Stage::Init => 1,
        Stage::Setup => 2,
        Stage::Cdc => 3,
    };
    HealthCheckResponse { status, stage: proto_stage, stage_detail, error_detail }
}

/// The answer of the control service.
#[derive(Debug, Clone, PartialEq, Eq)]
pub struct ControlResponse {
    pub success: bool,
    pub message: String,
}

/// A `ControlResponse` as plain values.
pub struct ControlResponseView {
    pub success: bool,
    pub message: Seq<char>,
}

impl View for ControlResponse {
    type V = ControlResponseView;

    open spec fn view(&self) -> ControlResponseView {
        ControlResponseView { success: self.success, message: self.message@ }
    }
}

/// The answer to a pause request made in state `from`: it succeeds if and
/// only if the pipeline was running.
pub open spec fn pause_answer(from: CdcState) -> ControlResponseView {
    match from {
        CdcState::Running => ControlResponseView {
            success: true,
            message: "CDC paused successfully"@,
        },
        CdcState::Paused => ControlResponseView {
            success: false,
            message: "CDC is already paused"@,
        },
        _ => ControlResponseView {
            success: false,
            message: "Cannot pause CDC in state: "@ + from.spec_name(),
        },
    }
}

/// The answer to a resume request made in state `from`: it succeeds if and
/// only if the pipeline was paused.
pub open spec fn resume_answer(from: CdcState) -> ControlResponseView {
    match from {
        CdcState::Paused => ControlResponseView {
            success: true,
            message: "CDC resumed successfully"@,
        },
        CdcState::Running => ControlResponseView {
            success: false,
            message: "CDC is already running"@,
        },
        _ => ControlResponseView {
            success: false,
            message: "Cannot resume CDC in state: "@ + from.spec_name(),
        },
    }
}

/// The answer to a drain request made in state `from`: it succeeds if and
/// only if the pipeline was running or paused.
pub open spec fn drain_answer(from: CdcState) -> ControlResponseView {
    match from {
        CdcState::Running | CdcState::Paused => ControlResponseView {
            success: true,
            message: "CDC is draining and will stop"@,
        },
        CdcState::Draining => ControlResponseView {
            success: false,
            message: "CDC is already draining"@,
        },
        CdcState::Stopped => ControlResponseView {
            success: false,
            message: "CDC is already stopped"@,
        },
    }
}

/// The answer to a stop request made in state `from`: it succeeds unless
/// the pipeline was stopped already.
pub open spec fn stop_answer(from: CdcState) -> ControlResponseView {
    match from {
        CdcState::Stopped => ControlResponseView {
            success: false,
            message: "CDC is already stopped"@,
        },
        _ => ControlResponseView { success: true, message: "CDC stopped immediately"@ },
    }
}

/// Pauses a running pipeline. In any other state nothing changes and the
/// answer says why.
pub fn pause(state: &mut SharedState) -> (r: ControlResponse)
    ensures
        r@ == pause_answer(old(state).state),
        final(state)@ == (SharedStateView {
            state: next_state(old(state).state, ControlEvent::Pause),
            ..old(state)@
        }),
{
    if state.compare_and_set_state(CdcState::Running, CdcState::Paused) {
        ControlResponse { success: true, message: copy_str("CDC paused successfully") }
    } else {
        let current = state.get_state();
        match current {
            CdcState::Paused => ControlResponse {
                success: false,
                message: copy_str("CDC is already paused"),
            },
            _ => {
                let mut message = String::from_str("Cannot pause CDC in state: ");
                message.append(current.name());
                ControlResponse { success: false, message }
            },
        }
    }
}

/// Resumes a paused pipeline. In any other state nothing changes and the
/// answer says why.
pub fn resume(state: &mut SharedState) -> (r: ControlResponse)
    ensures
        r@ == resume_answer(old(state).state),
        final(state)@ == (SharedStateView {
            state: next_state(old(state).state, ControlEvent::Resume),
            ..old(state)@
        }),
{
    if state.compare_and_set_state(CdcState::Paused, CdcState::Running) {
        ControlResponse { success: true, message: copy_str("CDC resumed successfully") }
    } else {
        let current = state.get_state();
        match current {
            CdcState::Running => ControlResponse {
                success: false,
                message: copy_str("CDC is already running"),
            },
            _ => {
                let mut message = String::from_str("Cannot resume CDC in state: ");
                message.append(current.name());
                ControlResponse { success: false, message }
            },
        }
    }
}

/// Starts a drain of a running or paused pipeline and signals shutdown. In
/// any other state nothing changes.
pub fn drain_and_stop(state: &mut SharedState) -> (r: ControlResponse)
    ensures
        r@ == drain_answer(old(state).state),
        final(state)@ == (SharedStateView {
            state: next_state(old(state).state, ControlEvent::Drain),
            shutdown: old(state).shutdown || r.success,
            ..old(state)@
        }),
{
    let current = state.get_state();
    match current {
        CdcState::Running | CdcState::Paused => {
            state.compare_and_set_state(current, CdcState::Draining);
            state.notify_shutdown();
            ControlResponse { success: true, message: copy_str("CDC is draining and will stop") }
        },
        CdcState::Draining => ControlResponse {
            success: false,
            message: copy_str("CDC is already draining"),
        },
        CdcState::Stopped => ControlResponse {
            success: false,
            message: copy_str("CDC is already stopped"),
        },
    }
}

/// Stops the pipeline at once and signals shutdown, unless it was stopped
/// already.
pub fn stop(state: &mut SharedState) -> (r: ControlResponse)
    ensures
        r@ == stop_answer(old(state).state),
        final(state)@ == (SharedStateView {
            state: next_state(old(state).state, ControlEvent::Stop),
            shutdown: old(state).shutdown || r.success,
            ..old(state)@
        }),
{
    let current = state.get_state();
    match current {
        CdcState::Stopped => ControlResponse {
            success: false,
            message: copy_str("CDC is already stopped"),
        },
        _ => {
            state.compare_and_set_state(current, CdcState::Stopped);
            state.notify_shutdown();
            ControlResponse { success: true, message: copy_str("CDC stopped immediately") }
        },
    }
}

/// New values for the reloadable configuration; 0 and the empty list mean
/// "keep the current value".
#[derive(Debug, Clone, PartialEq, Eq)]
pub struct ReloadConfigRequest {
    pub flush_size: u32,
    pub flush_interval_ms: u64,
    pub tables: Vec<String>,
}

/// A `ReloadConfigRequest` as plain values.
pub struct ReloadConfigRequestView {
    pub flush_size: u32,
    pub flush_interval_ms: u64,
    pub tables: Seq<Seq<char>>,
}

impl View for ReloadConfigRequest {
    type V = ReloadConfigRequestView;

    open spec fn view(&self) -> ReloadConfigRequestView {
        ReloadConfigRequestView {
            flush_size: self.flush_size,
            flush_interval_ms: self.flush_interval_ms,
            tables: self.tables.deep_view(),
        }
    }
}

/// The changes that a reload request asks for, one text for each, in the
/// order flush size, flush interval, tables.
pub open spec fn reload_changes(request: ReloadConfigRequestView) -> Seq<Seq<char>> {
    let size = if request.flush_size > 0 {
        seq!["flush_size="@ + decimal(request.flush_size as nat)]
    } else {
        Seq::empty()
    };
    let interval = if request.flush_interval_ms > 0 {
        seq!["flush_interval_ms="@ + decimal(request.flush_interval_ms as nat)]
    } else {
        Seq::empty()
    };
    let tables = if request.tables.len() > 0 {
        seq!["tables="@ + debug_text(request.tables)]
    } else {
        Seq::empty()
    };
    size + interval + tables
}

/// The configuration after a reload request.
pub open spec fn reloaded_config(
    config: CdcConfigView,
    request: ReloadConfigRequestView,
) -> CdcConfigView {
    CdcConfigView {
        flush_size: if request.flush_size > 0 {
            request.flush_size as usize
        } else {
            config.flush_size
        },
        flush_interval_ms: if request.flush_interval_ms > 0 {
            request.flush_interval_ms
        } else {
            config.flush_interval_ms
        },
        tables: if request.tables.len() > 0 {
            request.tables
        } else {
            config.tables
        },
        slot_name: config.slot_name,
    }
}

/// The answer to a reload request.
pub open spec fn reload_answer(request: ReloadConfigRequestView) -> ControlResponseView {
    let changes = reload_changes(request);
    if changes.len() == 0 {
        ControlResponseView {
            success: false,
            message: "No configuration changes provided (use 0 to keep current values)"@,
        }
    } else {
        ControlResponseView {
            success: true,
            message: "Configuration reloaded: "@ + join(changes, ", "@),
        }
    }
}

/// Takes the values of a reload request into the configuration. A value of
/// 0, or an empty list of tables, keeps what was configured; a request that
/// changes nothing is answered as a failure.
pub fn reload_config(state: &mut SharedState, request: &ReloadConfigRequest) -> (r:
    ControlResponse)
    ensures
        r@ == reload_answer(request@),
        final(state)@ == (SharedStateView {
            config: reloaded_config(old(state)@.config, request@),
            ..old(state)@
        }),
{
    let mut changes: Vec<String> = Vec::new();
    if request.flush_size > 0 {
        state.config.flush_size = request.flush_size as usize;
        let mut change = String::from_str("flush_size=");
        change.append(decimal_text(request.flush_size as u64).as_str());
        changes.push(change);
    }
    if request.flush_interval_ms > 0 {
        state.config.flush_interval_ms = request.flush_interval_ms;
        let mut change = String::from_str("flush_interval_ms=");
        change.append(decimal_text(request.flush_interval_ms).as_str());
        changes.push(change);
    }
    assert(changes.deep_view() =~= reload_changes(
        ReloadConfigRequestView { tables: Seq::empty(), ..request@ },
    ));
    if request.tables.len() > 0 {
        state.config.tables = copy_texts(&request.tables);
        let mut change = String::from_str("tables=");
        change.append(debug_of_list(&request.tables).as_str());
        let ghost before = changes.deep_view();
        changes.push(change);
        assert(changes.deep_view() =~= before.push(change@));
    }
    if changes.len() == 0 {
        ControlResponse {
            success: false,
            message: copy_str("No configuration changes provided (use 0 to keep current values)"),
        }
    } else {
        let mut message = String::from_str("Configuration reloaded: ");
        message.append(join_texts(&changes, ", ").as_str());
        ControlResponse { success: true, message }
    }
}

/// The answer of the status service.
#[derive(Debug, Clone, PartialEq, Eq)]
pub struct StatusResponse {
    pub state: CdcState,
    pub current_lsn: u64,
    pub confirmed_lsn: u64,
    pub pending_events: u64,
    pub slot_name: String,
    pub tables: Vec<String>,
}

/// A `StatusResponse` as plain values.
pub struct StatusResponseView {
    pub state: CdcState,
    pub current_lsn: u64,
    pub confirmed_lsn: u64,
    pub pending_events: u64,
    pub slot_name: Seq<char>,
    pub tables: Seq<Seq<char>>,
}

impl View for StatusResponse {
    type V = StatusResponseView;

    open spec fn view(&self) -> StatusResponseView {
        StatusResponseView {
            state: self.state,
            current_lsn: self.current_lsn,
            confirmed_lsn: self.confirmed_lsn,
            pending_events: self.pending_events,
            slot_name: self.slot_name@,
            tables: self.tables.deep_view(),
        }
    }
}

/// The status service's answer: the control state, the LSN counters, the
/// pending events, the slot and the tables.
pub fn get_status(state: &SharedState) -> (r: StatusResponse)
    ensures
        r@ == (StatusResponseView {
            state: state.state,
            current_lsn: state.current_lsn,
            confirmed_lsn: state.confirmed_lsn,
            pending_events: state.pending_events,
            slot_name: state.config.slot_name@,
            tables: state.config.tables.deep_view(),
        }),
{
    StatusResponse {
        state: state.get_state(),
        current_lsn: state.get_current_lsn(),
        confirmed_lsn: state.get_confirmed_lsn(),
        pending_events: state.get_pending_events(),
        slot_name: state.config.slot_name.clone(),
        tables: copy_texts(&state.config.tables),
    }
}

/// One sample of the metrics stream. The rate of events is left to the
/// receiver: it is `events_in_interval` over the time since the sample
/// before.
#[derive(Debug, Clone, Copy, PartialEq, Eq, Structural)]
pub struct MetricsResponse {
    pub timestamp: u64,
    pub events_in_interval: u64,
    pub lag_bytes: u64,
    pub lag_events: u64,
    pub memory_bytes: u64,
    pub total_events_processed: u64,
    pub total_batches_sent: u64,
}

/// A metrics stream: its period and the event count at its last sample.
#[derive(Debug, Clone, Copy, PartialEq, Eq, Structural)]
pub struct MetricsStream {
    pub interval_ms: u32,
    pub last_events: u64,
}

/// The request for a metrics stream named an interval of 0.
#[derive(Debug, Clone, Copy, PartialEq, Eq, Structural)]
pub struct InvalidInterval;

impl InvalidInterval {
    /// The text of the error.
    pub fn message(&self) -> (r: &'static str)
        ensures
            r@ == "interval_ms must be > 0"@,
    {
        "interval_ms must be > 0"
    }
}

/// `a - b`, or 0 where `b` is the larger.
pub open spec fn difference_or_zero(a: u64, b: u64) -> u64 {
    if a >= b {
        (a - b) as u64
    } else {
        0
    }
}

/// Opens a metrics stream with the given period. A period of 0 is an invalid
/// argument.
pub fn stream_metrics(state: &SharedState, interval_ms: u32) -> (r: Result<
    MetricsStream,
    InvalidInterval,
>)
    ensures
        interval_ms == 0 ==> r == Err::<MetricsStream, InvalidInterval>(InvalidInterval),
        interval_ms != 0 ==> r == Ok::<MetricsStream, InvalidInterval>(
            MetricsStream { interval_ms, last_events: state.events_processed },
        ),
{
    if interval_ms == 0 {
        return Err(InvalidInterval);
    }
    Ok(MetricsStream { interval_ms, last_events: state.get_events_processed() })
}

impl MetricsStream {
    /// Takes the sample of one tick at the time `timestamp`, in seconds since
    /// the epoch. The lag in bytes is the distance from the confirmed to the
    /// current LSN, 0 where the confirmed one is ahead.
    pub fn sample(&mut self, state: &SharedState, timestamp: u64) -> (r: MetricsResponse)
        requires
            state.pending_events * EVENT_SIZE_ESTIMATE <= u64::MAX,
        ensures
            r == (MetricsResponse {
                timestamp,
                events_in_interval: difference_or_zero(
                    state.events_processed,
                    old(self).last_events,
                ),
                lag_bytes: difference_or_zero(state.current_lsn, state.confirmed_lsn),
                lag_events: state.pending_events,
                memory_bytes: (state.pending_events * EVENT_SIZE_ESTIMATE) as u64,
                total_events_processed: state.events_processed,
                total_batches_sent: state.batches_sent,
            }),
            *final(self) == (MetricsStream {
                interval_ms: old(self).interval_ms,
                last_events: state.events_processed,
            }),
    {
        let current_events = state.get_events_processed();
        let events_in_interval = current_events.saturating_sub(self.last_events);
        self.last_events = current_events;
        let lag_bytes = state.get_current_lsn().saturating_sub(state.get_confirmed_lsn());
        MetricsResponse {
            timestamp,
            events_in_interval,
            lag_bytes,
            lag_events: state.get_pending_events(),
            memory_bytes: state.estimate_memory(),
            total_events_processed: current_events,
            total_batches_sent: state.get_batches_sent(),
        }
    }
}

} // verus!
