//! The orchestrator: what each turn of the main loop decides. The loop
//! itself waits on the replication stream, on the feedback of the batcher
//! and on the shutdown signal; here is what it does with what it got.

pub mod relay;

use crate::config::{Config, ConfigView};
use crate::grpc::state::{
    next_state, CdcConfig, CdcConfigView, CdcState, ControlEvent, SharedState, SharedStateView,
    Stage,
};
use crate::pipeline::schema_cache::{
    opt_delta, SchemaCache, SchemaDelta, SchemaDeltaView, TableSchemaView,
};
use crate::pipeline::Pipeline;
use crate::replication::wal_handler::{
    cache_after_xlog, handle_keepalive, handle_xlog_data, state_after_xlog, xlog_outcome, CdcEvent,
    CdcEventView, WalMessage, WalMessageView, XLogOutcome, XLogOutcomeView,
};
use crate::setup::error::{grpc_message, SetupError};
use crate::sink::starrocks::StarRocksSink;
use crate::source::postgres::standby_status_frame;
use crate::source::wire::ParseError;
use crate::text::copy_texts;
use vstd::prelude::*;

verus! {

/// What the main loop does next.
#[derive(Debug, Clone, Copy, PartialEq, Eq, Structural)]
pub enum ControlFlow {
    /// Wait a moment, then begin the next turn.
    Continue,
    /// Leave the loop.
    Break,
}

/// Turns of the main loop between two looks at the control state.
pub const STATE_CHECK_PERIOD: u64 = 256;

/// Milliseconds that a paused loop waits before its next turn.
pub const PAUSE_SLEEP_MS: u64 = 100;

/// Depth of the channel that carries confirmed LSNs back from the batcher.
pub const FEEDBACK_CHANNEL_DEPTH: usize = 100;

/// What the main loop does in a control state, where `drained` says that the
/// event channel is empty: it leaves when stopped, and when draining with
/// nothing left in the channel; it waits when paused; else it goes on.
pub open spec fn control_flow(state: CdcState, drained: bool) -> Option<ControlFlow> {
    match state {
        CdcState::Stopped => Some(ControlFlow::Break),
        CdcState::Draining => if drained {
            Some(ControlFlow::Break)
        } else {
            None
        },
        CdcState::Paused => Some(ControlFlow::Continue),
        CdcState::Running => None,
    }
}

/// The control state after the main loop looked at it: a drain whose
/// channel is empty ends in `Stopped`; nothing else changes.
pub open spec fn state_after_check(state: CdcState, drained: bool) -> CdcState {
    if drained {
        next_state(state, ControlEvent::QueueEmpty)
    } else {
        state
    }
}

/// What a frame leads to.
#[derive(Debug, Clone, PartialEq, Eq)]
pub enum FrameAction {
    /// Put the event into the channel, waiting while the channel is full;
    /// the schema change, if there is one, goes to the batcher with it.
    Forward { event: CdcEvent, delta: Option<SchemaDelta> },
    /// Send the standby status update to the server.
    Reply(Vec<u8>),
    /// Nothing is to be done.
    Nothing,
    /// The payload could not be decoded; the frame is passed over.
    Malformed(ParseError),
    /// The frame has an unknown tag and is passed over.
    Unknown(u8),
}

/// A `FrameAction` as plain values.
pub enum FrameActionView {
    Forward { event: CdcEventView, delta: Option<SchemaDeltaView> },
    Reply(Seq<u8>),
    Nothing,
    Malformed(ParseError),
    Unknown(u8),
}

impl View for FrameAction {
    type V = FrameActionView;

    open spec fn view(&self) -> FrameActionView {
        match self {
            FrameAction::Forward { event, delta } => FrameActionView::Forward {
                event: event@,
                delta: opt_delta(*delta),
            },
            FrameAction::Reply(frame) => FrameActionView::Reply(frame@),
            FrameAction::Nothing => FrameActionView::Nothing,
            FrameAction::Malformed(e) => FrameActionView::Malformed(*e),
            FrameAction::Unknown(tag) => FrameActionView::Unknown(*tag),
        }
    }
}

/// What a frame leads to: WAL data is decoded and, where it holds a
/// message, forwarded; a keep-alive that asks for a reply is answered with
/// the standby status update for the LSN confirmed last; anything else
/// leads to nothing.
pub open spec fn frame_action(
    frame: WalMessageView,
    confirmed_lsn: u64,
    timestamp: u64,
    cache: Map<u32, TableSchemaView>,
) -> FrameActionView {
    match frame {
        WalMessageView::XLogData { lsn, data } => match xlog_outcome(data, lsn, cache) {
            XLogOutcomeView::Forward { event, delta } => FrameActionView::Forward { event, delta },
            XLogOutcomeView::Nothing => FrameActionView::Nothing,
            XLogOutcomeView::Malformed(e) => FrameActionView::Malformed(e),
        },
        WalMessageView::KeepAlive { lsn, reply_requested } => if reply_requested {
            FrameActionView::Reply(standby_status_frame(confirmed_lsn, timestamp))
        } else {
            FrameActionView::Nothing
        },
        WalMessageView::Unknown(tag) => FrameActionView::Unknown(tag),
    }
}

/// The LSN that a frame reports: its own, or 0 for a frame of unknown tag.
pub open spec fn frame_lsn(frame: WalMessageView) -> u64 {
    match frame {
        WalMessageView::XLogData { lsn, .. } => lsn,
        WalMessageView::KeepAlive { lsn, .. } => lsn,
        WalMessageView::Unknown(_) => 0,
    }
}

/// The shared state after a frame: only WAL data changes it.
pub open spec fn state_after_frame(
    state: SharedStateView,
    frame: WalMessageView,
    free_slots: usize,
    flush_size: usize,
    cache: Map<u32, TableSchemaView>,
) -> SharedStateView {
    match frame {
        WalMessageView::XLogData { lsn, data } => state_after_xlog(
            state,
            xlog_outcome(data, lsn, cache),
            lsn,
            free_slots,
            flush_size,
        ),
        _ => state,
    }
}

/// The cache of relations after a frame: only WAL data that describes a
/// relation changes it.
pub open spec fn cache_after_frame(
    cache: Map<u32, TableSchemaView>,
    frame: WalMessageView,
) -> Map<u32, TableSchemaView> {
    match frame {
        WalMessageView::XLogData { lsn, data } => cache_after_xlog(
            cache,
            xlog_outcome(data, lsn, cache),
        ),
        _ => cache,
    }
}

/// A step of start-up, in the order in which the steps are taken.
#[derive(Debug, Clone, Copy, PartialEq, Eq, Structural)]
pub enum StartupStep {
    StartGrpcServer,
    RunSetup,
    LoadCheckpoint,
    ConnectSource,
    StartReplication,
    ConnectSink,
    InitPipeline,
    Replicate,
}

/// The stage that a step of start-up belongs to.
pub open spec fn step_stage(step: StartupStep) -> Stage {
    match step {
        StartupStep::Replicate => Stage::Cdc,
        _ => Stage::Setup,
    }
}

/// What the process reports that it is doing in a step of start-up.
pub open spec fn step_detail(step: StartupStep) -> Seq<char> {
    match step {
        StartupStep::StartGrpcServer => "Starting gRPC server"@,
        StartupStep::RunSetup => "Running automatic setup"@,
        StartupStep::LoadCheckpoint => "Loading checkpoint"@,
        StartupStep::ConnectSource => "Connecting to PostgreSQL"@,
        StartupStep::StartReplication => "Starting replication stream"@,
        StartupStep::ConnectSink => "Connecting to StarRocks"@,
        StartupStep::InitPipeline => "Initializing pipeline"@,
        StartupStep::Replicate => "Replicating"@,
    }
}

/// The step after a step of start-up; `Replicate` is the last.
pub open spec fn step_after(step: StartupStep) -> StartupStep {
    match step {
        StartupStep::StartGrpcServer => StartupStep::RunSetup,
        StartupStep::RunSetup => StartupStep::LoadCheckpoint,
        StartupStep::LoadCheckpoint => StartupStep::ConnectSource,
        StartupStep::ConnectSource => StartupStep::StartReplication,
        StartupStep::StartReplication => StartupStep::ConnectSink,
        StartupStep::ConnectSink => StartupStep::InitPipeline,
        StartupStep::InitPipeline => StartupStep::Replicate,
        StartupStep::Replicate => StartupStep::Replicate,
    }
}

/// The orchestrator.
#[derive(Debug, Clone, PartialEq, Eq)]
pub struct CdcEngine {
    pub config: Config,
    pub shared_state: SharedState,
    /// The latest description of each relation: written as frames are
    /// decoded, read when a batch is turned into loads.
    pub schema_cache: SchemaCache,
    /// Turns of the main loop so far; it starts again at 0 after the largest
    /// value.
    pub iteration: u64,
}

/// The reloadable configuration that a configuration starts with.
pub open spec fn cdc_config_of(config: ConfigView) -> CdcConfigView {
    CdcConfigView {
        flush_size: config.flush_size,
        flush_interval_ms: config.flush_interval_ms,
        tables: config.tables,
        slot_name: config.slot_name,
    }
}

/// The turn counter after one more turn.
pub open spec fn next_iteration(iteration: u64) -> u64 {
    if iteration == u64::MAX {
        0
    } else {
        (iteration + 1) as u64
    }
}

/// Whether the control state is looked at in the turn number `iteration`:
/// in every 256th.
pub open spec fn state_check_due(iteration: u64) -> bool {
    iteration % STATE_CHECK_PERIOD == 0
}

proof fn lemma_low_byte(x: u64)
    by (bit_vector)
    ensures
        (x & 0xFF == 0) == (x % 256 == 0),
{
}

impl CdcEngine {
    /// An orchestrator for `config`, with the shared state of a fresh
    /// start.
    pub fn new(config: Config) -> (r: Self)
        ensures
            r.config@ == config@,
            r.iteration == 0,
            r.schema_cache@ == Map::<u32, TableSchemaView>::empty(),
            r.shared_state@ == (SharedStateView {
                state: CdcState::Running,
                stage: Stage::Init,
                stage_detail: "Initializing"@,
                setup_error: None,
                current_lsn: 0,
                confirmed_lsn: 0,
                pending_events: 0,
                events_processed: 0,
                batches_sent: 0,
                shutdown: false,
                config: cdc_config_of(config@),
                events_last_second: 0,
            }),
    {
        let cdc_config = CdcConfig {
            flush_size: config.flush_size,
            flush_interval_ms: config.flush_interval_ms,
            tables: copy_texts(&config.tables),
            slot_name: config.slot_name.clone(),
        };
        let shared_state = SharedState::new(cdc_config);
        CdcEngine { config, shared_state, schema_cache: SchemaCache::new(), iteration: 0 }
    }

    /// Enters a step of start-up: the stage and what is being done are
    /// recorded, and the step that follows is returned.
    pub fn run(&mut self, step: StartupStep) -> (r: StartupStep)
        ensures
            r == step_after(step),
            final(self).config == old(self).config,
            final(self).iteration == old(self).iteration,
            final(self).schema_cache@ == old(self).schema_cache@,
            final(self).shared_state@ == (SharedStateView {
                stage: step_stage(step),
                stage_detail: step_detail(step),
                ..old(self).shared_state@
            }),
    {
        match step {
            StartupStep::StartGrpcServer => {
                self.shared_state.set_stage(Stage::Setup, "Starting gRPC server");
                StartupStep::RunSetup
            },
            StartupStep::RunSetup => {
                self.shared_state.set_stage(Stage::Setup, "Running automatic setup");
                StartupStep::LoadCheckpoint
            },
            StartupStep::LoadCheckpoint => {
                self.shared_state.set_stage(Stage::Setup, "Loading checkpoint");
                StartupStep::ConnectSource
            },
            StartupStep::ConnectSource => {
                self.shared_state.set_stage(Stage::Setup, "Connecting to PostgreSQL");
                StartupStep::StartReplication
            },
            StartupStep::StartReplication => {
                self.shared_state.set_stage(Stage::Setup, "Starting replication stream");
                StartupStep::ConnectSink
            },
            StartupStep::ConnectSink => {
                self.shared_state.set_stage(Stage::Setup, "Connecting to StarRocks");
                StartupStep::InitPipeline
            },
            StartupStep::InitPipeline => {
                self.shared_state.set_stage(Stage::Setup, "Initializing pipeline");
                StartupStep::Replicate
            },
            StartupStep::Replicate => {
                self.shared_state.set_stage(Stage::Cdc, "Replicating");
                StartupStep::Replicate
            },
        }
    }

    /// Records that set-up failed: the error's sentence becomes the set-up
    /// error of the shared state, and the stage detail says that set-up
    /// failed. Replication is not started after this.
    pub fn setup_failed(&mut self, error: &SetupError)
        ensures
            final(self).config == old(self).config,
            final(self).iteration == old(self).iteration,
            final(self).schema_cache@ == old(self).schema_cache@,
            final(self).shared_state@ == (SharedStateView {
                setup_error: Some(grpc_message(error@)),
                stage: Stage::Setup,
                stage_detail: "Setup failed"@,
                ..old(self).shared_state@
            }),
    {
        self.shared_state.set_setup_error(Some(error.to_grpc_message()));
        self.shared_state.set_stage(Stage::Setup, "Setup failed");
    }

    /// Takes the checkpoint that the store holds for the slot: replication
    /// starts from it, or from 0 where the store holds none, and the current
    /// and the confirmed LSN start there too.
    pub fn load_checkpoint(&mut self, last_lsn: Option<u64>) -> (r: u64)
        ensures
            r == match last_lsn {
                Some(lsn) => lsn,
                None => 0,
            },
            final(self).config == old(self).config,
            final(self).iteration == old(self).iteration,
            final(self).schema_cache@ == old(self).schema_cache@,
            final(self).shared_state@ == (SharedStateView {
                current_lsn: r,
                confirmed_lsn: r,
                ..old(self).shared_state@
            }),
    {
        let start_lsn = match last_lsn {
            Some(lsn) => lsn,
            None => 0,
        };
        self.shared_state.update_lsn(start_lsn);
        self.shared_state.confirm_lsn(start_lsn);
        start_lsn
    }

    /// The sink that the configuration names.
    pub fn init_sink(&self) -> (r: StarRocksSink)
        ensures
            r@ == crate::sink::starrocks::sink_for(
                self.config.starrocks_url@,
                self.config.starrocks_db@,
                self.config.starrocks_user@,
                self.config.starrocks_pass@,
            ),
    {
        StarRocksSink::new(
            self.config.starrocks_url.clone(),
            self.config.starrocks_db.clone(),
            self.config.starrocks_user.clone(),
            self.config.starrocks_pass.clone(),
        )
    }

    /// The batcher that the configuration asks for, and the depth of the
    /// event channel before it: twice the flush size.
    pub fn init_pipeline(&self, now_ms: u64) -> (r: (Pipeline, usize))
        requires
            self.config.flush_size * 2 <= usize::MAX,
        ensures
            r.0@ == (crate::pipeline::PipelineView {
                batch: Seq::empty(),
                last_flush_ms: now_ms,
                flush_size: self.config.flush_size,
                flush_interval_ms: self.config.flush_interval_ms,
                pending_deltas: Seq::empty(),
            }),
            r.1 == self.config.flush_size * 2,
    {
        (
            Pipeline::new(self.config.flush_size, self.config.flush_interval_ms, now_ms),
            self.config.flush_size * 2,
        )
    }

    /// Begins a turn of the main loop: the turn is counted, and in every
    /// 256th turn the control state is looked at. `free_slots` is the number
    /// of free slots of the event channel.
    pub fn run_main_loop(&mut self, free_slots: usize) -> (r: Option<ControlFlow>)
        requires
            old(self).config.flush_size * 2 <= usize::MAX,
        ensures
            final(self).config == old(self).config,
            final(self).schema_cache@ == old(self).schema_cache@,
            final(self).iteration == next_iteration(old(self).iteration),
            state_check_due(final(self).iteration) ==> {
                &&& r == control_flow(
                    old(self).shared_state.state,
                    free_slots == old(self).config.flush_size * 2,
                )
                &&& final(self).shared_state@ == (SharedStateView {
                    state: if old(self).shared_state.state == CdcState::Draining {
                        state_after_check(
                            old(self).shared_state.state,
                            free_slots == old(self).config.flush_size * 2,
                        )
                    } else {
                        old(self).shared_state.state
                    },
                    ..old(self).shared_state@
                })
            },
            !state_check_due(final(self).iteration) ==> r is None && final(self).shared_state@
                == old(self).shared_state@,
    {
        self.iteration = self.iteration.wrapping_add(1);
        proof {
            lemma_low_byte(self.iteration);
        }
        if self.iteration & 0xFF == 0 {
            self.check_state_control_sync(free_slots)
        } else {
            None
        }
    }

    /// Looks at the control state. A stopped pipeline leaves the loop. A
    /// draining one leaves it once the event channel is empty, and is
    /// stopped from then on. A paused one waits. A running one goes on.
    pub fn check_state_control_sync(&mut self, free_slots: usize) -> (r: Option<ControlFlow>)
        requires
            old(self).config.flush_size * 2 <= usize::MAX,
        ensures
            r == control_flow(
                old(self).shared_state.state,
                free_slots == old(self).config.flush_size * 2,
            ),
            final(self).config == old(self).config,
            final(self).iteration == old(self).iteration,
            final(self).schema_cache@ == old(self).schema_cache@,
            final(self).shared_state@ == (SharedStateView {
                state: if old(self).shared_state.state == CdcState::Draining {
                    state_after_check(
                        old(self).shared_state.state,
                        free_slots == old(self).config.flush_size * 2,
                    )
                } else {
                    old(self).shared_state.state
                },
                ..old(self).shared_state@
            }),
    {
        match self.shared_state.get_state() {
            CdcState::Stopped => Some(ControlFlow::Break),
            CdcState::Draining => {
                if free_slots == self.config.flush_size * 2 {
                    self.shared_state.set_state(CdcState::Stopped);
                    Some(ControlFlow::Break)
                } else {
                    None
                }
            },
            CdcState::Paused => Some(ControlFlow::Continue),
            CdcState::Running => None,
        }
    }

    /// Takes a frame in and says what it leads to and which LSN it reports.
    /// `free_slots` is the number of free slots of the event channel and
    /// `timestamp` the time for a reply, in microseconds since 2000-01-01.
    pub fn handle_replication_message(
        &mut self,
        msg: WalMessage,
        free_slots: usize,
        timestamp: u64,
    ) -> (r: (FrameAction, u64))
        requires
            old(self).config.flush_size * 2 <= usize::MAX,
            free_slots <= old(self).config.flush_size * 2,
        ensures
            r.0@ == frame_action(
                msg@,
                old(self).shared_state.confirmed_lsn,
                timestamp,
                old(self).schema_cache@,
            ),
            r.1 == frame_lsn(msg@),
            final(self).config == old(self).config,
            final(self).iteration == old(self).iteration,
            final(self).schema_cache@ == cache_after_frame(old(self).schema_cache@, msg@),
            final(self).shared_state@ == state_after_frame(
                old(self).shared_state@,
                msg@,
                free_slots,
                old(self).config.flush_size,
                old(self).schema_cache@,
            ),
    {
        match msg {
            WalMessage::XLogData { lsn, data } => {
                let outcome = handle_xlog_data(
                    &data,
                    lsn,
                    free_slots,
                    &mut self.shared_state,
                    self.config.flush_size,
                    &mut self.schema_cache,
                );
                let action = match outcome {
                    XLogOutcome::Forward { event, delta } => FrameAction::Forward { event, delta },
                    XLogOutcome::Nothing => FrameAction::Nothing,
                    XLogOutcome::Malformed(e) => FrameAction::Malformed(e),
                };
                (action, lsn)
            },
            WalMessage::KeepAlive { lsn, reply_requested } => {
                let confirmed = self.shared_state.get_confirmed_lsn();
                let action = match handle_keepalive(confirmed, reply_requested, timestamp) {
                    Some(frame) => FrameAction::Reply(frame),
                    None => FrameAction::Nothing,
                };
                (action, lsn)
            },
            WalMessage::Unknown(tag) => (FrameAction::Unknown(tag), 0),
        }
    }

    /// Takes in an LSN that the batcher confirmed: it becomes the confirmed
    /// LSN of the shared state, and is returned to be saved as the
    /// checkpoint of the slot.
    pub fn handle_checkpoint_feedback(&mut self, confirmed_lsn: u64) -> (r: (String, u64))
        ensures
            r.0@ == old(self).config.slot_name@,
            r.1 == confirmed_lsn,
            final(self).config == old(self).config,
            final(self).iteration == old(self).iteration,
            final(self).schema_cache@ == old(self).schema_cache@,
            final(self).shared_state@ == (SharedStateView {
                confirmed_lsn,
                ..old(self).shared_state@
            }),
    {
        self.shared_state.confirm_lsn(confirmed_lsn);
        (self.config.slot_name.clone(), confirmed_lsn)
    }
}

/// The standby status update that follows a checkpoint: the one for the LSN
/// that was saved, or none where saving failed, so that the server is not
/// told of an LSN that the store does not hold.
pub fn checkpoint_reply(confirmed_lsn: u64, saved: bool, timestamp: u64) -> (r: Option<Vec<u8>>)
    ensures
        saved ==> (r matches Some(frame) && frame@ == standby_status_frame(
            confirmed_lsn,
            timestamp,
        )),
        !saved ==> r is None,
{
    handle_keepalive(confirmed_lsn, saved, timestamp)
}

} // verus!
