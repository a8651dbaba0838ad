//! The state that the pipeline and the control plane share: the control
//! state, the stage of start-up, the LSN and event counters, the shutdown
//! flag and the reloadable part of the configuration.

use crate::text::{copy_str, opt_text};
use vstd::prelude::*;

verus! {

/// The four states of the replication control plane.
#[derive(Debug, Clone, Copy, PartialEq, Eq, Structural)]
pub enum CdcState {
    Running,
    Paused,
    Draining,
    Stopped,
}

impl CdcState {
    /// The state that a stored byte stands for: 0, 1 and 2 are the first
    /// three states, every other byte reads as `Stopped`.
    pub open spec fn spec_from_u8(v: u8) -> CdcState {
        if v == 0 {
            CdcState::Running
        } else if v == 1 {
            CdcState::Paused
        } else if v == 2 {
            CdcState::Draining
        } else {
            CdcState::Stopped
        }
    }

    /// The byte that a state is stored as.
    pub open spec fn spec_as_u8(self) -> u8 {
        match self {
            CdcState::Running => 0,
            CdcState::Paused => 1,
            CdcState::Draining => 2,
            CdcState::Stopped => 3,
        }
    }

    /// The name of a state, as it appears in messages.
    pub open spec fn spec_name(self) -> Seq<char> {
        match self {
            CdcState::Running => "Running"@,
            CdcState::Paused => "Paused"@,
            CdcState::Draining => "Draining"@,
            CdcState::Stopped => "Stopped"@,
        }
    }

    /// Reads a state from its stored byte.
    pub fn from_u8(v: u8) -> (s: CdcState)
        ensures
            s == Self::spec_from_u8(v),
    {
        match v {
            0 => CdcState::Running,
            1 => CdcState::Paused,
            2 => CdcState::Draining,
            _ => CdcState::Stopped,
        }
    }

    /// The byte that the state is stored as.
    pub fn as_u8(self) -> (v: u8)
        ensures
            v == self.spec_as_u8(),
            Self::spec_from_u8(v) == self,
    {
        match self {
            CdcState::Running => 0,
            CdcState::Paused => 1,
            CdcState::Draining => 2,
            CdcState::Stopped => 3,
        }
    }

    /// The name of the state.
    pub fn name(self) -> (r: &'static str)
        ensures
            r@ == self.spec_name(),
    {
        match self {
            CdcState::Running => "Running",
            CdcState::Paused => "Paused",
            CdcState::Draining => "Draining",
            CdcState::Stopped => "Stopped",
        }
    }
}

/// What can move the control state.
#[derive(Debug, Clone, Copy, PartialEq, Eq, Structural)]
pub enum ControlEvent {
    Pause,
    Resume,
    Drain,
    /// The event channel was found empty while draining.
    QueueEmpty,
    Stop,
}

/// The table of transitions: pause a running pipeline, resume a paused one,
/// drain a running or paused one, stop a drained one, stop from any state.
pub open spec fn transition_row(from: CdcState, event: ControlEvent, to: CdcState) -> bool {
    ||| from == CdcState::Running && event == ControlEvent::Pause && to == CdcState::Paused
    ||| from == CdcState::Paused && event == ControlEvent::Resume && to == CdcState::Running
    ||| (from == CdcState::Running || from == CdcState::Paused) && event == ControlEvent::Drain
        && to == CdcState::Draining
    ||| from == CdcState::Draining && event == ControlEvent::QueueEmpty && to
        == CdcState::Stopped
    ||| event == ControlEvent::Stop && to == CdcState::Stopped
}

/// The state after an event: the one that the table gives, or the same
/// state where the table has no row for the event in that state.
pub open spec fn next_state(from: CdcState, event: ControlEvent) -> CdcState {
    match event {
        ControlEvent::Pause => if from == CdcState::Running {
            CdcState::Paused
        } else {
            from
        },
        ControlEvent::Resume => if from == CdcState::Paused {
            CdcState::Running
        } else {
            from
        },
        ControlEvent::Drain => if from == CdcState::Running || from == CdcState::Paused {
            CdcState::Draining
        } else {
            from
        },
        ControlEvent::QueueEmpty => if from == CdcState::Draining {
            CdcState::Stopped
        } else {
            from
        },
        ControlEvent::Stop => CdcState::Stopped,
    }
}

/// The control state moves only along the rows of the transition table:
/// an event either takes the state to where its row says, or, where the
/// table has no row for it, leaves the state as it is.
pub proof fn lemma_only_listed_transitions(from: CdcState, event: ControlEvent, to: CdcState)
    ensures
        transition_row(from, event, to) ==> next_state(from, event) == to,
        next_state(from, event) == to ==> transition_row(from, event, to) || (to == from
            && forall|t: CdcState| !transition_row(from, event, t)),
{
}

/// Where the process is in its life: before set-up, in set-up, replicating.
#[derive(Debug, Clone, Copy, PartialEq, Eq, Structural)]
pub enum Stage {
    Init,
    Setup,
    Cdc,
}

/// The part of the configuration that can be reloaded while running.
#[derive(Debug, Clone, PartialEq, Eq)]
pub struct CdcConfig {
    pub flush_size: usize,
    pub flush_interval_ms: u64,
    pub tables: Vec<String>,
    pub slot_name: String,
}

/// A `CdcConfig` as plain values.
pub struct CdcConfigView {
    pub flush_size: usize,
    pub flush_interval_ms: u64,
    pub tables: Seq<Seq<char>>,
    pub slot_name: Seq<char>,
}

impl View for CdcConfig {
    type V = CdcConfigView;

    open spec fn view(&self) -> CdcConfigView {
        CdcConfigView {
            flush_size: self.flush_size,
            flush_interval_ms: self.flush_interval_ms,
            tables: self.tables.deep_view(),
            slot_name: self.slot_name@,
        }
    }
}

/// The shared state. One value of it stands for the whole block; whoever
/// shares it between tasks guards it.
#[derive(Debug, Clone, PartialEq, Eq)]
pub struct SharedState {
    pub state: CdcState,
    pub stage: Stage,
    pub stage_detail: String,
    pub setup_error: Option<String>,
    pub current_lsn: u64,
    pub confirmed_lsn: u64,
    pub pending_events: u64,
    pub events_processed: u64,
    pub batches_sent: u64,
    /// Whether shutdown has been signalled.
    pub shutdown: bool,
    pub config: CdcConfig,
    /// Events counted since the counter was last read.
    pub events_last_second: u64,
}

/// A `SharedState` as plain values.
pub struct SharedStateView {
    pub state: CdcState,
    pub stage: Stage,
    pub stage_detail: Seq<char>,
    pub setup_error: Option<Seq<char>>,
    pub current_lsn: u64,
    pub confirmed_lsn: u64,
    pub pending_events: u64,
    pub events_processed: u64,
    pub batches_sent: u64,
    pub shutdown: bool,
    pub config: CdcConfigView,
    pub events_last_second: u64,
}

impl View for SharedState {
    type V = SharedStateView;

    open spec fn view(&self) -> SharedStateView {
        SharedStateView {
            state: self.state,
            stage: self.stage,
            stage_detail: self.stage_detail@,
            setup_error: opt_text(self.setup_error),
            current_lsn: self.current_lsn,
            confirmed_lsn: self.confirmed_lsn,
            pending_events: self.pending_events,
            events_processed: self.events_processed,
            batches_sent: self.batches_sent,
            shutdown: self.shutdown,
            config: self.config@,
            events_last_second: self.events_last_second,
        }
    }
}

/// A counter after one more count; it starts again at 0 after the largest
/// value.
pub open spec fn counted(n: u64) -> u64 {
    if n == u64::MAX {
        0
    } else {
        (n + 1) as u64
    }
}

/// Bytes that one pending event is taken to hold.
pub const EVENT_SIZE_ESTIMATE: u64 = 1024;

impl SharedState {
    /// The state at start-up: running, stage `Init`, every counter 0, no
    /// shutdown signalled.
    pub fn new(config: CdcConfig) -> (r: Self)
        ensures
            r@ == (SharedStateView {
                state: CdcState::Running,
                stage: Stage::Init,
                stage_detail: "Initializing"@,
                setup_error: None,
                current_lsn: 0,
                confirmed_lsn: 0,
                pending_events: 0,
                events_processed: 0,
                batches_sent: 0,
                shutdown: false,
                config: config@,
                events_last_second: 0,
            }),
    {
        SharedState {
            state: CdcState::Running,
            stage: Stage::Init,
            stage_detail: copy_str("Initializing"),
            setup_error: None,
            current_lsn: 0,
            confirmed_lsn: 0,
            pending_events: 0,
            events_processed: 0,
            batches_sent: 0,
            shutdown: false,
            config,
            events_last_second: 0,
        }
    }

    /// Records the LSN of the frame last received.
    pub fn update_lsn(&mut self, lsn: u64)
        ensures
            final(self)@ == (SharedStateView { current_lsn: lsn, ..old(self)@ }),
    {
        self.current_lsn = lsn;
    }

    /// Records the LSN last confirmed by the sink.
    pub fn confirm_lsn(&mut self, lsn: u64)
        ensures
            final(self)@ == (SharedStateView { confirmed_lsn: lsn, ..old(self)@ }),
    {
        self.confirmed_lsn = lsn;
    }

    /// Counts one event, in the total and in the counter of the current
    /// second.
    pub fn increment_events(&mut self)
        ensures
            final(self)@ == (SharedStateView {
                events_processed: counted(old(self).events_processed),
                events_last_second: counted(old(self).events_last_second),
                ..old(self)@
            }),
    {
        self.events_processed = self.events_processed.wrapping_add(1);
        self.events_last_second = self.events_last_second.wrapping_add(1);
    }

    /// Counts one batch sent.
    pub fn increment_batches(&mut self)
        ensures
            final(self)@ == (SharedStateView {
                batches_sent: counted(old(self).batches_sent),
                ..old(self)@
            }),
    {
        self.batches_sent = self.batches_sent.wrapping_add(1);
    }

    /// Records how many events wait in the channel.
    pub fn set_pending(&mut self, count: u64)
        ensures
            final(self)@ == (SharedStateView { pending_events: count, ..old(self)@ }),
    {
        self.pending_events = count;
    }

    pub fn get_current_lsn(&self) -> (r: u64)
        ensures
            r == self.current_lsn,
    {
        self.current_lsn
    }

    pub fn get_confirmed_lsn(&self) -> (r: u64)
        ensures
            r == self.confirmed_lsn,
    {
        self.confirmed_lsn
    }

    pub fn get_pending_events(&self) -> (r: u64)
        ensures
            r == self.pending_events,
    {
        self.pending_events
    }

    pub fn get_events_processed(&self) -> (r: u64)
        ensures
            r == self.events_processed,
    {
        self.events_processed
    }

    pub fn get_batches_sent(&self) -> (r: u64)
        ensures
            r == self.batches_sent,
    {
        self.batches_sent
    }

    /// Reads the counter of the current second and starts it again at 0.
    pub fn get_events_last_second(&mut self) -> (r: u64)
        ensures
            r == old(self).events_last_second,
            final(self)@ == (SharedStateView { events_last_second: 0, ..old(self)@ }),
    {
        let r = self.events_last_second;
        self.events_last_second = 0;
        r
    }

    /// An estimate of the memory that the pending events hold: 1024 bytes
    /// for each.
    pub fn estimate_memory(&self) -> (r: u64)
        requires
            self.pending_events * EVENT_SIZE_ESTIMATE <= u64::MAX,
        ensures
            r == self.pending_events * EVENT_SIZE_ESTIMATE,
    {
        self.pending_events * EVENT_SIZE_ESTIMATE
    }

    /// Records the stage and what is being done in it.
    pub fn set_stage(&mut self, stage: Stage, detail: &str)
        ensures
            final(self)@ == (SharedStateView { stage, stage_detail: detail@, ..old(self)@ }),
    {
        self.stage = stage;
        self.stage_detail = copy_str(detail);
    }

    pub fn get_stage(&self) -> (r: (Stage, String))
        ensures
            r.0 == self.stage,
            r.1@ == self.stage_detail@,
    {
        (self.stage, self.stage_detail.clone())
    }

    /// Records why set-up failed, or that it did not.
    pub fn set_setup_error(&mut self, error: Option<String>)
        ensures
            final(self)@ == (SharedStateView { setup_error: opt_text(error), ..old(self)@ }),
    {
        self.setup_error = error;
    }

    pub fn get_setup_error(&self) -> (r: Option<String>)
        ensures
            opt_text(r) == opt_text(self.setup_error),
    {
        match &self.setup_error {
            Some(e) => Some(e.clone()),
            None => None,
        }
    }

    pub fn get_state(&self) -> (r: CdcState)
        ensures
            r == self.state,
    {
        self.state
    }

    /// Sets the control state, whatever it was. The control plane moves the
    /// state with `compare_and_set_state`; this is for the end of a drain.
    pub fn set_state(&mut self, state: CdcState)
        ensures
            final(self)@ == (SharedStateView { state, ..old(self)@ }),
    {
        self.state = state;
    }

    /// Moves the control state to `new` if it is `expected`, and says
    /// whether it did. Nothing changes otherwise.
    pub fn compare_and_set_state(&mut self, expected: CdcState, new: CdcState) -> (r: bool)
        ensures
            r == (old(self).state == expected),
            r ==> final(self)@ == (SharedStateView { state: new, ..old(self)@ }),
            !r ==> final(self)@ == old(self)@,
    {
        if self.state == expected {
            self.state = new;
            true
        } else {
            false
        }
    }

    /// Signals shutdown to whoever waits for it.
    pub fn notify_shutdown(&mut self)
        ensures
            final(self)@ == (SharedStateView { shutdown: true, ..old(self)@ }),
    {
        self.shutdown = true;
    }
}

} // verus!
