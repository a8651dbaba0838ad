//! The relay as a whole, as a model: the orchestrator takes frames in and
//! forwards events, the event channel carries them to the batcher, the
//! batcher hands out batches, and the orchestrator confirms what the batcher
//! reports. Every step of the orchestrator and of the batcher is what one
//! function of the library does; the channel is a bounded queue that makes
//! its sender wait when it is full. The model says in which orders the steps
//! can come, and what holds in all of them.

use crate::engine::{cache_after_frame, frame_action, state_after_frame, FrameActionView};
use crate::grpc::state::SharedStateView;
use crate::pipeline::schema_cache::{SchemaDeltaView, TableSchemaView};
use crate::pipeline::{
    after_trigger, batch_lsns, flush_job, lemma_lsn_max_is_maximum, lsn_max, step_taken,
    step_trigger, FlushTrigger, PipelineStep, PipelineView,
};
use crate::replication::wal_handler::{CdcEventView, WalMessageView};
use vstd::prelude::*;

verus! {

/// An event in the channel, with the schema change that travels with it.
pub type Carried = (CdcEventView, Option<SchemaDeltaView>);

/// The relay between two steps.
pub struct RelayView {
    pub state: SharedStateView,
    pub cache: Map<u32, TableSchemaView>,
    /// The depth of the event channel.
    pub depth: nat,
    /// The events in the channel, the oldest first.
    pub channel: Seq<Carried>,
    /// The event that the orchestrator holds while it waits for a free slot
    /// of the channel.
    pub held: Option<Carried>,
    pub pipeline: PipelineView,
    /// The LSNs that the batcher has handed out and the orchestrator has not
    /// confirmed yet, the oldest first.
    pub feedback: Seq<u64>,
    /// Every event that the orchestrator has forwarded, in order.
    pub forwarded: Seq<CdcEventView>,
    /// Every event that the batcher has handed out in a batch, in order.
    pub flushed: Seq<CdcEventView>,
}

/// A step of the relay.
pub enum RelayStep {
    /// The orchestrator takes a frame in. It takes none while it waits for
    /// a free slot of the channel.
    Frame { frame: WalMessageView, free_slots: usize, flush_size: usize, timestamp: u64 },
    /// The channel takes the event that the orchestrator holds, which it
    /// does only when it has a free slot.
    Release,
    /// The batcher takes the oldest event out of the channel.
    Take { now_ms: u64 },
    /// The timer of the batcher fires.
    Tick { now_ms: u64 },
    /// The batcher shuts down.
    Shutdown { now_ms: u64 },
    /// The orchestrator confirms the oldest LSN of the feedback.
    Confirm,
}

/// The events on their way to the batcher, the oldest first: those in the
/// channel, and after them the one that the orchestrator holds.
pub open spec fn queued(r: RelayView) -> Seq<CdcEventView> {
    let in_channel = r.channel.map_values(|c: Carried| c.0);
    match r.held {
        Some(c) => in_channel.push(c.0),
        None => in_channel,
    }
}

/// The feedback after the batcher acted under a trigger, if there was one.
pub open spec fn feedback_after(
    feedback: Seq<u64>,
    p: PipelineView,
    trigger: Option<FlushTrigger>,
) -> Seq<u64> {
    match trigger {
        Some(t) => feedback.push(flush_job(p, t).max_lsn),
        None => feedback,
    }
}

/// The relay after a step of the batcher.
pub open spec fn after_batcher_step(r: RelayView, step: PipelineStep, now_ms: u64) -> RelayView {
    let taken = step_taken(r.pipeline, step);
    let trigger = step_trigger(taken, step);
    RelayView {
        pipeline: after_trigger(taken, trigger, now_ms),
        feedback: feedback_after(r.feedback, taken, trigger),
        flushed: if trigger is Some {
            r.flushed + taken.batch
        } else {
            r.flushed
        },
        ..r
    }
}

/// The relay after the orchestrator forwarded an event: the event goes into
/// the channel if the channel has a free slot, else the orchestrator holds
/// it and waits.
pub open spec fn after_forward(r: RelayView, carried: Carried) -> RelayView {
    if r.channel.len() < r.depth {
        RelayView {
            channel: r.channel.push(carried),
            forwarded: r.forwarded.push(carried.0),
            ..r
        }
    } else {
        RelayView { held: Some(carried), forwarded: r.forwarded.push(carried.0), ..r }
    }
}

/// The relay after a step. A step that cannot be taken changes nothing: a
/// frame while the orchestrator waits, a release without a held event or
/// without a free slot, a take from an empty channel, a confirmation
/// without feedback.
pub open spec fn relay_after(r: RelayView, step: RelayStep) -> RelayView {
    match step {
        RelayStep::Frame { frame, free_slots, flush_size, timestamp } => if r.held is Some {
            r
        } else {
            let taken_in = RelayView {
                state: state_after_frame(r.state, frame, free_slots, flush_size, r.cache),
                cache: cache_after_frame(r.cache, frame),
                ..r
            };
            match frame_action(frame, r.state.confirmed_lsn, timestamp, r.cache) {
                FrameActionView::Forward { event, delta } => after_forward(
                    taken_in,
                    (event, delta),
                ),
                _ => taken_in,
            }
        },
        RelayStep::Release => if r.held is Some && r.channel.len() < r.depth {
            RelayView { channel: r.channel.push(r.held->0), held: None, ..r }
        } else {
            r
        },
        RelayStep::Take { now_ms } => if r.channel.len() == 0 {
            r
        } else {
            after_batcher_step(
                RelayView { channel: r.channel.drop_first(), ..r },
                PipelineStep::Event { event: r.channel[0].0, delta: r.channel[0].1, now_ms },
                now_ms,
            )
        },
        RelayStep::Tick { now_ms } => after_batcher_step(r, PipelineStep::Tick { now_ms }, now_ms),
        RelayStep::Shutdown { now_ms } => after_batcher_step(
            r,
            PipelineStep::Shutdown { now_ms },
            now_ms,
        ),
        RelayStep::Confirm => if r.feedback.len() == 0 {
            r
        } else {
            RelayView {
                state: SharedStateView { confirmed_lsn: r.feedback[0], ..r.state },
                feedback: r.feedback.drop_first(),
                ..r
            }
        },
    }
}

/// The relay after a run of steps.
pub open spec fn relay_run(r: RelayView, steps: Seq<RelayStep>) -> RelayView
    decreases steps.len(),
{
    if steps.len() == 0 {
        r
    } else {
        relay_after(relay_run(r, steps.drop_last()), steps.last())
    }
}

/// Whether no event of the relay has been lost or doubled: the events that
/// were forwarded are, in their order, those that were handed out in
/// batches, those in the batch, and those on their way to the batcher; and
/// the channel holds no more than its depth.
pub open spec fn nothing_dropped(r: RelayView) -> bool {
    &&& r.forwarded == r.flushed + r.pipeline.batch + queued(r)
    &&& r.channel.len() <= r.depth
}

proof fn lemma_step_drops_nothing(q: RelayView, step: RelayStep)
    requires
        nothing_dropped(q),
    ensures
        nothing_dropped(relay_after(q, step)),
{
    let after = relay_after(q, step);
    match step {
        RelayStep::Frame { frame, free_slots, flush_size, timestamp } => {
            if q.held is None {
                match frame_action(frame, q.state.confirmed_lsn, timestamp, q.cache) {
                    FrameActionView::Forward { event, delta } => {
                        assert(queued(after) == queued(q).push(event));
                    },
                    _ => {},
                }
            }
        },
        RelayStep::Release => {
            assert(queued(after) == queued(q));
        },
        RelayStep::Take { now_ms } => {
            if q.channel.len() > 0 {
                let first = q.channel[0].0;
                let rest = RelayView { channel: q.channel.drop_first(), ..q };
                assert(queued(q) == seq![first] + queued(rest));
                assert(q.flushed + q.pipeline.batch + (seq![first] + queued(rest)) == q.flushed
                    + q.pipeline.batch.push(first) + queued(rest));
            }
        },
        _ => {},
    }
}

/// No event is dropped: in every run of the relay, from a relay in which no
/// event has been lost, every event that the orchestrator forwards is in a
/// batch that was handed out, in the batch, in the channel, or held by the
/// orchestrator while it waits for the channel, in the order in which it was
/// forwarded; and the channel is never filled beyond its depth.
pub proof fn lemma_no_event_is_dropped(r: RelayView, steps: Seq<RelayStep>)
    requires
        nothing_dropped(r),
    ensures
        nothing_dropped(relay_run(r, steps)),
    decreases steps.len(),
{
    if steps.len() > 0 {
        lemma_no_event_is_dropped(r, steps.drop_last());
        lemma_step_drops_nothing(relay_run(r, steps.drop_last()), steps.last());
    }
}

/// Whether the WAL data of a run arrives in the order of its LSNs: no frame
/// of WAL data ends before the frame that came before it.
pub open spec fn frames_in_order(r: RelayView, steps: Seq<RelayStep>) -> bool
    decreases steps.len(),
{
    if steps.len() == 0 {
        true
    } else {
        &&& frames_in_order(r, steps.drop_last())
        &&& steps.last() matches RelayStep::Frame {
            frame: WalMessageView::XLogData { lsn, .. },
            ..
        } ==> lsn >= relay_run(r, steps.drop_last()).state.current_lsn
    }
}

/// Whether what is in the relay stands in the order of the stream: the
/// confirmed LSN, then the LSNs on their way to be confirmed, oldest first,
/// then the events of the batch, then the events on their way to the
/// batcher, oldest first; and nothing is ahead of the current LSN.
pub open spec fn in_stream_order(r: RelayView) -> bool {
    let waiting = queued(r);
    &&& r.state.confirmed_lsn <= r.state.current_lsn
    &&& r.feedback.len() > 0 ==> r.state.confirmed_lsn <= r.feedback[0]
    &&& forall|i: int, j: int| 0 <= i <= j < r.feedback.len() ==> r.feedback[i] <= r.feedback[j]
    &&& forall|i: int| 0 <= i < r.feedback.len() ==> #[trigger] r.feedback[i]
        <= r.state.current_lsn
    &&& forall|i: int, j: int|
        0 <= i <= j < waiting.len() ==> (#[trigger] waiting[i]).lsn <= (#[trigger] waiting[j]).lsn
    &&& forall|j: int|
        0 <= j < r.pipeline.batch.len() ==> {
            &&& r.state.confirmed_lsn <= (#[trigger] r.pipeline.batch[j]).lsn
            &&& r.pipeline.batch[j].lsn <= r.state.current_lsn
            &&& forall|i: int| 0 <= i < r.feedback.len() ==> r.feedback[i] <= r.pipeline.batch[j].lsn
            &&& forall|k: int|
                0 <= k < waiting.len() ==> r.pipeline.batch[j].lsn <= (#[trigger] waiting[k]).lsn
        }
    &&& forall|k: int|
        0 <= k < waiting.len() ==> {
            &&& r.state.confirmed_lsn <= (#[trigger] waiting[k]).lsn
            &&& waiting[k].lsn <= r.state.current_lsn
            &&& forall|i: int| 0 <= i < r.feedback.len() ==> r.feedback[i] <= waiting[k].lsn
        }
}

proof fn lemma_batcher_step_keeps_order(r: RelayView, step: PipelineStep, now_ms: u64)
    requires
        in_stream_order(r),
        step matches PipelineStep::Event { event, .. } ==> {
            &&& event.lsn <= r.state.current_lsn
            &&& r.state.confirmed_lsn <= event.lsn
            &&& forall|i: int| 0 <= i < r.feedback.len() ==> r.feedback[i] <= event.lsn
            &&& forall|k: int| 0 <= k < queued(r).len() ==> event.lsn <= (#[trigger] queued(r)[k]).lsn
        },
    ensures
        in_stream_order(after_batcher_step(r, step, now_ms)),
        after_batcher_step(r, step, now_ms).state == r.state,
{
    let taken = step_taken(r.pipeline, step);
    let lsns = batch_lsns(taken.batch);
    lemma_lsn_max_is_maximum(lsns);
    if step_trigger(taken, step) is Some {
        // The LSN that is handed out is that of an event of the batch.
        let w = choose|i: int| 0 <= i < lsns.len() && lsns[i] == lsn_max(lsns);
        assert(lsns[w] == taken.batch[w].lsn);
    }
}

/// The confirmed LSN never goes back and is never ahead of the current LSN:
/// after a run of the relay whose WAL data arrives in the order of its LSNs,
/// from a relay in which everything stands in the order of the stream,
/// everything still stands in that order, the confirmed LSN is not below
/// what it was before the run, and it is not above the current LSN.
pub proof fn lemma_confirmed_lsn_never_goes_back(r: RelayView, steps: Seq<RelayStep>)
    requires
        in_stream_order(r),
        frames_in_order(r, steps),
    ensures
        in_stream_order(relay_run(r, steps)),
        r.state.confirmed_lsn <= relay_run(r, steps).state.confirmed_lsn,
        relay_run(r, steps).state.confirmed_lsn <= relay_run(r, steps).state.current_lsn,
    decreases steps.len(),
{
    if steps.len() > 0 {
        lemma_confirmed_lsn_never_goes_back(r, steps.drop_last());
        let q = relay_run(r, steps.drop_last());
        let after = relay_after(q, steps.last());
        match steps.last() {
            RelayStep::Frame { frame, free_slots, flush_size, timestamp } => {
                if q.held is None {
                    match frame_action(frame, q.state.confirmed_lsn, timestamp, q.cache) {
                        FrameActionView::Forward { event, delta } => {
                            assert(queued(after) == queued(q).push(event));
                        },
                        _ => {},
                    }
                }
            },
            RelayStep::Release => {
                assert(queued(after) == queued(q));
            },
            RelayStep::Take { now_ms } => {
                if q.channel.len() > 0 {
                    let rest = RelayView { channel: q.channel.drop_first(), ..q };
                    assert forall|k: int| 0 <= k < queued(rest).len() implies (
                    #[trigger] queued(rest)[k]) == queued(q)[k + 1] by {}
                    assert(queued(q)[0] == q.channel[0].0);
                    assert(in_stream_order(rest)) by {
                        assert forall|i: int, j: int| 0 <= i <= j < queued(rest).len() implies (
                        #[trigger] queued(rest)[i]).lsn <= (#[trigger] queued(rest)[j]).lsn by {
                            assert(queued(q)[i + 1].lsn <= queued(q)[j + 1].lsn);
                        }
                    }
                    lemma_batcher_step_keeps_order(
                        rest,
                        PipelineStep::Event {
                            event: q.channel[0].0,
                            delta: q.channel[0].1,
                            now_ms,
                        },
                        now_ms,
                    );
                }
            },
            RelayStep::Tick { now_ms } => {
                lemma_batcher_step_keeps_order(q, PipelineStep::Tick { now_ms }, now_ms);
            },
            RelayStep::Shutdown { now_ms } => {
                lemma_batcher_step_keeps_order(q, PipelineStep::Shutdown { now_ms }, now_ms);
            },
            RelayStep::Confirm => {},
        }
    }
}

} // verus!
