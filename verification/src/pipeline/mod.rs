//! The batcher: it takes decoded events in, with the schema changes that
//! came with them, and hands out a batch for the sink when the batch is large
//! enough, old enough, or the pipeline shuts down.

pub mod schema_cache;

use crate::grpc::state::{counted, SharedState, SharedStateView};
use crate::pipeline::schema_cache::{opt_delta, SchemaDelta, SchemaDeltaView};
use crate::replication::wal_handler::{CdcEvent, CdcEventView};
use crate::source::parser::{CdcMessage, CdcMessageView};
use vstd::prelude::*;

verus! {

/// The largest of the given LSNs, 0 where there is none.
pub open spec fn lsn_max(lsns: Seq<u64>) -> u64
    decreases lsns.len(),
{
    if lsns.len() == 0 {
        0
    } else {
        let before = lsn_max(lsns.drop_last());
        if lsns.last() > before {
            lsns.last()
        } else {
            before
        }
    }
}

/// The LSNs of a batch, in order.
pub open spec fn batch_lsns(batch: Seq<CdcEventView>) -> Seq<u64> {
    batch.map_values(|e: CdcEventView| e.lsn)
}

/// The messages of a batch, in order.
pub open spec fn batch_messages(batch: Seq<CdcEventView>) -> Seq<CdcMessageView> {
    batch.map_values(|e: CdcEventView| e.message)
}

/// `lsn_max` is the maximum: no LSN of the list is above it, and it is one
/// of them unless the list is empty.
pub proof fn lemma_lsn_max_is_maximum(lsns: Seq<u64>)
    ensures
        forall|i: int| 0 <= i < lsns.len() ==> lsns[i] <= lsn_max(lsns),
        lsns.len() > 0 ==> exists|i: int| 0 <= i < lsns.len() && lsns[i] == lsn_max(lsns),
    decreases lsns.len(),
{
    if lsns.len() > 0 {
        let before = lsns.drop_last();
        lemma_lsn_max_is_maximum(before);
        assert forall|i: int| 0 <= i < lsns.len() implies lsns[i] <= lsn_max(lsns) by {
            if i < before.len() {
                assert(lsns[i] == before[i]);
            }
        }
        if before.len() > 0 && lsns.last() <= lsn_max(before) {
            let w = choose|i: int| 0 <= i < before.len() && before[i] == lsn_max(before);
            assert(lsns[w] == lsn_max(lsns));
        } else {
            assert(lsns[lsns.len() - 1] == lsn_max(lsns));
        }
    }
}

/// The LSN that a batch hands out to be confirmed is the largest LSN of the
/// batch: no event of the batch has a larger one, and some event has it.
pub proof fn lemma_job_confirms_whole_batch(p: PipelineView, trigger: FlushTrigger)
    ensures
        flush_job(p, trigger).max_lsn == lsn_max(batch_lsns(p.batch)),
        forall|i: int|
            0 <= i < p.batch.len() ==> (#[trigger] p.batch[i]).lsn <= flush_job(p, trigger).max_lsn,
        p.batch.len() > 0 ==> exists|i: int|
            0 <= i < p.batch.len() && (#[trigger] p.batch[i]).lsn == flush_job(p, trigger).max_lsn,
{
    let lsns = batch_lsns(p.batch);
    lemma_lsn_max_is_maximum(lsns);
    assert forall|i: int| 0 <= i < p.batch.len() implies (#[trigger] p.batch[i]).lsn <= lsn_max(
        lsns,
    ) by {
        assert(lsns[i] == p.batch[i].lsn);
    }
    if p.batch.len() > 0 {
        let w = choose|i: int| 0 <= i < lsns.len() && lsns[i] == lsn_max(lsns);
        assert(p.batch[w].lsn == lsn_max(lsns));
    }
}

/// Whether the LSNs never go down from one to the next.
pub open spec fn non_decreasing(lsns: Seq<u64>) -> bool {
    forall|i: int, j: int| 0 <= i <= j < lsns.len() ==> lsns[i] <= lsns[j]
}

/// Why a batch was handed out.
#[derive(Debug, Clone, Copy, PartialEq, Eq, Structural)]
pub enum FlushTrigger {
    /// The batch holds at least the flush size.
    Size,
    /// The flush interval has passed since the last flush.
    Interval,
    /// The pipeline shuts down.
    Shutdown,
}

/// A batch on its way to the sink: the schema changes to apply first, the
/// messages in the order of their arrival, and the largest LSN among them,
/// which is confirmed once the sink has taken the batch.
#[derive(Debug, Clone, PartialEq, Eq)]
pub struct FlushJob {
    pub trigger: FlushTrigger,
    pub deltas: Vec<SchemaDelta>,
    pub messages: Vec<CdcMessage>,
    pub max_lsn: u64,
}

/// A `FlushJob` as plain values.
pub struct FlushJobView {
    pub trigger: FlushTrigger,
    pub deltas: Seq<SchemaDeltaView>,
    pub messages: Seq<CdcMessageView>,
    pub max_lsn: u64,
}

impl View for FlushJob {
    type V = FlushJobView;

    open spec fn view(&self) -> FlushJobView {
        FlushJobView {
            trigger: self.trigger,
            deltas: self.deltas.deep_view(),
            messages: self.messages.deep_view(),
            max_lsn: self.max_lsn,
        }
    }
}

/// The plain values of an optional job.
pub open spec fn opt_job(j: Option<FlushJob>) -> Option<FlushJobView> {
    match j {
        Some(v) => Some(v@),
        None => None,
    }
}

/// The batcher.
#[derive(Debug, Clone, PartialEq, Eq)]
pub struct Pipeline {
    batch: Vec<CdcEvent>,
    last_flush_ms: u64,
    flush_size: usize,
    flush_interval_ms: u64,
    pending_deltas: Vec<SchemaDelta>,
}

/// A `Pipeline` as plain values.
pub struct PipelineView {
    /// The events taken in since the last flush, in the order of arrival.
    pub batch: Seq<CdcEventView>,
    /// Time of the last flush, in milliseconds of the caller's clock.
    pub last_flush_ms: u64,
    pub flush_size: usize,
    pub flush_interval_ms: u64,
    /// The schema changes seen since the last flush.
    pub pending_deltas: Seq<SchemaDeltaView>,
}

impl View for Pipeline {
    type V = PipelineView;

    closed spec fn view(&self) -> PipelineView {
        PipelineView {
            batch: self.batch.deep_view(),
            last_flush_ms: self.last_flush_ms,
            flush_size: self.flush_size,
            flush_interval_ms: self.flush_interval_ms,
            pending_deltas: self.pending_deltas.deep_view(),
        }
    }
}

/// The pipeline after an event came in: the event joins the batch, and the
/// schema change that came with it, if there is one, waits for the flush.
pub open spec fn taken_in(
    p: PipelineView,
    event: CdcEventView,
    delta: Option<SchemaDeltaView>,
) -> PipelineView {
    PipelineView {
        batch: p.batch.push(event),
        pending_deltas: match delta {
            Some(d) => p.pending_deltas.push(d),
            None => p.pending_deltas,
        },
        ..p
    }
}

/// Milliseconds from `since` to `now`, 0 where the clock went back.
pub open spec fn elapsed_ms(since: u64, now: u64) -> u64 {
    if now >= since {
        (now - since) as u64
    } else {
        0
    }
}

/// Why a flush is due at `now`, if one is: never for an empty batch; else
/// for its size, if it holds at least the flush size; else for its age, if
/// the flush interval has passed since the last flush.
pub open spec fn flush_due(p: PipelineView, now_ms: u64) -> Option<FlushTrigger> {
    if p.batch.len() == 0 {
        None
    } else if p.batch.len() >= p.flush_size {
        Some(FlushTrigger::Size)
    } else if elapsed_ms(p.last_flush_ms, now_ms) >= p.flush_interval_ms {
        Some(FlushTrigger::Interval)
    } else {
        None
    }
}

/// The job that a flush hands out: the pending schema changes, the messages
/// of the batch, and the largest LSN of the batch.
pub open spec fn flush_job(p: PipelineView, trigger: FlushTrigger) -> FlushJobView {
    FlushJobView {
        trigger,
        deltas: p.pending_deltas,
        messages: batch_messages(p.batch),
        max_lsn: lsn_max(batch_lsns(p.batch)),
    }
}

/// The pipeline after a flush at `now`: no batch, no pending schema change.
pub open spec fn flushed(p: PipelineView, now_ms: u64) -> PipelineView {
    PipelineView {
        batch: Seq::empty(),
        pending_deltas: Seq::empty(),
        last_flush_ms: now_ms,
        ..p
    }
}

/// The job handed out for a trigger, if there is one.
pub open spec fn job_for(p: PipelineView, trigger: Option<FlushTrigger>) -> Option<FlushJobView> {
    match trigger {
        Some(t) => Some(flush_job(p, t)),
        None => None,
    }
}

/// The pipeline after a job was handed out for a trigger, if there is one.
pub open spec fn after_trigger(
    p: PipelineView,
    trigger: Option<FlushTrigger>,
    now_ms: u64,
) -> PipelineView {
    match trigger {
        Some(_) => flushed(p, now_ms),
        None => p,
    }
}

/// The largest LSN of a batch.
pub fn max_lsn_of(batch: &Vec<CdcEvent>) -> (r: u64)
    ensures
        r == lsn_max(batch_lsns(batch.deep_view())),
{
    let mut max: u64 = 0;
    let mut i: usize = 0;
    let ghost lsns = batch_lsns(batch.deep_view());
    while i < batch.len()
        invariant
            i <= batch.len(),
            lsns == batch_lsns(batch.deep_view()),
            max == lsn_max(lsns.take(i as int)),
        decreases batch.len() - i,
    {
        assert(lsns.take(i + 1).drop_last() == lsns.take(i as int));
        if batch[i].lsn > max {
            max = batch[i].lsn;
        }
        i += 1;
    }
    assert(lsns.take(batch.len() as int) == lsns);
    max
}

/// The messages of a batch.
pub fn messages_of(batch: Vec<CdcEvent>) -> (r: Vec<CdcMessage>)
    ensures
        r.deep_view() == batch_messages(batch.deep_view()),
{
    let mut out: Vec<CdcMessage> = Vec::new();
    let ghost all = batch.deep_view();
    for event in it: batch
        invariant
            it.seq().len() == all.len(),
            forall|j: int| 0 <= j < all.len() ==> #[trigger] it.seq()[j]@ == all[j],
            out.deep_view() == batch_messages(all.take(it.index() as int)),
    {
        let ghost i = it.index() as int;
        assert(event@ == all[i]);
        assert(batch_messages(all.take(i + 1)) == batch_messages(all.take(i)).push(
            all[i].message,
        ));
        out.push(event.message);
    }
    out
}

impl Pipeline {
    /// A batcher with an empty batch, whose last flush counts as made at
    /// `now_ms`.
    pub fn new(flush_size: usize, flush_interval_ms: u64, now_ms: u64) -> (r: Self)
        ensures
            r@ == (PipelineView {
                batch: Seq::empty(),
                last_flush_ms: now_ms,
                flush_size,
                flush_interval_ms,
                pending_deltas: Seq::empty(),
            }),
    {
        let r = Pipeline {
            batch: Vec::new(),
            last_flush_ms: now_ms,
            flush_size,
            flush_interval_ms,
            pending_deltas: Vec::new(),
        };
        assert(r.batch.deep_view() =~= Seq::<CdcEventView>::empty());
        assert(r.pending_deltas.deep_view() =~= Seq::<SchemaDeltaView>::empty());
        r
    }

    /// The number of events in the batch.
    pub fn len(&self) -> (r: usize)
        ensures
            r == self@.batch.len(),
    {
        self.batch.len()
    }

    /// Takes the flush size and interval of a reloaded configuration.
    pub fn reconfigure(&mut self, flush_size: usize, flush_interval_ms: u64)
        ensures
            final(self)@ == (PipelineView { flush_size, flush_interval_ms, ..old(self)@ }),
    {
        self.flush_size = flush_size;
        self.flush_interval_ms = flush_interval_ms;
    }

    /// Whether a flush is due at `now_ms`, and why.
    pub fn due(&self, now_ms: u64) -> (r: Option<FlushTrigger>)
        ensures
            r == flush_due(self@, now_ms),
    {
        if self.batch.len() == 0 {
            None
        } else if self.batch.len() >= self.flush_size {
            Some(FlushTrigger::Size)
        } else if now_ms.saturating_sub(self.last_flush_ms) >= self.flush_interval_ms {
            Some(FlushTrigger::Interval)
        } else {
            None
        }
    }

    fn flush(&mut self, trigger: FlushTrigger, now_ms: u64) -> (r: FlushJob)
        ensures
            r@ == flush_job(old(self)@, trigger),
            final(self)@ == flushed(old(self)@, now_ms),
    {
        let mut batch: Vec<CdcEvent> = Vec::new();
        let mut deltas: Vec<SchemaDelta> = Vec::new();
        assert(batch.deep_view() =~= Seq::<CdcEventView>::empty());
        assert(deltas.deep_view() =~= Seq::<SchemaDeltaView>::empty());
        core::mem::swap(&mut self.batch, &mut batch);
        core::mem::swap(&mut self.pending_deltas, &mut deltas);
        self.last_flush_ms = now_ms;
        let max_lsn = max_lsn_of(&batch);
        FlushJob { trigger, deltas, messages: messages_of(batch), max_lsn }
    }

    /// Takes an event in, with the schema change that came with it; then,
    /// if a flush is due at `now_ms`, hands out the batch.
    pub fn on_event(&mut self, event: CdcEvent, delta: Option<SchemaDelta>, now_ms: u64) -> (r:
        Option<FlushJob>)
        ensures
            opt_job(r) == job_for(
                taken_in(old(self)@, event@, opt_delta(delta)),
                flush_due(taken_in(old(self)@, event@, opt_delta(delta)), now_ms),
            ),
            final(self)@ == after_trigger(
                taken_in(old(self)@, event@, opt_delta(delta)),
                flush_due(taken_in(old(self)@, event@, opt_delta(delta)), now_ms),
                now_ms,
            ),
    {
        match delta {
            Some(d) => {
                let ghost before = self.pending_deltas.deep_view();
                self.pending_deltas.push(d);
                assert(self.pending_deltas.deep_view() == before.push(d@));
            },
            None => {},
        }
        let ghost before = self.batch.deep_view();
        self.batch.push(event);
        assert(self.batch.deep_view() == before.push(event@));
        match self.due(now_ms) {
            Some(trigger) => Some(self.flush(trigger, now_ms)),
            None => None,
        }
    }

    /// Hands out the batch if a flush is due at `now_ms`. With no event in
    /// the batch nothing is handed out and nothing changes, however long ago
    /// the last flush was.
    pub fn on_tick(&mut self, now_ms: u64) -> (r: Option<FlushJob>)
        ensures
            opt_job(r) == job_for(old(self)@, flush_due(old(self)@, now_ms)),
            final(self)@ == after_trigger(old(self)@, flush_due(old(self)@, now_ms), now_ms),
            old(self)@.batch.len() == 0 ==> r is None && final(self)@ == old(self)@,
    {
        match self.due(now_ms) {
            Some(trigger) => Some(self.flush(trigger, now_ms)),
            None => None,
        }
    }

    /// Hands out what is left of the batch when the pipeline shuts down;
    /// nothing where the batch is empty.
    pub fn on_shutdown(&mut self, now_ms: u64) -> (r: Option<FlushJob>)
        ensures
            old(self)@.batch.len() == 0 ==> r is None && final(self)@ == old(self)@,
            old(self)@.batch.len() > 0 ==> opt_job(r) == Some(
                flush_job(old(self)@, FlushTrigger::Shutdown),
            ) && final(self)@ == flushed(old(self)@, now_ms),
    {
        if self.batch.len() == 0 {
            None
        } else {
            Some(self.flush(FlushTrigger::Shutdown, now_ms))
        }
    }
}

impl FlushJob {
    /// Records that the sink has taken the batch: one more batch is counted
    /// as sent, and the largest LSN of the batch is returned, to be
    /// confirmed.
    pub fn completed(&self, shared_state: &mut SharedState) -> (r: u64)
        ensures
            r == self.max_lsn,
            final(shared_state)@ == (SharedStateView {
                batches_sent: counted(old(shared_state).batches_sent),
                ..old(shared_state)@
            }),
    {
        shared_state.increment_batches();
        self.max_lsn
    }
}

/// What can happen to the batcher.
pub enum PipelineStep {
    /// An event comes in at the time `now_ms`, with the schema change that
    /// came with it.
    Event { event: CdcEventView, delta: Option<SchemaDeltaView>, now_ms: u64 },
    /// The timer fires at the time `now_ms`.
    Tick { now_ms: u64 },
    /// The pipeline shuts down at the time `now_ms`.
    Shutdown { now_ms: u64 },
}

/// The trigger under which one step hands out the batch, if it does, given
/// the pipeline in which the step's event has been taken in.
pub open spec fn step_trigger(taken: PipelineView, step: PipelineStep) -> Option<FlushTrigger> {
    match step {
        PipelineStep::Event { now_ms, .. } => flush_due(taken, now_ms),
        PipelineStep::Tick { now_ms } => flush_due(taken, now_ms),
        PipelineStep::Shutdown { .. } => if taken.batch.len() > 0 {
            Some(FlushTrigger::Shutdown)
        } else {
            None
        },
    }
}

/// The pipeline in which the event of a step, if it has one, has been taken
/// in.
pub open spec fn step_taken(p: PipelineView, step: PipelineStep) -> PipelineView {
    match step {
        PipelineStep::Event { event, delta, .. } => taken_in(p, event, delta),
        _ => p,
    }
}

/// The time of a step.
pub open spec fn step_time(step: PipelineStep) -> u64 {
    match step {
        PipelineStep::Event { now_ms, .. } => now_ms,
        PipelineStep::Tick { now_ms } => now_ms,
        PipelineStep::Shutdown { now_ms } => now_ms,
    }
}

/// The pipeline after a run of steps, as `on_event`, `on_tick` and
/// `on_shutdown` leave it.
pub open spec fn pipeline_after(p: PipelineView, steps: Seq<PipelineStep>) -> PipelineView
    decreases steps.len(),
{
    if steps.len() == 0 {
        p
    } else {
        let taken = step_taken(pipeline_after(p, steps.drop_last()), steps.last());
        after_trigger(taken, step_trigger(taken, steps.last()), step_time(steps.last()))
    }
}

/// The LSNs that a run of steps hands out to be confirmed, in order.
pub open spec fn confirmed_by(p: PipelineView, steps: Seq<PipelineStep>) -> Seq<u64>
    decreases steps.len(),
{
    if steps.len() == 0 {
        Seq::empty()
    } else {
        let before = confirmed_by(p, steps.drop_last());
        let taken = step_taken(pipeline_after(p, steps.drop_last()), steps.last());
        match step_trigger(taken, steps.last()) {
            Some(trigger) => before.push(flush_job(taken, trigger).max_lsn),
            None => before,
        }
    }
}

/// The LSNs of the events of a run of steps, in order.
pub open spec fn arriving_lsns(steps: Seq<PipelineStep>) -> Seq<u64>
    decreases steps.len(),
{
    if steps.len() == 0 {
        Seq::empty()
    } else {
        match steps.last() {
            PipelineStep::Event { event, .. } => arriving_lsns(steps.drop_last()).push(event.lsn),
            _ => arriving_lsns(steps.drop_last()),
        }
    }
}

/// What holds of a run whose events arrive in the order of their LSNs: the
/// confirmed LSNs never go down, none is above an LSN that waits in the
/// batch, and neither those nor the waiting ones are above the largest LSN
/// that has arrived.
pub open spec fn run_in_order(p: PipelineView, steps: Seq<PipelineStep>) -> bool {
    let confirmed = confirmed_by(p, steps);
    let waiting = batch_lsns(pipeline_after(p, steps).batch);
    let high = lsn_max(arriving_lsns(steps));
    &&& non_decreasing(confirmed)
    &&& forall|i: int, j: int|
        0 <= i < confirmed.len() && 0 <= j < waiting.len() ==> confirmed[i] <= waiting[j]
    &&& forall|i: int| 0 <= i < confirmed.len() ==> confirmed[i] <= high
    &&& forall|j: int| 0 <= j < waiting.len() ==> waiting[j] <= high
}

proof fn lemma_in_order_prefix(lsns: Seq<u64>)
    requires
        non_decreasing(lsns),
        lsns.len() > 0,
    ensures
        non_decreasing(lsns.drop_last()),
        lsn_max(lsns) == lsns.last(),
        lsn_max(lsns.drop_last()) <= lsns.last(),
{
    let before = lsns.drop_last();
    lemma_lsn_max_is_maximum(before);
    assert forall|i: int, j: int| 0 <= i <= j < before.len() implies before[i] <= before[j] by {
        assert(before[i] == lsns[i] && before[j] == lsns[j]);
    }
    if before.len() > 0 {
        let w = choose|i: int| 0 <= i < before.len() && before[i] == lsn_max(before);
        assert(before[w] == lsns[w]);
    }
}

/// The confirmed LSN never goes back: in every run of events, ticks and
/// shutdowns that begins with an empty batch and whose events arrive in the
/// order of their LSNs, each LSN that is handed out to be confirmed is at
/// least the one handed out before it.
pub proof fn lemma_confirmed_lsns_are_monotonic(p: PipelineView, steps: Seq<PipelineStep>)
    requires
        p.batch.len() == 0,
        non_decreasing(arriving_lsns(steps)),
    ensures
        non_decreasing(confirmed_by(p, steps)),
        run_in_order(p, steps),
    decreases steps.len(),
{
    if steps.len() == 0 {
        assert(batch_lsns(p.batch).len() == 0);
    } else {
        let earlier = steps.drop_last();
        let step = steps.last();
        match step {
            PipelineStep::Event { event, .. } => {
                lemma_in_order_prefix(arriving_lsns(steps));
                assert(arriving_lsns(steps).drop_last() == arriving_lsns(earlier));
            },
            _ => {},
        }
        lemma_confirmed_lsns_are_monotonic(p, earlier);
        let q = pipeline_after(p, earlier);
        let taken = step_taken(q, step);
        let confirmed = confirmed_by(p, earlier);
        let high = lsn_max(arriving_lsns(steps));
        let waiting = batch_lsns(taken.batch);
        assert(lsn_max(arriving_lsns(earlier)) <= high);
        // The waiting LSNs after the event was taken in.
        assert forall|j: int| 0 <= j < waiting.len() implies waiting[j] <= high && (forall|i: int|
            0 <= i < confirmed.len() ==> confirmed[i] <= waiting[j]) by {
            if j < q.batch.len() {
                assert(waiting[j] == batch_lsns(q.batch)[j]);
            } else {
                assert(step matches PipelineStep::Event { event, .. } && waiting[j] == event.lsn);
                assert(waiting[j] == high);
            }
        }
        match step_trigger(taken, step) {
            Some(trigger) => {
                let c = flush_job(taken, trigger).max_lsn;
                lemma_lsn_max_is_maximum(waiting);
                assert(taken.batch.len() > 0);
                let w = choose|i: int| 0 <= i < waiting.len() && waiting[i] == lsn_max(waiting);
                assert(c == waiting[w]);
                let after = confirmed.push(c);
                assert forall|i: int, j: int| 0 <= i <= j < after.len() implies after[i]
                    <= after[j] by {
                    if j == confirmed.len() && i < confirmed.len() {
                        assert(confirmed[i] <= waiting[w]);
                    }
                }
                assert(batch_lsns(pipeline_after(p, steps).batch).len() == 0);
                assert(confirmed_by(p, steps) == after);
            },
            None => {
                assert(pipeline_after(p, steps) == taken);
                assert(confirmed_by(p, steps) == confirmed);
            },
        }
    }
}

} // verus!
