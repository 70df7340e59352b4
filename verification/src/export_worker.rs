//! Decision logic of the background export worker, as a state machine.
//!
//! The worker's loop alternates outside work (polling the shutdown flag and
//! the channel, posting a batch, sleeping) with decisions. The decisions live
//! here: `WorkerState::step` takes the outcome of the last piece of outside
//! work as an event and answers with the next action, together with the
//! changes to apply to the shared statistics.

use crate::ledger::{ExportConfig, TransactionTiming};
use vstd::arithmetic::power::lemma_pow0;
use vstd::arithmetic::power2::{lemma_pow2_unfold, pow2};
use vstd::prelude::*;

verus! {

/// Why a batch is being sent.
#[derive(Debug, Clone, Copy, PartialEq, Eq, Structural)]
pub enum FlushKind {
    /// A record arrived and the batch is full or the flush timeout passed.
    Full,
    /// The channel was idle and the flush timeout passed.
    Partial,
    /// The worker is stopping and the buffer still holds records.
    Final,
}

/// Where the worker is in its loop.
#[derive(Debug, Clone, Copy, PartialEq, Eq, Structural)]
pub enum WorkerPhase {
    /// Waiting for the next record.
    Polling,
    /// Waiting for the outcome of a batch request.
    Sending(FlushKind),
    /// A full batch failed; waiting out the retry delay before it is posted
    /// again, unchanged, with nothing more received meanwhile.
    Backoff,
    /// The worker has ended.
    Finished,
}

/// The outcome of the outside work that the last action asked for.
#[derive(Debug)]
pub enum WorkerEvent {
    /// The shutdown flag was found set.
    ShutdownRequested,
    /// A record arrived; whole seconds elapsed since the last flush.
    Received(TransactionTiming, u64),
    /// No record arrived within the poll timeout; whole seconds elapsed since
    /// the last flush.
    RecvTimedOut(u64),
    /// Every sender is gone.
    Disconnected,
    /// The batch request succeeded.
    BatchSent,
    /// The batch request failed.
    BatchFailed,
}

/// The next outside work to do.
#[derive(Debug, Clone, Copy, PartialEq, Eq, Structural)]
pub enum WorkerAction {
    /// Check the shutdown flag, then wait up to a second for a record.
    Poll,
    /// Post the buffered records as one batch.
    SendBuffer,
    /// Sleep this many milliseconds, then poll.
    SleepThenPoll(u64),
    /// Sleep this many milliseconds, then check the shutdown flag and,
    /// unless it is set, post the buffered records again.
    SleepThenResend(u64),
    /// The worker is done.
    Stop,
}

/// One decision: the action, and what to apply to the shared statistics.
#[derive(Debug, Clone, Copy, PartialEq, Eq, Structural)]
pub struct WorkerStep {
    pub action: WorkerAction,
    /// Amount to add to the exported counter.
    pub exported: u64,
    /// Amount to add to the error counter.
    pub errors: u64,
    /// New value of the buffer-size gauge, if it changes.
    pub buffer_size: Option<u64>,
    /// Whether the flush clock restarts now.
    pub restart_flush_clock: bool,
}

/// The abstract state of the worker.
pub struct WorkerView {
    pub config: ExportConfig,
    pub buffer: Seq<TransactionTiming>,
    pub retry_delay_ms: u64,
    pub phase: WorkerPhase,
}

/// The longer of two intervals.
pub open spec fn max_ms(a: u64, b: u64) -> u64 {
    if a < b { b } else { a }
}

/// The delay after one more failure: doubled, but at most the configured
/// maximum.
pub open spec fn backed_off(delay: u64, max: u64) -> u64 {
    if 2 * delay < max { (2 * delay) as u64 } else { max }
}

/// Whether the worker is about to post its buffer, or waiting to post it.
pub open spec fn holds_batch(phase: WorkerPhase) -> bool {
    phase is Sending || phase is Backoff
}

/// The worker's own invariant: a batch is only ever sent from a non-empty
/// buffer; with a batch size of at least one, the buffer never holds more
/// than a batch, and holds less while the worker polls or flushes an idle
/// partial batch; the retry delay never exceeds the larger of the base and
/// the maximum delay.
pub open spec fn worker_wf(w: WorkerView) -> bool {
    &&& holds_batch(w.phase) ==> w.buffer.len() > 0
    &&& w.config.batch_size >= 1 ==> w.buffer.len() <= w.config.batch_size
    &&& w.config.batch_size >= 1 && (w.phase is Polling || w.phase == WorkerPhase::Sending(
        FlushKind::Partial,
    )) ==> w.buffer.len() < w.config.batch_size
    &&& w.retry_delay_ms <= max_ms(w.config.retry_base_ms, w.config.retry_max_ms)
}

/// Whether the worker takes `e` in state `w`: polling outcomes while
/// polling, request outcomes while sending, nothing once finished. A failed
/// batch doubles the delay in `u64` with unchecked arithmetic, so that
/// doubling must fit.
pub open spec fn accepts(w: WorkerView, e: WorkerEvent) -> bool {
    match w.phase {
        WorkerPhase::Polling => !(e is BatchSent) && !(e is BatchFailed),
        WorkerPhase::Sending(kind) => {
            ||| e is BatchSent
            ||| e is BatchFailed && (kind != FlushKind::Final ==> 2 * w.retry_delay_ms <= u64::MAX)
        },
        WorkerPhase::Backoff => {
            ||| e is ShutdownRequested
            ||| e is BatchSent
            ||| e is BatchFailed && 2 * w.retry_delay_ms <= u64::MAX
        },
        WorkerPhase::Finished => false,
    }
}

/// The initial state: nothing buffered, the base retry delay, polling.
pub open spec fn initial_view(config: ExportConfig) -> WorkerView {
    WorkerView {
        config,
        buffer: Seq::empty(),
        retry_delay_ms: config.retry_base_ms,
        phase: WorkerPhase::Polling,
    }
}

/// A step that changes no statistic.
pub open spec fn plain_step(action: WorkerAction) -> WorkerStep {
    WorkerStep { action, exported: 0, errors: 0, buffer_size: None, restart_flush_clock: false }
}

/// Stopping: the remaining records, if any, are sent as a final batch.
pub open spec fn stopping(w: WorkerView) -> (WorkerView, WorkerStep) {
    if w.buffer.len() > 0 {
        (WorkerView { phase: WorkerPhase::Sending(FlushKind::Final), ..w }, plain_step(WorkerAction::SendBuffer))
    } else {
        (WorkerView { phase: WorkerPhase::Finished, ..w }, plain_step(WorkerAction::Stop))
    }
}

/// The decision once a batch request of kind `kind` has been answered.
/// A delivered batch empties the buffer and resets the retry delay (the
/// final one ends the worker). A failed one is kept whole and the delay
/// backs off: a full batch waits to be posted again as it is, any other
/// goes back to polling; a failed final batch ends the worker.
pub open spec fn after_batch(w: WorkerView, kind: FlushKind, delivered: bool) -> (WorkerView, WorkerStep) {
    let sent = w.buffer.len() as u64;
    if delivered {
        if kind == FlushKind::Final {
            (
                WorkerView { phase: WorkerPhase::Finished, ..w },
                WorkerStep { exported: sent, ..plain_step(WorkerAction::Stop) },
            )
        } else {
            (
                WorkerView {
                    buffer: Seq::empty(),
                    retry_delay_ms: w.config.retry_base_ms,
                    phase: WorkerPhase::Polling,
                    ..w
                },
                WorkerStep {
                    action: WorkerAction::Poll,
                    exported: sent,
                    errors: 0,
                    buffer_size: Some(0),
                    restart_flush_clock: true,
                },
            )
        }
    } else if kind == FlushKind::Final {
        (WorkerView { phase: WorkerPhase::Finished, ..w }, plain_step(WorkerAction::Stop))
    } else {
        let errors = if kind == FlushKind::Full { sent } else { 0 };
        let retry_delay_ms = backed_off(w.retry_delay_ms, w.config.retry_max_ms);
        if kind == FlushKind::Full && w.buffer.len() >= w.config.batch_size {
            (
                WorkerView { retry_delay_ms, phase: WorkerPhase::Backoff, ..w },
                WorkerStep { errors, ..plain_step(WorkerAction::SleepThenResend(w.retry_delay_ms)) },
            )
        } else {
            (
                WorkerView { retry_delay_ms, phase: WorkerPhase::Polling, ..w },
                WorkerStep { errors, ..plain_step(WorkerAction::SleepThenPoll(w.retry_delay_ms)) },
            )
        }
    }
}

/// The decision for event `e` in state `w` (for accepted events).
pub open spec fn next(w: WorkerView, e: WorkerEvent) -> (WorkerView, WorkerStep) {
    match w.phase {
        WorkerPhase::Polling => match e {
            WorkerEvent::ShutdownRequested => stopping(w),
            WorkerEvent::Disconnected => stopping(w),
            WorkerEvent::Received(t, secs) => {
                let buffer = w.buffer.push(t);
                let flush = buffer.len() >= w.config.batch_size || secs >= w.config.batch_timeout_secs;
                let step = WorkerStep {
                    action: if flush { WorkerAction::SendBuffer } else { WorkerAction::Poll },
                    exported: 0,
                    errors: 0,
                    buffer_size: Some(buffer.len() as u64),
                    restart_flush_clock: false,
                };
                let phase = if flush { WorkerPhase::Sending(FlushKind::Full) } else { WorkerPhase::Polling };
                (WorkerView { buffer, phase, ..w }, step)
            },
            WorkerEvent::RecvTimedOut(secs) => {
                if w.buffer.len() > 0 && secs >= w.config.batch_timeout_secs {
                    (
                        WorkerView { phase: WorkerPhase::Sending(FlushKind::Partial), ..w },
                        plain_step(WorkerAction::SendBuffer),
                    )
                } else {
                    (w, plain_step(WorkerAction::Poll))
                }
            },
            _ => (w, plain_step(WorkerAction::Poll)),
        },
        WorkerPhase::Sending(kind) => after_batch(w, kind, e is BatchSent),
        WorkerPhase::Backoff => match e {
            WorkerEvent::ShutdownRequested => stopping(w),
            _ => after_batch(w, FlushKind::Full, e is BatchSent),
        },
        WorkerPhase::Finished => (w, plain_step(WorkerAction::Stop)),
    }
}

/// The worker's state between two pieces of outside work.
pub struct WorkerState {
    config: ExportConfig,
    buffer: Vec<TransactionTiming>,
    retry_delay_ms: u64,
    phase: WorkerPhase,
}

impl View for WorkerState {
    type V = WorkerView;

    closed spec fn view(&self) -> WorkerView {
        WorkerView {
            config: self.config,
            buffer: self.buffer@,
            retry_delay_ms: self.retry_delay_ms,
            phase: self.phase,
        }
    }
}

impl WorkerState {
    #[verifier::type_invariant]
    spec fn well_formed(self) -> bool {
        worker_wf(self@)
    }

    /// A fresh worker for `config`; its first action is to poll.
    pub fn new(config: ExportConfig) -> (w: Self)
        ensures
            w@ == initial_view(config),
    {
        WorkerState {
            config,
            buffer: Vec::new(),
            retry_delay_ms: config.retry_base_ms,
            phase: WorkerPhase::Polling,
        }
    }

    /// The records waiting to be sent.
    pub fn buffer(&self) -> (b: &Vec<TransactionTiming>)
        ensures
            b@ == self@.buffer,
            holds_batch(self@.phase) ==> b@.len() > 0,
            self@.config.batch_size >= 1 ==> b@.len() <= self@.config.batch_size,
    {
        proof {
            use_type_invariant(self);
        }
        &self.buffer
    }

    /// Where the worker is in its loop.
    pub fn phase(&self) -> (p: WorkerPhase)
        ensures
            p == self@.phase,
    {
        self.phase
    }

    /// Whether `step` takes `event` now.
    pub fn accepts(&self, event: &WorkerEvent) -> (ok: bool)
        ensures
            ok == accepts(self@, *event),
    {
        match self.phase {
            WorkerPhase::Polling => match event {
                WorkerEvent::BatchSent => false,
                WorkerEvent::BatchFailed => false,
                _ => true,
            },
            WorkerPhase::Sending(kind) => match event {
                WorkerEvent::BatchSent => true,
                WorkerEvent::BatchFailed => kind == FlushKind::Final || self.retry_delay_ms <= u64::MAX / 2,
                _ => false,
            },
            WorkerPhase::Backoff => match event {
                WorkerEvent::ShutdownRequested => true,
                WorkerEvent::BatchSent => true,
                WorkerEvent::BatchFailed => self.retry_delay_ms <= u64::MAX / 2,
                _ => false,
            },
            WorkerPhase::Finished => false,
        }
    }

    /// Takes the outcome of the last outside work and decides what comes next.
    pub fn step(&mut self, event: WorkerEvent) -> (s: WorkerStep)
        requires
            accepts(old(self)@, event),
        ensures
            (final(self)@, s) == next(old(self)@, event),
    {
        proof {
            use_type_invariant(&*self);
        }
        match self.phase {
            WorkerPhase::Polling => match event {
                WorkerEvent::Received(t, secs) => {
                    let mut buffer: Vec<TransactionTiming> = Vec::new();
                    std::mem::swap(&mut buffer, &mut self.buffer);
                    buffer.push(t);
                    let len = buffer.len();
                    let flush = len >= self.config.batch_size || secs >= self.config.batch_timeout_secs;
                    *self = WorkerState {
                        config: self.config,
                        buffer,
                        retry_delay_ms: self.retry_delay_ms,
                        phase: if flush { WorkerPhase::Sending(FlushKind::Full) } else { WorkerPhase::Polling },
                    };
                    WorkerStep {
                        action: if flush { WorkerAction::SendBuffer } else { WorkerAction::Poll },
                        exported: 0,
                        errors: 0,
                        buffer_size: Some(len as u64),
                        restart_flush_clock: false,
                    }
                },
                WorkerEvent::RecvTimedOut(secs) => {
                    if self.buffer.len() > 0 && secs >= self.config.batch_timeout_secs {
                        self.phase = WorkerPhase::Sending(FlushKind::Partial);
                        Self::plain(WorkerAction::SendBuffer)
                    } else {
                        Self::plain(WorkerAction::Poll)
                    }
                },
                _ => self.stop(),
            },
            WorkerPhase::Sending(kind) => match event {
                WorkerEvent::BatchSent => self.finish_batch(kind, true),
                _ => self.finish_batch(kind, false),
            },
            WorkerPhase::Backoff => match event {
                WorkerEvent::ShutdownRequested => self.stop(),
                WorkerEvent::BatchSent => self.finish_batch(FlushKind::Full, true),
                _ => self.finish_batch(FlushKind::Full, false),
            },
            WorkerPhase::Finished => Self::plain(WorkerAction::Stop),
        }
    }

    fn plain(action: WorkerAction) -> (s: WorkerStep)
        ensures
            s == plain_step(action),
    {
        WorkerStep { action, exported: 0, errors: 0, buffer_size: None, restart_flush_clock: false }
    }

    fn finish_batch(&mut self, kind: FlushKind, delivered: bool) -> (s: WorkerStep)
        requires
            old(self)@.phase == WorkerPhase::Sending(kind) || (old(self)@.phase is Backoff && kind
                == FlushKind::Full),
            !delivered && kind != FlushKind::Final ==> 2 * old(self)@.retry_delay_ms <= u64::MAX,
        ensures
            (final(self)@, s) == after_batch(old(self)@, kind, delivered),
    {
        proof {
            use_type_invariant(&*self);
        }
        let sent = self.buffer.len() as u64;
        if delivered {
            if kind == FlushKind::Final {
                self.phase = WorkerPhase::Finished;
                WorkerStep { exported: sent, ..Self::plain(WorkerAction::Stop) }
            } else {
                *self = WorkerState {
                    config: self.config,
                    buffer: Vec::new(),
                    retry_delay_ms: self.config.retry_base_ms,
                    phase: WorkerPhase::Polling,
                };
                WorkerStep {
                    action: WorkerAction::Poll,
                    exported: sent,
                    errors: 0,
                    buffer_size: Some(0),
                    restart_flush_clock: true,
                }
            }
        } else if kind == FlushKind::Final {
            self.phase = WorkerPhase::Finished;
            Self::plain(WorkerAction::Stop)
        } else {
            let delay = self.retry_delay_ms;
            let doubled = delay * 2;
            let max = self.config.retry_max_ms;
            self.retry_delay_ms = if doubled < max { doubled } else { max };
            let errors = if kind == FlushKind::Full { sent } else { 0 };
            if kind == FlushKind::Full && self.buffer.len() >= self.config.batch_size {
                self.phase = WorkerPhase::Backoff;
                WorkerStep { errors, ..Self::plain(WorkerAction::SleepThenResend(delay)) }
            } else {
                self.phase = WorkerPhase::Polling;
                WorkerStep { errors, ..Self::plain(WorkerAction::SleepThenPoll(delay)) }
            }
        }
    }

    fn stop(&mut self) -> (s: WorkerStep)
        requires
            old(self)@.phase is Polling || old(self)@.phase is Backoff,
        ensures
            (final(self)@, s) == stopping(old(self)@),
    {
        proof {
            use_type_invariant(&*self);
        }
        if self.buffer.len() > 0 {
            self.phase = WorkerPhase::Sending(FlushKind::Final);
            Self::plain(WorkerAction::SendBuffer)
        } else {
            self.phase = WorkerPhase::Finished;
            Self::plain(WorkerAction::Stop)
        }
    }
}

/// The retry delay after `failures` consecutive failed batches, starting
/// from the base delay.
pub open spec fn backoff_delay(base: u64, max: u64, failures: nat) -> u64
    decreases failures,
{
    if failures == 0 {
        base
    } else {
        backed_off(backoff_delay(base, max, (failures - 1) as nat), max)
    }
}

/// Every step keeps the worker's invariant: batches are only sent from a
/// non-empty buffer, and the retry delay stays within the configured bounds.
pub proof fn lemma_step_keeps_invariant(w: WorkerView, e: WorkerEvent)
    requires
        worker_wf(w),
        accepts(w, e),
    ensures
        worker_wf(next(w, e).0),
{
}

/// Whether the action posts the buffer (a resend does so unless the
/// shutdown flag is found set first).
pub open spec fn posts_buffer(a: WorkerAction) -> bool {
    a == WorkerAction::SendBuffer || a is SleepThenResend
}

/// A batch request is only ever asked for with records to send.
pub proof fn lemma_no_empty_batch(w: WorkerView, e: WorkerEvent)
    requires
        worker_wf(w),
        accepts(w, e),
    ensures
        posts_buffer(next(w, e).1.action) ==> next(w, e).0.buffer.len() > 0,
{
}

/// With a batch size of at least one, every batch posted carries between
/// one and `batch_size` records.
pub proof fn lemma_batch_bounded(w: WorkerView, e: WorkerEvent)
    requires
        worker_wf(w),
        accepts(w, e),
        w.config.batch_size >= 1,
    ensures
        posts_buffer(next(w, e).1.action) ==> 1 <= next(w, e).0.buffer.len() <= w.config.batch_size,
{
}

/// The worker never sleeps longer than the larger of the base and the
/// maximum retry delay.
pub proof fn lemma_sleep_bounded(w: WorkerView, e: WorkerEvent)
    requires
        worker_wf(w),
        accepts(w, e),
    ensures
        next(w, e).1.action matches WorkerAction::SleepThenPoll(ms) ==> ms <= max_ms(
            w.config.retry_base_ms,
            w.config.retry_max_ms,
        ),
        next(w, e).1.action matches WorkerAction::SleepThenResend(ms) ==> ms <= max_ms(
            w.config.retry_base_ms,
            w.config.retry_max_ms,
        ),
{
}

/// Exponential backoff: after a failed batch the worker sleeps for the
/// current delay and the delay moves one failure further along the backoff
/// sequence; after a delivered batch it is back at the base delay.
pub proof fn lemma_backoff_sequence(w: WorkerView, e: WorkerEvent, failures: nat)
    requires
        accepts(w, e),
        (w.phase matches WorkerPhase::Sending(kind) && kind != FlushKind::Final) || w.phase is Backoff,
        w.retry_delay_ms == backoff_delay(w.config.retry_base_ms, w.config.retry_max_ms, failures),
    ensures
        e is BatchFailed ==> (next(w, e).1.action == WorkerAction::SleepThenPoll(w.retry_delay_ms)
            || next(w, e).1.action == WorkerAction::SleepThenResend(w.retry_delay_ms))
            && next(w, e).0.retry_delay_ms == backoff_delay(
            w.config.retry_base_ms,
            w.config.retry_max_ms,
            failures + 1,
        ),
        e is BatchSent ==> next(w, e).0.retry_delay_ms == backoff_delay(
            w.config.retry_base_ms,
            w.config.retry_max_ms,
            0,
        ),
{
}

/// When the base delay is at most the maximum, the delay after `n`
/// consecutive failures is the base doubled `n` times, capped at the maximum.
pub proof fn lemma_backoff_closed_form(base: u64, max: u64, n: nat)
    requires
        base <= max,
    ensures
        backoff_delay(base, max, n) == if base * pow2(n) < max { base * pow2(n) } else { max as int },
    decreases n,
{
    if n == 0 {
        lemma_pow0(2);
        assert(pow2(0) == 1);
        assert(base * pow2(0) == base);
    } else {
        let m = (n - 1) as nat;
        lemma_backoff_closed_form(base, max, m);
        lemma_pow2_unfold(n);
        assert(base * pow2(n) == 2 * (base * pow2(m))) by (nonlinear_arith)
            requires
                pow2(n) == 2 * pow2(m),
        ;
        assert(base * pow2(m) >= 0) by (nonlinear_arith);
    }
}

/// A failed batch that is not the final one is kept whole for the retry.
pub proof fn lemma_failed_batch_kept(w: WorkerView, e: WorkerEvent)
    requires
        accepts(w, e),
        (w.phase matches WorkerPhase::Sending(kind) && kind != FlushKind::Final) || w.phase is Backoff,
        e is BatchFailed,
    ensures
        next(w, e).0.buffer == w.buffer,
        next(w, e).0.phase is Backoff || next(w, e).0.phase is Polling,
        next(w, e).0.phase is Backoff <==> (w.phase != WorkerPhase::Sending(FlushKind::Partial)
            && w.buffer.len() >= w.config.batch_size),
{
}

/// No record is lost or counted twice before the final flush: a received
/// record joins the end of the buffer, and a delivered batch moves the whole
/// buffer into the exported count.
pub proof fn lemma_records_conserved(w: WorkerView, e: WorkerEvent)
    requires
        accepts(w, e),
        w.phase != WorkerPhase::Sending(FlushKind::Final),
        w.buffer.len() < u64::MAX,
    ensures
        next(w, e).0.buffer.len() + next(w, e).1.exported == w.buffer.len() + (if e is Received {
            1int
        } else {
            0int
        }),
        e matches WorkerEvent::Received(t, secs) ==> next(w, e).0.buffer == w.buffer.push(t),
{
}

/// Whenever the buffer-size gauge is updated, it is set to the buffer's
/// length.
pub proof fn lemma_gauge_tracks_buffer(w: WorkerView, e: WorkerEvent)
    requires
        accepts(w, e),
        w.buffer.len() < u64::MAX,
    ensures
        next(w, e).1.buffer_size matches Some(n) ==> n == next(w, e).0.buffer.len(),
{
}

/// The worker stops exactly when it reaches its finished phase, and it only
/// gets there through a shutdown or a disconnect with an empty buffer, or at
/// the end of the final flush.
pub proof fn lemma_stop_is_final(w: WorkerView, e: WorkerEvent)
    requires
        accepts(w, e),
    ensures
        (next(w, e).1.action == WorkerAction::Stop) <==> (next(w, e).0.phase == WorkerPhase::Finished),
        next(w, e).0.phase == WorkerPhase::Finished ==> (w.phase == WorkerPhase::Sending(
            FlushKind::Final,
        ) || (w.buffer.len() == 0 && (e is ShutdownRequested || e is Disconnected))),
{
}

/// The worker's state after a run of events from `w0`.
pub open spec fn state_after(w0: WorkerView, events: Seq<WorkerEvent>) -> WorkerView
    decreases events.len(),
{
    if events.len() == 0 {
        w0
    } else {
        next(state_after(w0, events.drop_last()), events.last()).0
    }
}

/// Whether the worker takes every event of the run, in turn.
pub open spec fn run_accepted(w0: WorkerView, events: Seq<WorkerEvent>) -> bool
    decreases events.len(),
{
    if events.len() == 0 {
        true
    } else {
        run_accepted(w0, events.drop_last()) && accepts(state_after(w0, events.drop_last()), events.last())
    }
}

/// The records received during a run, in order.
pub open spec fn received_in(events: Seq<WorkerEvent>) -> Seq<TransactionTiming>
    decreases events.len(),
{
    if events.len() == 0 {
        Seq::empty()
    } else {
        received_in(events.drop_last()) + match events.last() {
            WorkerEvent::Received(t, _) => seq![t],
            _ => Seq::empty(),
        }
    }
}

/// The records of the batches delivered during a run, in delivery order.
pub open spec fn delivered_in(w0: WorkerView, events: Seq<WorkerEvent>) -> Seq<TransactionTiming>
    decreases events.len(),
{
    if events.len() == 0 {
        Seq::empty()
    } else {
        delivered_in(w0, events.drop_last()) + if events.last() is BatchSent {
            state_after(w0, events.drop_last()).buffer
        } else {
            Seq::empty()
        }
    }
}

/// The sum of the exported counts that the steps of a run report.
pub open spec fn exported_in(w0: WorkerView, events: Seq<WorkerEvent>) -> int
    decreases events.len(),
{
    if events.len() == 0 {
        0
    } else {
        exported_in(w0, events.drop_last()) + next(
            state_after(w0, events.drop_last()),
            events.last(),
        ).1.exported
    }
}

/// Over a whole run from a fresh worker, the delivered batches, in order,
/// are a prefix of the records received: no record is delivered twice or
/// out of order. Until the worker finishes, the delivered records followed
/// by the buffer are exactly the records received. The exported counts the
/// steps report add up to the number of records delivered.
pub proof fn lemma_run_delivers_prefix(config: ExportConfig, events: Seq<WorkerEvent>)
    requires
        run_accepted(initial_view(config), events),
        events.len() < u64::MAX,
    ensures
        received_in(events).len() <= events.len(),
        state_after(initial_view(config), events).phase != WorkerPhase::Finished ==> delivered_in(
            initial_view(config),
            events,
        ) + state_after(initial_view(config), events).buffer == received_in(events),
        delivered_in(initial_view(config), events).len() <= received_in(events).len(),
        delivered_in(initial_view(config), events) == received_in(events).subrange(
            0,
            delivered_in(initial_view(config), events).len() as int,
        ),
        exported_in(initial_view(config), events) == delivered_in(initial_view(config), events).len(),
    decreases events.len(),
{
    let w0 = initial_view(config);
    if events.len() == 0 {
        assert(delivered_in(w0, events) + w0.buffer =~= received_in(events));
        assert(delivered_in(w0, events) =~= received_in(events).subrange(0, 0));
    } else {
        let prev = events.drop_last();
        let e = events.last();
        lemma_run_delivers_prefix(config, prev);
        let w = state_after(w0, prev);
        let d = delivered_in(w0, prev);
        let r = received_in(prev);
        assert(w.phase != WorkerPhase::Finished);
        assert(d + w.buffer == r);
        assert(w.buffer.len() <= r.len());
        let w2 = state_after(w0, events);
        let d2 = delivered_in(w0, events);
        let r2 = received_in(events);
        assert(w2 == next(w, e).0);
        match e {
            WorkerEvent::Received(t, secs) => {
                assert(r2 =~= r.push(t));
                assert(d2 =~= d);
                assert(d2 + w2.buffer =~= r2);
                assert(d2 =~= r2.subrange(0, d2.len() as int));
            },
            WorkerEvent::BatchSent => {
                assert(r2 =~= r);
                assert(d2 =~= d + w.buffer);
                if w2.phase != WorkerPhase::Finished {
                    assert(w2.buffer =~= Seq::<TransactionTiming>::empty());
                    assert(d2 + w2.buffer =~= r2);
                }
                assert(d2 =~= r2.subrange(0, d2.len() as int));
            },
            _ => {
                assert(r2 =~= r);
                assert(d2 =~= d);
                if w2.phase != WorkerPhase::Finished {
                    assert(w2.buffer == w.buffer);
                }
                assert(d2 =~= r2.subrange(0, d2.len() as int));
            },
        }
    }
}

/// The buffer-size gauge after a run: the last value a step reported, or
/// the starting buffer's length if none did.
pub open spec fn gauge_after(w0: WorkerView, events: Seq<WorkerEvent>) -> int
    decreases events.len(),
{
    if events.len() == 0 {
        w0.buffer.len() as int
    } else {
        match next(state_after(w0, events.drop_last()), events.last()).1.buffer_size {
            Some(n) => n as int,
            None => gauge_after(w0, events.drop_last()),
        }
    }
}

/// Over a whole run from a fresh worker, the buffer-size gauge always equals
/// the number of records in the buffer; until the worker finishes, those are
/// the records received but not yet delivered.
pub proof fn lemma_run_gauge(config: ExportConfig, events: Seq<WorkerEvent>)
    requires
        run_accepted(initial_view(config), events),
        events.len() < u64::MAX,
    ensures
        gauge_after(initial_view(config), events) == state_after(initial_view(config), events).buffer.len(),
        state_after(initial_view(config), events).phase != WorkerPhase::Finished ==> gauge_after(
            initial_view(config),
            events,
        ) == received_in(events).len() - delivered_in(initial_view(config), events).len(),
    decreases events.len(),
{
    lemma_run_delivers_prefix(config, events);
    if events.len() > 0 {
        let prev = events.drop_last();
        lemma_run_gauge(config, prev);
        lemma_run_delivers_prefix(config, prev);
        let w = state_after(initial_view(config), prev);
        assert(w.phase != WorkerPhase::Finished);
        assert(w.buffer.len() <= received_in(prev).len());
    }
}

/// Every state of a run from a fresh worker keeps the worker's invariant;
/// in particular, with a batch size of at least one, every batch the run
/// posts carries between one and `batch_size` records.
pub proof fn lemma_run_keeps_invariant(config: ExportConfig, events: Seq<WorkerEvent>)
    requires
        run_accepted(initial_view(config), events),
    ensures
        state_after(initial_view(config), events).config == config,
        worker_wf(state_after(initial_view(config), events)),
        config.batch_size >= 1 && holds_batch(state_after(initial_view(config), events).phase) ==> 1
            <= state_after(initial_view(config), events).buffer.len() <= config.batch_size,
    decreases events.len(),
{
    if events.len() > 0 {
        let prev = events.drop_last();
        lemma_run_keeps_invariant(config, prev);
        lemma_step_keeps_invariant(state_after(initial_view(config), prev), events.last());
    }
}

/// A record received while polling joins the end of the buffer. The batch is
/// then flushed exactly when it is full or when at least
/// `batch_timeout_secs` whole seconds have passed since the last flush;
/// otherwise the worker keeps polling.
pub proof fn lemma_received_flush_rule(w: WorkerView, t: TransactionTiming, secs: u64)
    requires
        w.phase is Polling,
        w.buffer.len() < u64::MAX,
    ensures
        next(w, WorkerEvent::Received(t, secs)).0.buffer == w.buffer.push(t),
        next(w, WorkerEvent::Received(t, secs)).1.buffer_size == Some((w.buffer.len() + 1) as u64),
        secs >= w.config.batch_timeout_secs ==> next(w, WorkerEvent::Received(t, secs)).1.action
            == WorkerAction::SendBuffer && next(w, WorkerEvent::Received(t, secs)).0.phase
            == WorkerPhase::Sending(FlushKind::Full),
        w.buffer.len() + 1 >= w.config.batch_size ==> next(w, WorkerEvent::Received(t, secs)).1.action
            == WorkerAction::SendBuffer && next(w, WorkerEvent::Received(t, secs)).0.phase
            == WorkerPhase::Sending(FlushKind::Full),
        secs < w.config.batch_timeout_secs && w.buffer.len() + 1 < w.config.batch_size ==> next(
            w,
            WorkerEvent::Received(t, secs),
        ).1.action == WorkerAction::Poll && next(w, WorkerEvent::Received(t, secs)).0.phase
            == WorkerPhase::Polling,
{
}

/// When the channel is idle, a non-empty buffer is flushed as a partial
/// batch exactly when at least `batch_timeout_secs` whole seconds have passed
/// since the last flush, whatever the number of records buffered; otherwise
/// nothing changes and the worker keeps polling.
pub proof fn lemma_idle_flush_rule(w: WorkerView, secs: u64)
    requires
        w.phase is Polling,
    ensures
        w.buffer.len() > 0 && secs >= w.config.batch_timeout_secs ==> next(
            w,
            WorkerEvent::RecvTimedOut(secs),
        ).1.action == WorkerAction::SendBuffer && next(w, WorkerEvent::RecvTimedOut(secs)).0.phase
            == WorkerPhase::Sending(FlushKind::Partial) && next(
            w,
            WorkerEvent::RecvTimedOut(secs),
        ).0.buffer == w.buffer,
        !(w.buffer.len() > 0 && secs >= w.config.batch_timeout_secs) ==> next(
            w,
            WorkerEvent::RecvTimedOut(secs),
        ).1.action == WorkerAction::Poll && next(w, WorkerEvent::RecvTimedOut(secs)).0 == w,
        next(w, WorkerEvent::RecvTimedOut(secs)).1.exported == 0,
        next(w, WorkerEvent::RecvTimedOut(secs)).1.errors == 0,
{
}

/// What a batch outcome adds to the statistics. A delivered batch adds its
/// size to the exported count and no error. A failed full batch (first send
/// or resend) adds its size to the error count; a failed idle partial batch
/// or final batch adds no error. A failure exports nothing.
pub proof fn lemma_batch_accounting(w: WorkerView, e: WorkerEvent)
    requires
        accepts(w, e),
        holds_batch(w.phase),
        w.buffer.len() < u64::MAX,
    ensures
        e is BatchSent ==> next(w, e).1.exported == w.buffer.len() && next(w, e).1.errors == 0,
        e is BatchFailed ==> next(w, e).1.exported == 0,
        e is BatchFailed && (w.phase == WorkerPhase::Sending(FlushKind::Full) || w.phase is Backoff)
            ==> next(w, e).1.errors == w.buffer.len(),
        e is BatchFailed && (w.phase == WorkerPhase::Sending(FlushKind::Partial) || w.phase
            == WorkerPhase::Sending(FlushKind::Final)) ==> next(w, e).1.errors == 0,
        e is BatchSent && w.phase != WorkerPhase::Sending(FlushKind::Final) ==> next(w, e).0.buffer.len()
            == 0 && next(w, e).0.retry_delay_ms == w.config.retry_base_ms && next(w, e).0.phase
            is Polling && next(w, e).1.buffer_size == Some(0u64) && next(w, e).1.restart_flush_clock,
        e is BatchFailed && w.phase != WorkerPhase::Sending(FlushKind::Final) ==> next(w, e).0.retry_delay_ms
            == (if 2 * w.retry_delay_ms < w.config.retry_max_ms {
            2 * w.retry_delay_ms
        } else {
            w.config.retry_max_ms as int
        }),
{
}

/// Shutdown or disconnection while polling, and shutdown while waiting to
/// resend, end the worker: with records buffered they are posted as the
/// final batch, with none the worker stops at once. Nothing is counted.
pub proof fn lemma_stop_rule(w: WorkerView, e: WorkerEvent)
    requires
        accepts(w, e),
        (w.phase is Polling && (e is ShutdownRequested || e is Disconnected)) || (w.phase is Backoff
            && e is ShutdownRequested),
    ensures
        w.buffer.len() > 0 ==> next(w, e).1.action == WorkerAction::SendBuffer && next(w, e).0.phase
            == WorkerPhase::Sending(FlushKind::Final),
        w.buffer.len() == 0 ==> next(w, e).1.action == WorkerAction::Stop && next(w, e).0.phase
            is Finished,
        next(w, e).0.buffer == w.buffer,
        next(w, e).1.exported == 0 && next(w, e).1.errors == 0,
{
}

/// Which events the worker takes: every polling outcome while polling;
/// only request outcomes while a batch is out; shutdown or a request outcome
/// while waiting to resend; nothing once finished. A failure that would
/// double the delay past `u64::MAX` is refused.
pub proof fn lemma_accepts_rule(w: WorkerView, e: WorkerEvent)
    ensures
        w.phase is Polling ==> (accepts(w, e) <==> !(e is BatchSent || e is BatchFailed)),
        w.phase is Finished ==> !accepts(w, e),
        w.phase is Sending ==> (accepts(w, e) ==> (e is BatchSent || e is BatchFailed)),
        (w.phase is Sending || w.phase is Backoff) ==> (e is BatchSent ==> accepts(w, e)),
        w.phase is Backoff ==> (accepts(w, e) ==> (e is ShutdownRequested || e is BatchSent
            || e is BatchFailed)),
        w.phase is Backoff && e is ShutdownRequested ==> accepts(w, e),
        holds_batch(w.phase) && w.phase != WorkerPhase::Sending(FlushKind::Final) && e is BatchFailed
            ==> (accepts(w, e) <==> 2 * w.retry_delay_ms <= u64::MAX),
{
}

} // verus!
