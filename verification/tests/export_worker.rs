use timing_exporter::export_worker::{
    FlushKind, WorkerAction, WorkerEvent, WorkerPhase, WorkerState, WorkerStep,
};
use timing_exporter::ledger::{ExportConfig, TransactionTiming};

fn record(slot: u64) -> TransactionTiming {
    TransactionTiming {
        signature: format!("sig{}", slot),
        slot,
        poh_tick: slot * 10,
        entry_index: 0,
        tx_index: 0,
        accounts_read: vec!["account1".to_string()],
        accounts_written: vec![],
        is_vote: false,
    }
}

fn config(batch_size: usize, base: u64, max: u64) -> ExportConfig {
    ExportConfig {
        batch_size,
        batch_timeout_secs: 5,
        channel_capacity: 100,
        retry_base_ms: base,
        retry_max_ms: max,
        enable_compression: false,
    }
}

fn step(w: &mut WorkerState, e: WorkerEvent) -> WorkerStep {
    assert!(w.accepts(&e));
    w.step(e)
}

#[test]
fn fills_a_batch_then_sends_it() {
    let mut w = WorkerState::new(config(2, 100, 1000));
    let s = step(&mut w, WorkerEvent::Received(record(1), 0));
    assert_eq!(s.action, WorkerAction::Poll);
    assert_eq!(s.buffer_size, Some(1));
    let s = step(&mut w, WorkerEvent::Received(record(2), 0));
    assert_eq!(s.action, WorkerAction::SendBuffer);
    assert_eq!(s.buffer_size, Some(2));
    assert_eq!(w.phase(), WorkerPhase::Sending(FlushKind::Full));
    assert_eq!(w.buffer().len(), 2);
    let s = step(&mut w, WorkerEvent::BatchSent);
    assert_eq!(
        s,
        WorkerStep {
            action: WorkerAction::Poll,
            exported: 2,
            errors: 0,
            buffer_size: Some(0),
            restart_flush_clock: true
        }
    );
    assert!(w.buffer().is_empty());
    assert_eq!(w.phase(), WorkerPhase::Polling);
}

#[test]
fn flush_timeout_sends_a_short_batch() {
    let mut w = WorkerState::new(config(10, 100, 1000));
    let s = step(&mut w, WorkerEvent::Received(record(1), 5));
    assert_eq!(s.action, WorkerAction::SendBuffer);
    assert_eq!(w.phase(), WorkerPhase::Sending(FlushKind::Full));
}

#[test]
fn failed_batch_is_retried_with_backoff() {
    let mut w = WorkerState::new(config(2, 100, 250));
    step(&mut w, WorkerEvent::Received(record(1), 0));
    step(&mut w, WorkerEvent::Received(record(2), 0));
    let s = step(&mut w, WorkerEvent::BatchFailed);
    assert_eq!(s.action, WorkerAction::SleepThenResend(100));
    assert_eq!(s.errors, 2);
    assert_eq!(w.phase(), WorkerPhase::Backoff);
    assert_eq!(w.buffer().len(), 2);
    // A full batch is resent as it is: nothing more is received meanwhile.
    assert!(!w.accepts(&WorkerEvent::Received(record(3), 0)));
    let s = step(&mut w, WorkerEvent::BatchFailed);
    assert_eq!(s.action, WorkerAction::SleepThenResend(200));
    assert_eq!(s.errors, 2);
    let s = step(&mut w, WorkerEvent::BatchFailed);
    assert_eq!(s.action, WorkerAction::SleepThenResend(250));
    let s = step(&mut w, WorkerEvent::BatchFailed);
    assert_eq!(s.action, WorkerAction::SleepThenResend(250));
    assert_eq!(w.buffer().len(), 2);
    let s = step(&mut w, WorkerEvent::BatchSent);
    assert_eq!(s.exported, 2);
    assert_eq!(s.action, WorkerAction::Poll);
    assert!(w.buffer().is_empty());
    // Success resets the delay to the base.
    step(&mut w, WorkerEvent::Received(record(3), 0));
    step(&mut w, WorkerEvent::Received(record(4), 0));
    let s = step(&mut w, WorkerEvent::BatchFailed);
    assert_eq!(s.action, WorkerAction::SleepThenResend(100));
}

#[test]
fn batch_of_one_is_resent_alone() {
    let mut w = WorkerState::new(config(1, 100, 1000));
    let s = step(&mut w, WorkerEvent::Received(record(1), 0));
    assert_eq!(s.action, WorkerAction::SendBuffer);
    let s = step(&mut w, WorkerEvent::BatchFailed);
    assert_eq!(s.action, WorkerAction::SleepThenResend(100));
    assert_eq!(w.buffer().len(), 1);
    let s = step(&mut w, WorkerEvent::BatchSent);
    assert_eq!(s.exported, 1);
}

#[test]
fn failed_short_batch_goes_back_to_polling() {
    let mut w = WorkerState::new(config(3, 100, 1000));
    // The flush timeout makes a batch of one due.
    let s = step(&mut w, WorkerEvent::Received(record(1), 5));
    assert_eq!(s.action, WorkerAction::SendBuffer);
    let s = step(&mut w, WorkerEvent::BatchFailed);
    assert_eq!(s.action, WorkerAction::SleepThenPoll(100));
    assert_eq!(s.errors, 1);
    assert_eq!(w.phase(), WorkerPhase::Polling);
    step(&mut w, WorkerEvent::Received(record(2), 0));
    let s = step(&mut w, WorkerEvent::Received(record(3), 0));
    assert_eq!(s.action, WorkerAction::SendBuffer);
    assert_eq!(w.buffer().len(), 3);
}

#[test]
fn shutdown_during_backoff_flushes_the_batch() {
    let mut w = WorkerState::new(config(2, 100, 1000));
    step(&mut w, WorkerEvent::Received(record(1), 0));
    step(&mut w, WorkerEvent::Received(record(2), 0));
    step(&mut w, WorkerEvent::BatchFailed);
    let s = step(&mut w, WorkerEvent::ShutdownRequested);
    assert_eq!(s.action, WorkerAction::SendBuffer);
    assert_eq!(w.phase(), WorkerPhase::Sending(FlushKind::Final));
    let s = step(&mut w, WorkerEvent::BatchSent);
    assert_eq!(s.action, WorkerAction::Stop);
    assert_eq!(s.exported, 2);
}

#[test]
fn records_keep_their_order() {
    let mut w = WorkerState::new(config(3, 100, 1000));
    step(&mut w, WorkerEvent::Received(record(7), 0));
    step(&mut w, WorkerEvent::Received(record(3), 0));
    step(&mut w, WorkerEvent::Received(record(9), 0));
    let slots: Vec<u64> = w.buffer().iter().map(|t| t.slot).collect();
    assert_eq!(slots, vec![7, 3, 9]);
}

#[test]
fn idle_timeout_flushes_partial_batch_without_counting_errors() {
    let mut w = WorkerState::new(config(10, 100, 1000));
    step(&mut w, WorkerEvent::Received(record(1), 1));
    let s = step(&mut w, WorkerEvent::RecvTimedOut(4));
    assert_eq!(s.action, WorkerAction::Poll);
    let s = step(&mut w, WorkerEvent::RecvTimedOut(5));
    assert_eq!(s.action, WorkerAction::SendBuffer);
    assert_eq!(w.phase(), WorkerPhase::Sending(FlushKind::Partial));
    let s = step(&mut w, WorkerEvent::BatchFailed);
    assert_eq!(s.action, WorkerAction::SleepThenPoll(100));
    assert_eq!(s.errors, 0);
    assert_eq!(w.buffer().len(), 1);
    step(&mut w, WorkerEvent::RecvTimedOut(6));
    let s = step(&mut w, WorkerEvent::BatchSent);
    assert_eq!(s.exported, 1);
    assert_eq!(s.buffer_size, Some(0));
    assert!(s.restart_flush_clock);
}

#[test]
fn idle_timeout_with_empty_buffer_keeps_polling() {
    let mut w = WorkerState::new(config(10, 100, 1000));
    let s = step(&mut w, WorkerEvent::RecvTimedOut(60));
    assert_eq!(s.action, WorkerAction::Poll);
    assert_eq!(w.phase(), WorkerPhase::Polling);
}

#[test]
fn shutdown_with_empty_buffer_stops() {
    let mut w = WorkerState::new(config(10, 100, 1000));
    let s = step(&mut w, WorkerEvent::ShutdownRequested);
    assert_eq!(s.action, WorkerAction::Stop);
    assert_eq!(w.phase(), WorkerPhase::Finished);
    assert!(!w.accepts(&WorkerEvent::RecvTimedOut(0)));
}

#[test]
fn disconnect_flushes_remaining_records() {
    let mut w = WorkerState::new(config(10, 100, 1000));
    step(&mut w, WorkerEvent::Received(record(1), 0));
    step(&mut w, WorkerEvent::Received(record(2), 0));
    let s = step(&mut w, WorkerEvent::Disconnected);
    assert_eq!(s.action, WorkerAction::SendBuffer);
    assert_eq!(w.phase(), WorkerPhase::Sending(FlushKind::Final));
    let s = step(&mut w, WorkerEvent::BatchSent);
    assert_eq!(s.action, WorkerAction::Stop);
    assert_eq!(s.exported, 2);
    assert_eq!(w.phase(), WorkerPhase::Finished);
}

#[test]
fn failed_final_flush_stops_without_counts() {
    let mut w = WorkerState::new(config(10, 100, 1000));
    step(&mut w, WorkerEvent::Received(record(1), 0));
    step(&mut w, WorkerEvent::ShutdownRequested);
    let s = step(&mut w, WorkerEvent::BatchFailed);
    assert_eq!(
        s,
        WorkerStep {
            action: WorkerAction::Stop,
            exported: 0,
            errors: 0,
            buffer_size: None,
            restart_flush_clock: false
        }
    );
}

#[test]
fn out_of_turn_events_are_refused() {
    let mut w = WorkerState::new(config(1, 100, 1000));
    assert!(!w.accepts(&WorkerEvent::BatchSent));
    assert!(!w.accepts(&WorkerEvent::BatchFailed));
    step(&mut w, WorkerEvent::Received(record(1), 0));
    assert!(!w.accepts(&WorkerEvent::RecvTimedOut(0)));
    assert!(w.accepts(&WorkerEvent::BatchFailed));
}

#[test]
fn doubling_that_would_overflow_is_refused() {
    let mut w = WorkerState::new(config(1, u64::MAX / 2 + 1, u64::MAX));
    step(&mut w, WorkerEvent::Received(record(1), 0));
    assert!(!w.accepts(&WorkerEvent::BatchFailed));
    assert!(w.accepts(&WorkerEvent::BatchSent));
}

#[test]
fn zero_base_delay_stays_zero() {
    let mut w = WorkerState::new(config(1, 0, 1000));
    step(&mut w, WorkerEvent::Received(record(1), 0));
    let s = step(&mut w, WorkerEvent::BatchFailed);
    assert_eq!(s.action, WorkerAction::SleepThenResend(0));
    let s = step(&mut w, WorkerEvent::BatchFailed);
    assert_eq!(s.action, WorkerAction::SleepThenResend(0));
}
