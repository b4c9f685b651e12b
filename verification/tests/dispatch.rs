use main_dispatch::dispatch::{Dispatcher, MainCall, ResultSlot};
use main_dispatch::main_thread::MainThreadId;

const MAIN: u64 = 10;
const WORKER: u64 = 20;

fn context() -> (MainThreadId, Dispatcher<i32>) {
    let mut m = MainThreadId::new();
    m.set_current_thread_as_main(MAIN);
    (m, Dispatcher::new())
}

#[test]
fn post_on_main_runs_immediately() {
    let (m, mut d) = context();
    let r = d.on_main(&m, MAIN, 1);
    assert_eq!(r, Some(1));
    let batch = d.invoke_dispatched(&m, MAIN, true, true);
    assert!(batch.callbacks.is_empty());
    assert!(batch.signalled.is_empty());
}

#[test]
fn posts_drain_in_fifo_order_exactly_once() {
    let (m, mut d) = context();
    assert_eq!(d.on_main(&m, WORKER, 1), None);
    assert_eq!(d.on_main(&m, WORKER, 2), None);
    assert_eq!(d.on_main(&m, WORKER, 3), None);
    let batch = d.invoke_dispatched(&m, MAIN, true, true);
    assert_eq!(batch.callbacks, vec![1, 2, 3]);
    let again = d.invoke_dispatched(&m, MAIN, true, true);
    assert!(again.callbacks.is_empty());
}

#[test]
fn contended_pump_skips_and_keeps_work() {
    let (m, mut d) = context();
    d.on_main(&m, WORKER, 1);
    let skipped = d.invoke_dispatched(&m, MAIN, false, false);
    assert!(skipped.callbacks.is_empty());
    assert!(skipped.signalled.is_empty());
    let batch = d.invoke_dispatched(&m, MAIN, true, true);
    assert_eq!(batch.callbacks, vec![1]);
}

#[test]
fn contended_signalled_lock_drains_only_plain_queue() {
    let (m, mut d) = context();
    d.on_main(&m, WORKER, 1);
    match d.on_main_sync(&m, WORKER, 2) {
        MainCall::Submitted(signal) => assert_eq!(signal, 0),
        MainCall::Immediate(_) => panic!("worker submission ran immediately"),
    }
    let batch = d.invoke_dispatched(&m, MAIN, true, false);
    assert_eq!(batch.callbacks, vec![1]);
    assert!(batch.signalled.is_empty());
    let later = d.invoke_dispatched(&m, MAIN, true, true);
    assert_eq!(later.signalled.len(), 1);
    assert_eq!(later.signalled[0].signal, 0);
    assert_eq!(later.signalled[0].action, 2);
}

#[test]
fn bridge_call_on_main_is_immediate() {
    let (m, mut d) = context();
    match d.from_main(&m, MAIN, 42) {
        MainCall::Immediate(action) => assert_eq!(action, 42),
        MainCall::Submitted(_) => panic!("main-thread bridge call was queued"),
    }
    let batch = d.invoke_dispatched(&m, MAIN, true, true);
    assert!(batch.signalled.is_empty());
}

#[test]
fn bridge_round_trip_returns_computed_value() {
    let (m, mut d) = context();
    let signal = match d.from_main(&m, WORKER, 5) {
        MainCall::Submitted(signal) => signal,
        MainCall::Immediate(_) => panic!("worker bridge call ran immediately"),
    };
    let batch = d.invoke_dispatched(&m, MAIN, true, true);
    assert_eq!(batch.signalled.len(), 1);
    assert_eq!(batch.signalled[0].signal, signal);
    let mut slot: ResultSlot<i32> = ResultSlot::new();
    assert!(!slot.is_filled());
    let computed = batch.signalled[0].action * 2;
    slot.put(computed);
    assert!(slot.is_filled());
    assert_eq!(slot.take(), 10);
    assert!(!slot.is_filled());
}

#[test]
fn wait_for_next_frame_submits_noop() {
    let (m, mut d) = context();
    let signal = d.wait_for_next_frame(&m, WORKER, 0);
    let batch = d.invoke_dispatched(&m, MAIN, true, true);
    assert_eq!(batch.signalled.len(), 1);
    assert_eq!(batch.signalled[0].signal, signal);
}

#[test]
fn ok_main_reports_success() {
    let (m, mut d) = context();
    let queued = d.ok_main(&m, WORKER, 9);
    assert!(queued.is_ok());
    assert!(queued.unwrap().is_none());
    let immediate = d.ok_main(&m, MAIN, 9);
    assert_eq!(immediate.unwrap(), Some(9));
}

#[test]
fn enqueue_joins_plain_queue() {
    let (m, mut d) = context();
    d.enqueue(4);
    d.on_main(&m, WORKER, 5);
    let batch = d.invoke_dispatched(&m, MAIN, true, true);
    assert_eq!(batch.callbacks, vec![4, 5]);
}

#[test]
fn signal_tokens_are_fresh() {
    let (m, mut d) = context();
    assert_eq!(d.next_signal(), 0);
    let a = match d.on_main_sync(&m, WORKER, 1) {
        MainCall::Submitted(signal) => signal,
        MainCall::Immediate(_) => panic!("worker submission ran immediately"),
    };
    let b = match d.from_main(&m, WORKER, 2) {
        MainCall::Submitted(signal) => signal,
        MainCall::Immediate(_) => panic!("worker submission ran immediately"),
    };
    assert_ne!(a, b);
    assert_eq!(d.next_signal(), 2);
}
