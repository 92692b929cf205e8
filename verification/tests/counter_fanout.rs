use std::sync::{Arc, Mutex};

use hits::counter::{bump_and_notify, CounterRecord, CounterStore};
use hits::fanout::{
    fanout_channel, publish, subscribe, try_receive, ws_client_step, ws_step, ClientEvent,
    RecvOutcome, WsAction,
};

#[test]
fn bump_counts_from_one() {
    let mut store = CounterStore::new();
    assert_eq!(store.bump("foo".to_string(), 0), 1);
    assert_eq!(store.bump("foo".to_string(), 0), 2);
}

#[test]
fn bump_keys_are_independent() {
    let mut store = CounterStore::new();
    assert_eq!(store.bump("foo".to_string(), 0), 1);
    assert_eq!(store.bump("bar".to_string(), 0), 1);
    assert_eq!(store.bump("foo".to_string(), 0), 2);
    assert_eq!(store.bump("bar".to_string(), 0), 2);
}

#[test]
fn bump_same_window_updates_one_record() {
    let mut store = CounterStore::new();
    store.bump("k".to_string(), 5);
    store.bump("k".to_string(), 5);
    assert_eq!(store.records.len(), 1);
    assert_eq!(store.records[0].count, 2);
    assert_eq!(store.records[0].minute_window, 5);
}

#[test]
fn bump_totals_span_minute_windows() {
    let mut store = CounterStore::new();
    assert_eq!(store.bump("k".to_string(), 5), 1);
    assert_eq!(store.bump("k".to_string(), 6), 2);
    assert_eq!(store.records.len(), 2);
    assert_eq!(store.bump("k".to_string(), 5), 3);
}

#[test]
fn bump_reaches_largest_count() {
    let mut store = CounterStore {
        records: vec![CounterRecord {
            key: "k".to_string(),
            minute_window: 0,
            count: u64::MAX - 1,
        }],
    };
    assert_eq!(store.bump("k".to_string(), 0), u64::MAX);
}

#[test]
fn concurrent_bumps_lose_no_update() {
    const N: usize = 100;
    let store = Arc::new(Mutex::new(CounterStore::new()));
    let (tx, _rx) = fanout_channel(256);
    let tx = Arc::new(tx);
    let rt = tokio::runtime::Builder::new_multi_thread().worker_threads(8).build().unwrap();
    let observed = rt.block_on(async {
        let mut handles = Vec::new();
        for _ in 0..N {
            let store = Arc::clone(&store);
            let tx = Arc::clone(&tx);
            handles.push(tokio::spawn(async move {
                let mut guard = store.lock().unwrap();
                bump_and_notify(&mut guard, &tx, "k".to_string(), 0)
            }));
        }
        let mut observed = Vec::new();
        for h in handles {
            observed.push(h.await.unwrap());
        }
        observed
    });
    // no two calls observed the same pre-increment value
    let mut sorted = observed.clone();
    sorted.sort();
    sorted.dedup();
    assert_eq!(sorted.len(), N);
    // and the final total is exactly N
    let mut guard = store.lock().unwrap();
    assert_eq!(guard.bump("k".to_string(), 1), (N + 1) as u64);
}

#[test]
fn subscriber_before_bump_gets_key_once() {
    let mut store = CounterStore::new();
    let (tx, _rx) = fanout_channel(100);
    let mut early = subscribe(&tx);
    assert_eq!(bump_and_notify(&mut store, &tx, "k".to_string(), 0), 1);
    let mut late = subscribe(&tx);
    match try_receive(&mut early) {
        RecvOutcome::Message(key) => assert_eq!(key, "k"),
        _ => panic!("subscriber connected before the bump must receive the key"),
    }
    assert!(matches!(try_receive(&mut early), RecvOutcome::Empty));
    assert!(matches!(try_receive(&mut late), RecvOutcome::Empty));
}

#[test]
fn publish_reports_subscriber_count() {
    let (tx, rx) = fanout_channel(8);
    assert_eq!(publish(&tx, "a".to_string()), Some(1));
    drop(rx);
    assert_eq!(publish(&tx, "b".to_string()), None);
}

#[test]
fn slow_subscriber_sees_lag_not_blockage() {
    let (tx, _rx) = fanout_channel(2);
    let mut slow = subscribe(&tx);
    for i in 0..6 {
        // publishing never blocks on the slow subscriber
        assert!(publish(&tx, format!("k{}", i)).is_some());
    }
    match try_receive(&mut slow) {
        RecvOutcome::Lagged(n) => assert_eq!(n, 4),
        _ => panic!("a subscriber behind the buffer capacity must see a lag report"),
    }
    // after the lag report it is caught up to the oldest retained message
    match try_receive(&mut slow) {
        RecvOutcome::Message(key) => assert_eq!(key, "k4"),
        _ => panic!("the oldest retained message follows the lag report"),
    }
}

#[test]
fn dropped_publisher_closes_subscriptions() {
    let (tx, _rx) = fanout_channel(4);
    let mut sub = subscribe(&tx);
    assert!(publish(&tx, "last".to_string()).is_some());
    drop(tx);
    drop(_rx);
    // pending messages still arrive, then the channel reports closed
    assert!(matches!(try_receive(&mut sub), RecvOutcome::Message(_)));
    assert!(matches!(try_receive(&mut sub), RecvOutcome::Closed));
}

#[test]
fn ws_step_decisions() {
    assert!(matches!(
        ws_step(RecvOutcome::Message("k".to_string())),
        WsAction::Forward(key) if key == "k"
    ));
    assert!(matches!(ws_step(RecvOutcome::Empty), WsAction::KeepWaiting));
    assert!(matches!(ws_step(RecvOutcome::Lagged(3)), WsAction::KeepWaiting));
    assert!(matches!(ws_step(RecvOutcome::Closed), WsAction::Disconnect));
}

#[test]
fn ws_client_step_decisions() {
    assert!(ws_client_step(ClientEvent::Text));
    assert!(ws_client_step(ClientEvent::Binary));
    assert!(ws_client_step(ClientEvent::Ping));
    assert!(ws_client_step(ClientEvent::Pong));
    assert!(!ws_client_step(ClientEvent::Close));
    assert!(!ws_client_step(ClientEvent::ReadFailed));
}
