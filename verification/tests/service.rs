//! Tests for the running service: the fan-out bus, the protocol server,
//! and the registry with its expiry scheduler.

use rnd::bus::{Bus, RecvError, BUS_CAPACITY};
use rnd::hints::{HintValue, ProtocolError, WireValue};
use rnd::notification::{Expiry, Notification, NotificationMsg};
use rnd::receiver::{
    NotificationReceiver, OutSignal, REASON_CLOSED_BY_CALL, REASON_DISMISSED, REASON_EXPIRED,
};
use rnd::registry::{tick_due, Registry, TICK_MS};

fn note(id: u32, replaces_id: u32, expire_timeout: Expiry, start_time: u64) -> Notification {
    Notification {
        id,
        app_name: "app".to_string(),
        replaces_id,
        app_icon: String::new(),
        summary: format!("notification {}", id),
        body: String::new(),
        actions: Vec::new(),
        hints: Vec::new(),
        start_time,
        expire_timeout,
    }
}

fn msg(id: u32) -> NotificationMsg {
    NotificationMsg::Notification(note(id, 0, Expiry::Never, 0))
}

fn msg_note(m: NotificationMsg) -> Notification {
    match m {
        NotificationMsg::Notification(n) => n,
    }
}

fn post(server: &mut NotificationReceiver, summary: &str, expire_timeout: i32, now: u64) -> u32 {
    server
        .notify(
            "app".to_string(),
            0,
            String::new(),
            summary.to_string(),
            String::new(),
            Vec::new(),
            Vec::new(),
            expire_timeout,
            now,
        )
        .unwrap()
}

#[test]
fn publish_needs_no_subscriber() {
    let mut bus = Bus::new();
    bus.publish(msg(1));
    bus.publish(msg(2));
}

#[test]
fn subscriber_sees_messages_in_publish_order() {
    let mut bus = Bus::new();
    let mut sub = bus.subscribe();
    bus.publish(msg(1));
    bus.publish(msg(2));
    bus.publish(msg(3));
    let mut seen = Vec::new();
    while let Ok(m) = sub.try_recv(&bus) {
        seen.push(msg_note(m).id);
    }
    assert_eq!(seen, vec![1, 2, 3]);
}

#[test]
fn subscriber_attached_later_sees_only_later_messages() {
    let mut bus = Bus::new();
    bus.publish(msg(1));
    let mut sub = bus.subscribe();
    bus.publish(msg(2));
    assert_eq!(msg_note(sub.try_recv(&bus).unwrap()).id, 2);
    assert!(matches!(sub.try_recv(&bus), Err(RecvError::Empty)));
}

#[test]
fn empty_bus_reports_empty() {
    let bus = Bus::new();
    let mut sub = bus.subscribe();
    assert!(matches!(sub.try_recv(&bus), Err(RecvError::Empty)));
}

#[test]
fn lagging_subscriber_observes_a_gap_and_resumes() {
    let mut bus = Bus::new();
    let mut sub = bus.subscribe();
    let total = (BUS_CAPACITY + 1) as u32;
    for id in 1..=total {
        bus.publish(msg(id));
    }
    // One more message was published than the bus retains: the oldest one
    // is gone, and the subscriber is told how much it missed.
    match sub.try_recv(&bus) {
        Err(RecvError::Lagged(missed)) => assert_eq!(missed, 1),
        other => panic!("expected a gap, got {:?}", other),
    }
    // After the gap it receives the whole retained window in order, with
    // no duplicates, and then runs dry.
    let mut seen = Vec::new();
    while let Ok(m) = sub.try_recv(&bus) {
        seen.push(msg_note(m).id);
    }
    let expected: Vec<u32> = (2..=total).collect();
    assert_eq!(seen, expected);
    assert!(matches!(sub.try_recv(&bus), Err(RecvError::Empty)));
}

#[test]
fn notify_returns_fresh_distinct_ids() {
    let mut server = NotificationReceiver::new();
    let first = post(&mut server, "one", -1, 0);
    let second = post(&mut server, "two", -1, 0);
    let third = post(&mut server, "three", 0, 1);
    assert_ne!(first, second);
    assert_ne!(first, third);
    assert_ne!(second, third);
}

#[test]
fn concurrent_callers_never_share_an_id() {
    // The IPC layer holds the server exclusively per call, so two calls
    // landing within the same tick window run back to back.
    let mut server = NotificationReceiver::new();
    let mut sub = server.subscribe();
    let a = post(&mut server, "from caller a", 200, 50);
    let b = post(&mut server, "from caller b", 200, 50);
    assert_ne!(a, b);
    let first = msg_note(sub.try_recv(server.bus()).unwrap());
    let second = msg_note(sub.try_recv(server.bus()).unwrap());
    assert_eq!(first.id, a);
    assert_eq!(second.id, b);
}

#[test]
fn notify_publishes_the_normalized_record() {
    let mut server = NotificationReceiver::new();
    let mut sub = server.subscribe();
    let id = server
        .notify(
            "mailer".to_string(),
            0,
            "mail-icon".to_string(),
            "new mail".to_string(),
            "body text".to_string(),
            vec!["default".to_string(), "Open".to_string()],
            vec![("urgency".to_string(), WireValue::Byte(2))],
            -1,
            99,
        )
        .unwrap();
    let n = msg_note(sub.try_recv(server.bus()).unwrap());
    assert_eq!(n.id, id);
    assert_eq!(n.app_name, "mailer");
    assert_eq!(n.app_icon, "mail-icon");
    assert_eq!(n.summary, "new mail");
    assert_eq!(n.body, "body text");
    assert_eq!(n.start_time, 99);
    assert_eq!(n.expire_timeout, Expiry::Milliseconds(5000));
    assert_eq!(n.actions, vec![("default".to_string(), "Open".to_string())]);
    assert_eq!(n.hints, vec![("urgency".to_string(), HintValue::Int(2))]);
}

#[test]
fn rejected_notify_publishes_nothing() {
    let mut server = NotificationReceiver::new();
    let mut sub = server.subscribe();
    let out = server.notify(
        "app".to_string(),
        0,
        String::new(),
        "s".to_string(),
        String::new(),
        Vec::new(),
        vec![("stream".to_string(), WireValue::Fd(7))],
        -1,
        0,
    );
    assert_eq!(out, Err(ProtocolError::HintNotConvertible));
    assert!(matches!(sub.try_recv(server.bus()), Err(RecvError::Empty)));
    // The failed call did not burn an id.
    assert_eq!(post(&mut server, "next", -1, 0), 1);
}

#[test]
fn close_notification_owes_a_reason_three_signal() {
    let server = NotificationReceiver::new();
    assert_eq!(
        server.close_notification(12),
        OutSignal::NotificationClosed(12, REASON_CLOSED_BY_CALL)
    );
}

#[test]
fn capabilities_are_static() {
    let server = NotificationReceiver::new();
    let caps = server.get_capabilities();
    assert_eq!(caps, vec!["body".to_string(), "actions".to_string(), "body-images".to_string()]);
}

#[test]
fn server_information_is_static() {
    let server = NotificationReceiver::new();
    let (name, vendor, version, spec_version) = server.get_server_information();
    assert_eq!(name, "NotificationDaemon");
    assert_eq!(vendor, "1.0");
    assert_eq!(version, "rnd");
    assert_eq!(spec_version, "1.0");
}

#[test]
fn history_calls_are_acknowledged() {
    let server = NotificationReceiver::new();
    assert!(server.update_history().is_ok());
    assert!(server.open_history().is_ok());
    assert!(server.close_history().is_ok());
    assert!(server.toggle_history().is_ok());
    assert_eq!(server.reply_close(3), Ok(()));
}

#[test]
fn signals_carry_their_arguments() {
    assert_eq!(
        NotificationReceiver::action_invoked(4, "default".to_string()),
        OutSignal::ActionInvoked(4, "default".to_string())
    );
    assert_eq!(
        NotificationReceiver::notification_closed(4, REASON_EXPIRED),
        OutSignal::NotificationClosed(4, 1)
    );
    assert_eq!(
        NotificationReceiver::notification_replied(4, "ok".to_string()),
        OutSignal::NotificationReplied(4, "ok".to_string())
    );
}

#[test]
fn registry_displays_received_records() {
    let mut reg = Registry::new();
    reg.handle_msg(msg(1));
    reg.handle_msg(msg(2));
    assert_eq!(reg.len(), 2);
    assert!(reg.contains_id(1));
    assert!(reg.contains_id(2));
    assert!(!reg.contains_id(3));
}

#[test]
fn record_with_same_id_replaces_the_entry() {
    let mut reg = Registry::new();
    reg.insert(note(1, 0, Expiry::Never, 0));
    let mut updated = note(1, 0, Expiry::Never, 5);
    updated.summary = "updated".to_string();
    reg.insert(updated);
    assert_eq!(reg.len(), 1);
    assert_eq!(reg.get(1).unwrap().summary, "updated");
}

#[test]
fn nonzero_replaces_id_supersedes_the_live_entry() {
    let mut reg = Registry::new();
    reg.insert(note(1, 0, Expiry::Never, 0));
    reg.insert(note(2, 1, Expiry::Never, 3));
    assert_eq!(reg.len(), 1);
    assert!(!reg.contains_id(1));
    assert!(reg.contains_id(2));
}

#[test]
fn replaces_id_zero_means_a_new_entry() {
    let mut reg = Registry::new();
    reg.insert(note(1, 0, Expiry::Never, 0));
    reg.insert(note(2, 0, Expiry::Never, 0));
    assert_eq!(reg.len(), 2);
}

#[test]
fn never_expiring_notification_survives_the_scheduler() {
    let mut server = NotificationReceiver::new();
    let mut sub = server.subscribe();
    let id = post(&mut server, "pinned", 0, 0);
    let mut reg = Registry::new();
    while let Ok(m) = sub.try_recv(server.bus()) {
        reg.handle_msg(m);
    }
    // Run the scheduler for 10 seconds at its 100 ms cadence.
    let mut now: u64 = 0;
    while now <= 10_000 {
        let signals = reg.sweep(now);
        assert!(signals.is_empty());
        now += TICK_MS;
    }
    assert!(reg.contains_id(id));
}

#[test]
fn timed_notification_is_evicted_with_one_expiry_signal() {
    let mut server = NotificationReceiver::new();
    let mut sub = server.subscribe();
    let id = post(&mut server, "fleeting", 200, 0);
    let mut reg = Registry::new();
    while let Ok(m) = sub.try_recv(server.bus()) {
        reg.handle_msg(m);
    }
    // 300 ms of ticks at the 100 ms cadence: alive while elapsed <= 200,
    // evicted on the 300 ms tick, with exactly one closure signal.
    let mut expiries = Vec::new();
    let mut now: u64 = 0;
    while now <= 300 {
        for s in reg.sweep(now) {
            expiries.push(s);
        }
        now += TICK_MS;
    }
    assert!(!reg.contains_id(id));
    assert_eq!(expiries, vec![OutSignal::NotificationClosed(id, REASON_EXPIRED)]);
}

#[test]
fn sweep_only_evicts_expired_entries() {
    let mut reg = Registry::new();
    reg.insert(note(1, 0, Expiry::Milliseconds(100), 0));
    reg.insert(note(2, 0, Expiry::Milliseconds(500), 0));
    reg.insert(note(3, 0, Expiry::Never, 0));
    let signals = reg.sweep(300);
    assert_eq!(signals, vec![OutSignal::NotificationClosed(1, REASON_EXPIRED)]);
    assert!(!reg.contains_id(1));
    assert!(reg.contains_id(2));
    assert!(reg.contains_id(3));
}

#[test]
fn elapsed_time_counts_from_each_start_time() {
    let mut reg = Registry::new();
    reg.insert(note(1, 0, Expiry::Milliseconds(100), 1000));
    // 1050: only 50 ms elapsed, the entry stays.
    assert!(reg.sweep(1050).is_empty());
    assert!(reg.contains_id(1));
    // 1101: 101 ms elapsed, the entry goes.
    let signals = reg.sweep(1101);
    assert_eq!(signals.len(), 1);
    assert!(!reg.contains_id(1));
}

#[test]
fn explicit_close_withdraws_and_signals() {
    let mut reg = Registry::new();
    reg.insert(note(4, 0, Expiry::Never, 0));
    let signal = reg.close(4, REASON_CLOSED_BY_CALL);
    assert_eq!(signal, Some(OutSignal::NotificationClosed(4, REASON_CLOSED_BY_CALL)));
    assert!(!reg.contains_id(4));
    assert_eq!(reg.close(4, REASON_CLOSED_BY_CALL), None);
}

#[test]
fn action_invocation_signals_and_dismisses() {
    let mut reg = Registry::new();
    reg.insert(note(4, 0, Expiry::Never, 0));
    let signals = reg.invoke_action(4, "default".to_string());
    assert_eq!(
        signals,
        vec![
            OutSignal::ActionInvoked(4, "default".to_string()),
            OutSignal::NotificationClosed(4, REASON_DISMISSED),
        ]
    );
    assert!(!reg.contains_id(4));
    assert!(reg.invoke_action(4, "default".to_string()).is_empty());
}

#[test]
fn tick_fires_once_the_cadence_has_elapsed() {
    assert!(!tick_due(1000, 1099, TICK_MS));
    assert!(tick_due(1000, 1100, TICK_MS));
    assert!(tick_due(1000, 1500, TICK_MS));
    // A monotonic reading never goes backwards; if it appears to, no tick
    // fires.
    assert!(!tick_due(1000, 900, TICK_MS));
}
