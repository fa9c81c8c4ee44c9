use obs_comm::engine::{EventManager, RegisterOutcome, Resolution};
use obs_comm::errors::ObsError;
use obs_comm::events::EventNotification;

fn note(event: i32, identifier: Option<i32>) -> EventNotification {
    EventNotification { event, identifier, raw: Vec::new() }
}

fn stored(outcome: RegisterOutcome) -> Option<u64> {
    match outcome {
        RegisterOutcome::Stored { displaced } => displaced,
        _ => panic!("expected the waiter to be stored"),
    }
}

#[test]
fn each_wait_resolves_with_its_own_id_whatever_the_arrival_order() {
    let mut m = EventManager::new();
    for id in 1..=3 {
        stored(m.register_waiter(id, 10 + id, Vec::new(), 1000, id as u64));
    }
    // Arrival order 2, 3, 1 — each resolution carries the matching id's slot.
    for id in [2, 3, 1] {
        let (res, fired) = m.handle_notification(&note(10 + id, Some(id)));
        assert!(fired.is_empty());
        let r: Resolution = res.expect("the matching waiter must resolve");
        assert_eq!(r.slot, id as u64);
        let n = r.outcome.expect("the expected type resolves successfully");
        assert_eq!(n.identifier, Some(id));
        assert_eq!(n.event, 10 + id);
    }
    // Every waiter is gone now: the same notifications resolve nothing.
    for id in [1, 2, 3] {
        let (res, _) = m.handle_notification(&note(10 + id, Some(id)));
        assert!(res.is_none());
    }
}

#[test]
fn notification_enqueued_before_the_wait_still_resolves_it() {
    let mut m = EventManager::new();
    let (res, fired) = m.handle_notification(&note(4, Some(7)));
    assert!(res.is_none());
    assert!(fired.is_empty());
    match m.register_waiter(7, 4, Vec::new(), 1000, 99) {
        RegisterOutcome::ResolvedNow { outcome } => {
            let n = outcome.expect("the pending notification matches");
            assert_eq!(n.event, 4);
            assert_eq!(n.identifier, Some(7));
        },
        _ => panic!("the pending notification must resolve the wait at once"),
    }
}

#[test]
fn resolved_notification_carries_the_raw_payload_bytes() {
    let mut m = EventManager::new();
    let n = EventNotification {
        event: 4,
        identifier: Some(7),
        raw: b"{\"event\":4,\"identifier\":7,\"source\":\"game\"}".to_vec(),
    };
    m.handle_notification(&n);
    match m.register_waiter(7, 4, Vec::new(), 1000, 1) {
        RegisterOutcome::ResolvedNow { outcome } => {
            let got = outcome.expect("the pending notification matches");
            assert_eq!(got.raw, n.raw);
            assert_eq!(got.event, 4);
        },
        _ => panic!("the pending notification must resolve the wait"),
    }
}

#[test]
fn pending_notification_of_error_type_fails_the_wait_at_once() {
    let mut m = EventManager::new();
    m.handle_notification(&note(2, Some(5)));
    match m.register_waiter(5, 4, vec![2], 1000, 1) {
        RegisterOutcome::ResolvedNow { outcome } => {
            assert!(matches!(outcome, Err(ObsError::EventManagerError(_))));
        },
        _ => panic!("an error-typed pending notification must fail the wait at once"),
    }
}

#[test]
fn pending_notification_of_other_type_is_discarded_and_waiter_stored() {
    let mut m = EventManager::new();
    m.handle_notification(&note(9, Some(5)));
    assert_eq!(stored(m.register_waiter(5, 4, vec![2], 1000, 1)), None);
    // The mismatched pending notification is gone; the expected one resolves.
    let (res, _) = m.handle_notification(&note(4, Some(5)));
    assert_eq!(res.expect("stored waiter resolves").slot, 1);
}

#[test]
fn wait_past_its_deadline_resolves_with_timeout() {
    let mut m = EventManager::new();
    stored(m.register_waiter(1, 4, Vec::new(), 500, 11));
    stored(m.register_waiter(2, 4, Vec::new(), 2000, 22));
    let early = m.sweep_timeouts(499);
    assert!(early.is_empty());
    let fired = m.sweep_timeouts(500);
    assert_eq!(fired.len(), 1);
    assert_eq!(fired[0].slot, 11);
    assert!(matches!(fired[0].outcome, Err(ObsError::Timeout(_))));
    // The survivor still resolves normally.
    let (res, _) = m.handle_notification(&note(4, Some(2)));
    assert_eq!(res.expect("survivor resolves").slot, 22);
}

#[test]
fn sweep_discards_pending_notifications_of_timed_out_ids() {
    let mut m = EventManager::new();
    stored(m.register_waiter(3, 4, Vec::new(), 100, 1));
    // The waiter sees a mismatched type and stays; no pending is stored then.
    let (res, _) = m.handle_notification(&note(9, Some(3)));
    assert!(res.is_none());
    m.sweep_timeouts(100);
    // A pending notification stored before the sweep under the dead id is gone:
    let mut m2 = EventManager::new();
    stored(m2.register_waiter(3, 4, Vec::new(), 100, 1));
    m2.sweep_timeouts(50);
    m2.handle_notification(&note(9, Some(3)));
    // waiter alive, type mismatch: still waiting; now times out, pending for 3 dropped
    m2.sweep_timeouts(100);
    match m2.register_waiter(3, 9, Vec::new(), 1000, 2) {
        RegisterOutcome::Stored { .. } => {},
        _ => panic!("no pending notification may survive its id's timeout"),
    }
}

#[test]
fn two_callbacks_fire_in_registration_order_besides_a_waiter() {
    let mut m = EventManager::new();
    m.register_callback(4, 100).unwrap();
    m.register_callback(4, 200).unwrap();
    m.register_callback(5, 300).unwrap();
    stored(m.register_waiter(1, 4, Vec::new(), 1000, 7));
    let (res, fired) = m.handle_notification(&note(4, Some(1)));
    assert!(res.is_some());
    assert_eq!(fired, vec![100, 200]);
    // They fire again for the next matching notification, waiter or not.
    let (res, fired) = m.handle_notification(&note(4, None));
    assert!(res.is_none());
    assert_eq!(fired, vec![100, 200]);
    let (_, fired) = m.handle_notification(&note(5, None));
    assert_eq!(fired, vec![300]);
}

#[test]
fn shutdown_resolves_every_outstanding_waiter() {
    let mut m = EventManager::new();
    for id in 1..=4 {
        stored(m.register_waiter(id, 10, Vec::new(), 1000, id as u64));
    }
    let outcomes = m.shutdown();
    assert_eq!(outcomes.len(), 4);
    let mut slots: Vec<u64> = outcomes.iter().map(|r| r.slot).collect();
    slots.sort();
    assert_eq!(slots, vec![1, 2, 3, 4]);
    for r in &outcomes {
        assert!(matches!(r.outcome, Err(ObsError::EventManagerError(_))));
    }
    // Registrations after shutdown are rejected at once.
    assert!(matches!(
        m.register_waiter(9, 10, Vec::new(), 1000, 5),
        RegisterOutcome::Rejected { error: ObsError::EventManagerError(_) }
    ));
    assert!(matches!(m.register_callback(1, 1), Err(ObsError::EventManagerError(_))));
}

#[test]
fn registering_over_a_live_waiter_displaces_it() {
    let mut m = EventManager::new();
    stored(m.register_waiter(1, 4, Vec::new(), 1000, 7));
    let displaced = stored(m.register_waiter(1, 4, Vec::new(), 2000, 8));
    assert_eq!(displaced, Some(7));
    let (res, _) = m.handle_notification(&note(4, Some(1)));
    assert_eq!(res.expect("replacement resolves").slot, 8);
}

#[test]
fn error_typed_notification_fails_a_live_waiter() {
    let mut m = EventManager::new();
    stored(m.register_waiter(1, 4, vec![2, 15], 1000, 7));
    let (res, _) = m.handle_notification(&note(15, Some(1)));
    let r = res.expect("error type resolves the waiter");
    assert_eq!(r.slot, 7);
    assert!(matches!(r.outcome, Err(ObsError::EventManagerError(_))));
}

#[test]
fn mismatched_type_leaves_the_waiter_registered() {
    let mut m = EventManager::new();
    stored(m.register_waiter(1, 4, vec![2], 1000, 7));
    let (res, _) = m.handle_notification(&note(9, Some(1)));
    assert!(res.is_none());
    let (res, _) = m.handle_notification(&note(4, Some(1)));
    assert_eq!(res.expect("waiter still registered").slot, 7);
}

#[test]
fn notification_without_identifier_touches_no_waiter() {
    let mut m = EventManager::new();
    stored(m.register_waiter(1, 4, Vec::new(), 1000, 7));
    let (res, _) = m.handle_notification(&note(4, None));
    assert!(res.is_none());
    let (res, _) = m.handle_notification(&note(4, Some(1)));
    assert!(res.is_some());
}
