use session_runtime::connection::{ConnectionEvent, ConnectionState};
use session_runtime::dispatch::{drain_events, handle_event, Admission, Reaction, Refusal};
use session_runtime::inbox::EventInbox;
use session_runtime::tracker::{Applied, ConnectionTracker};

fn request(peer: u64) -> ConnectionEvent {
    ConnectionEvent::IncomingRequest { peer }
}

fn status(peer: u64, new_state: ConnectionState) -> ConnectionEvent {
    ConnectionEvent::StatusChanged { peer, old_state: ConnectionState::Connecting, new_state }
}

#[test]
fn poll_with_nothing_pending_returns_none() {
    let mut inbox = EventInbox::new();
    assert!(inbox.is_empty());
    assert_eq!(inbox.len(), 0);
    for _ in 0..1000 {
        assert_eq!(inbox.poll(), None);
    }
    assert!(inbox.is_empty());
}

#[test]
fn poll_yields_events_in_order_of_arrival() {
    let mut inbox = EventInbox::new();
    inbox.deliver(request(1));
    inbox.deliver(status(1, ConnectionState::Connected));
    inbox.deliver(request(2));
    assert_eq!(inbox.len(), 3);
    assert_eq!(inbox.poll(), Some(request(1)));
    assert_eq!(inbox.len(), 2);
    assert_eq!(inbox.poll(), Some(status(1, ConnectionState::Connected)));
    assert_eq!(inbox.poll(), Some(request(2)));
    assert_eq!(inbox.poll(), None);
    assert!(inbox.is_empty());
}

#[test]
fn poll_takes_one_event_per_call() {
    let mut inbox = EventInbox::new();
    inbox.deliver(request(1));
    inbox.deliver(request(2));
    assert!(inbox.poll().is_some());
    assert_eq!(inbox.len(), 1);
}

#[test]
fn server_accepts_an_incoming_request() {
    let mut tracker = ConnectionTracker::server();
    let reaction = handle_event(&mut tracker, Admission::AcceptAll, request(8), 30);
    assert_eq!(reaction, Reaction::Accept { peer: 8 });
    assert_eq!(tracker.state_of(8), Some(ConnectionState::Connecting));
    assert_eq!(tracker.get(8).unwrap().created_at, 30);
}

#[test]
fn accepted_request_connects_within_the_same_drain() {
    let mut tracker = ConnectionTracker::server();
    let mut inbox = EventInbox::new();
    inbox.deliver(request(8));
    inbox.deliver(status(8, ConnectionState::Connected));
    let reactions = drain_events(&mut tracker, &mut inbox, Admission::AcceptAll, 16, 1);
    assert_eq!(
        reactions,
        vec![
            Reaction::Accept { peer: 8 },
            Reaction::Noted {
                peer: 8,
                outcome: Applied::Moved {
                    from: ConnectionState::Connecting,
                    to: ConnectionState::Connected
                }
            },
        ]
    );
    assert_eq!(tracker.state_of(8), Some(ConnectionState::Connected));
}

#[test]
fn request_for_a_tracked_handle_is_rejected() {
    let mut tracker = ConnectionTracker::server();
    tracker.track(8, 0).unwrap();
    let reaction = handle_event(&mut tracker, Admission::AcceptAll, request(8), 30);
    assert_eq!(reaction, Reaction::Reject { peer: 8, reason: Refusal::HandleInUse });
    assert_eq!(tracker.get(8).unwrap().created_at, 0);
    assert_eq!(tracker.len(), 1);
}

#[test]
fn request_over_a_taken_slot_is_rejected() {
    let mut tracker = ConnectionTracker::client();
    tracker.track(1, 0).unwrap();
    let reaction = handle_event(&mut tracker, Admission::AcceptAll, request(2), 30);
    assert_eq!(reaction, Reaction::Reject { peer: 2, reason: Refusal::SlotOccupied });
    assert_eq!(tracker.state_of(2), None);
}

#[test]
fn reject_all_admits_nobody() {
    let mut tracker = ConnectionTracker::client();
    let reaction = handle_event(&mut tracker, Admission::RejectAll, request(2), 30);
    assert_eq!(reaction, Reaction::Reject { peer: 2, reason: Refusal::Policy });
    assert!(tracker.is_empty());
}

#[test]
fn status_change_is_noted_under_either_policy() {
    for policy in [Admission::AcceptAll, Admission::RejectAll] {
        let mut tracker = ConnectionTracker::client();
        tracker.track(4, 0).unwrap();
        let reaction =
            handle_event(&mut tracker, policy, status(4, ConnectionState::Connected), 1);
        assert_eq!(
            reaction,
            Reaction::Noted {
                peer: 4,
                outcome: Applied::Moved {
                    from: ConnectionState::Connecting,
                    to: ConnectionState::Connected
                }
            }
        );
        let unknown = handle_event(&mut tracker, policy, status(5, ConnectionState::Connected), 1);
        assert_eq!(unknown, Reaction::Noted { peer: 5, outcome: Applied::UnknownPeer });
    }
}

#[test]
fn drain_stops_at_the_budget() {
    let mut tracker = ConnectionTracker::server();
    let mut inbox = EventInbox::new();
    for peer in 0..10u64 {
        inbox.deliver(request(peer));
    }
    let reactions = drain_events(&mut tracker, &mut inbox, Admission::AcceptAll, 4, 0);
    assert_eq!(reactions.len(), 4);
    assert_eq!(inbox.len(), 6);
    assert_eq!(tracker.len(), 4);
    for peer in 0..4u64 {
        assert_eq!(reactions[peer as usize], Reaction::Accept { peer });
    }
    // What was over budget is still pending, in order.
    assert_eq!(inbox.poll(), Some(request(4)));
}

#[test]
fn drain_takes_all_when_the_budget_allows() {
    let mut tracker = ConnectionTracker::server();
    let mut inbox = EventInbox::new();
    for peer in 0..3u64 {
        inbox.deliver(request(peer));
    }
    let reactions = drain_events(&mut tracker, &mut inbox, Admission::AcceptAll, 3, 0);
    assert_eq!(reactions.len(), 3);
    assert!(inbox.is_empty());
    let more = drain_events(&mut tracker, &mut inbox, Admission::AcceptAll, usize::MAX, 0);
    assert!(more.is_empty());
    assert_eq!(tracker.len(), 3);
}

#[test]
fn drain_with_no_budget_takes_nothing() {
    let mut tracker = ConnectionTracker::server();
    let mut inbox = EventInbox::new();
    inbox.deliver(request(1));
    let reactions = drain_events(&mut tracker, &mut inbox, Admission::AcceptAll, 0, 0);
    assert!(reactions.is_empty());
    assert_eq!(inbox.len(), 1);
    assert!(tracker.is_empty());
}

#[test]
fn drain_of_an_empty_inbox_changes_nothing() {
    let mut tracker = ConnectionTracker::server();
    tracker.track(1, 0).unwrap();
    let mut inbox = EventInbox::new();
    let reactions = drain_events(&mut tracker, &mut inbox, Admission::AcceptAll, 8, 0);
    assert!(reactions.is_empty());
    assert_eq!(tracker.len(), 1);
    assert_eq!(tracker.state_of(1), Some(ConnectionState::Connecting));
}

#[test]
fn drain_matches_handling_each_event_in_turn() {
    let events = vec![
        request(1),
        request(2),
        status(1, ConnectionState::Connected),
        request(1),
        status(3, ConnectionState::Connected),
        status(2, ConnectionState::Disconnected),
        status(2, ConnectionState::Connected),
    ];
    let mut drained = ConnectionTracker::server();
    let mut inbox = EventInbox::new();
    for event in &events {
        inbox.deliver(*event);
    }
    let reactions = drain_events(&mut drained, &mut inbox, Admission::AcceptAll, 100, 6);
    let mut stepped = ConnectionTracker::server();
    let mut expected = Vec::new();
    for event in &events {
        expected.push(handle_event(&mut stepped, Admission::AcceptAll, *event, 6));
    }
    assert_eq!(reactions, expected);
    for peer in 0..5u64 {
        assert_eq!(drained.get(peer), stepped.get(peer));
    }
    assert_eq!(drained.state_of(1), Some(ConnectionState::Connected));
    assert_eq!(drained.state_of(2), Some(ConnectionState::Disconnected));
    assert_eq!(drained.state_of(3), None);
    assert_eq!(reactions[3], Reaction::Reject { peer: 1, reason: Refusal::HandleInUse });
}

#[test]
fn connection_to_a_silent_address_stays_connecting() {
    // The attempt is taken on, nothing ever answers, the loop ticks on.
    let mut tracker = ConnectionTracker::client();
    let mut inbox = EventInbox::new();
    tracker.track(1, 0).unwrap();
    for tick in 1..50u64 {
        assert_eq!(tracker.purge_disconnected(), 0);
        let reactions = drain_events(&mut tracker, &mut inbox, Admission::RejectAll, 8, tick);
        assert!(reactions.is_empty());
        assert_eq!(tracker.state_of(1), Some(ConnectionState::Connecting));
    }
}
