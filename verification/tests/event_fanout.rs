use crab_chat_peer::{
    PeerEvent, PeerEventBus, PeerJoinedEvent, PollOutcome,
};

fn joined(n: u64) -> PeerEvent {
    PeerEvent::PeerJoined(PeerJoinedEvent {
        peer_id: format!("peer-{n}"),
        topic: "general".to_string(),
        timestamp: n,
    })
}

#[test]
fn listener_receives_what_was_emitted_after_it_subscribed() {
    let mut bus = PeerEventBus::new();
    let mut l = bus.subscribe();
    bus.emit(joined(1));
    bus.emit(joined(2));
    assert_eq!(bus.poll(&mut l), PollOutcome::Event(joined(1)));
    assert_eq!(bus.poll(&mut l), PollOutcome::Event(joined(2)));
    assert_eq!(bus.poll(&mut l), PollOutcome::Empty);
}

#[test]
fn late_listener_sees_no_replay() {
    let mut bus = PeerEventBus::new();
    for i in 0..5 {
        bus.emit(joined(i));
    }
    let mut l = bus.subscribe();
    assert_eq!(bus.poll(&mut l), PollOutcome::Empty);
    bus.emit(joined(99));
    assert_eq!(bus.poll(&mut l), PollOutcome::Event(joined(99)));
    assert_eq!(bus.poll(&mut l), PollOutcome::Empty);
}

#[test]
fn slow_listener_observes_a_gap_not_a_block() {
    let capacity = 4;
    let mut bus = PeerEventBus::with_capacity(capacity);
    let mut l = bus.subscribe();
    for i in 0..(capacity as u64 + 1) {
        bus.emit(joined(i));
    }
    assert_eq!(bus.poll(&mut l), PollOutcome::Lagged(1));
    for i in 1..(capacity as u64 + 1) {
        assert_eq!(bus.poll(&mut l), PollOutcome::Event(joined(i)));
    }
    assert_eq!(bus.poll(&mut l), PollOutcome::Empty);
}

#[test]
fn gap_counts_every_missed_event() {
    let mut bus = PeerEventBus::with_capacity(2);
    let mut l = bus.subscribe();
    for i in 0..7 {
        bus.emit(joined(i));
    }
    assert_eq!(bus.poll(&mut l), PollOutcome::Lagged(5));
    assert_eq!(bus.poll(&mut l), PollOutcome::Event(joined(5)));
    assert_eq!(bus.poll(&mut l), PollOutcome::Event(joined(6)));
    assert_eq!(bus.poll(&mut l), PollOutcome::Empty);
}

#[test]
fn listeners_drain_independently() {
    let mut bus = PeerEventBus::new();
    let mut fast = bus.subscribe();
    let mut slow = bus.subscribe();
    bus.emit(joined(1));
    assert_eq!(bus.poll(&mut fast), PollOutcome::Event(joined(1)));
    bus.emit(joined(2));
    assert_eq!(bus.poll(&mut fast), PollOutcome::Event(joined(2)));
    assert_eq!(bus.poll(&mut slow), PollOutcome::Event(joined(1)));
    assert_eq!(bus.poll(&mut slow), PollOutcome::Event(joined(2)));
    assert_eq!(bus.poll(&mut slow), PollOutcome::Empty);
}
