use crab_chat_peer::{
    CommandDisposition, CommandOutput, DiscoveredPeer, EndpointAction, Message, NetworkEvent,
    PeerActor, PeerCommand, PeerError, PeerEvent, PublishFailure, SendMessageCommand,
    SubscribeCommand, UnsubscribeCommand,
};

fn subscribe(topic: &str) -> PeerCommand {
    PeerCommand::Subscribe(SubscribeCommand::new(topic.to_string()))
}

fn unsubscribe(topic: &str) -> PeerCommand {
    PeerCommand::Unsubscribe(UnsubscribeCommand::new(topic.to_string()))
}

#[test]
fn replies_alternate_with_membership() {
    let mut actor = PeerActor::new();
    let cmds = vec![
        subscribe("general"),
        subscribe("general"),
        unsubscribe("general"),
        unsubscribe("general"),
        subscribe("general"),
        unsubscribe("general"),
    ];
    let steps = actor.handle_commands(&cmds);
    let expected = [
        CommandOutput::Subscribed(true),
        CommandOutput::Subscribed(false),
        CommandOutput::Unsubscribed(true),
        CommandOutput::Unsubscribed(false),
        CommandOutput::Subscribed(true),
        CommandOutput::Unsubscribed(true),
    ];
    assert_eq!(steps.len(), expected.len());
    for (step, want) in steps.iter().zip(expected.iter()) {
        match step {
            CommandDisposition::Replied(out, _) => assert_eq!(out, want),
            other => panic!("unexpected disposition: {other:?}"),
        }
    }
}

#[test]
fn each_command_gets_exactly_one_disposition() {
    let mut actor = PeerActor::new();
    let mut cmds = Vec::new();
    for i in 0..40 {
        cmds.push(subscribe(&format!("room-{}", i % 7)));
        cmds.push(unsubscribe(&format!("room-{}", i % 5)));
    }
    let n = cmds.len();
    let steps = actor.handle_commands(&cmds);
    assert_eq!(steps.len(), n);
}

#[test]
fn membership_is_per_topic() {
    let mut actor = PeerActor::new();
    actor.handle_command(&subscribe("a"));
    actor.handle_command(&subscribe("b"));
    assert!(actor.contains_topic(&"a".to_string()));
    assert!(actor.contains_topic(&"b".to_string()));
    actor.handle_command(&unsubscribe("a"));
    assert!(!actor.contains_topic(&"a".to_string()));
    assert!(actor.contains_topic(&"b".to_string()));
}

#[test]
fn subscribe_action_fires_only_on_change() {
    let mut actor = PeerActor::new();
    match actor.handle_command(&subscribe("general")) {
        CommandDisposition::Replied(_, action) => {
            assert_eq!(action, Some(EndpointAction::Subscribe("general".to_string())));
        }
        other => panic!("unexpected disposition: {other:?}"),
    }
    match actor.handle_command(&subscribe("general")) {
        CommandDisposition::Replied(_, action) => assert_eq!(action, None),
        other => panic!("unexpected disposition: {other:?}"),
    }
}

#[test]
fn send_message_becomes_a_framed_publish() {
    let mut actor = PeerActor::new();
    let cmd = PeerCommand::SendMessage(SendMessageCommand::new(
        "hi".to_string(),
        "general".to_string(),
        42,
    ));
    match actor.handle_command(&cmd) {
        CommandDisposition::Publish { topic, payload } => {
            assert_eq!(topic, "general");
            let expected =
                Message::new("hi".to_string(), 42, "general".to_string()).serialize_to_bytes();
            assert_eq!(payload, expected);
        }
        other => panic!("unexpected disposition: {other:?}"),
    }
}

#[test]
fn settle_publish_carries_the_message_id() {
    let r = PeerActor::settle_publish(Ok("msg-7".to_string()));
    assert_eq!(r.unwrap(), CommandOutput::Sent("msg-7".to_string()));
}

#[test]
fn settle_publish_surfaces_the_refusal() {
    let r = PeerActor::settle_publish(Err(PublishFailure::InsufficientPeers));
    assert_eq!(r.unwrap_err(), PeerError::Publish(PublishFailure::InsufficientPeers));
}

#[test]
fn valid_payload_emits_message_received() {
    let actor = PeerActor::new();
    let payload =
        Message::new("hi".to_string(), 9, "general".to_string()).serialize_to_bytes();
    let step = actor.handle_network_event(
        &NetworkEvent::PubsubMessage {
            source: "peer-b".to_string(),
            message_id: "id-1".to_string(),
            payload,
        },
        100,
    );
    assert!(step.actions.is_empty());
    match step.event {
        Some(PeerEvent::MessageReceived(e)) => {
            assert_eq!(e.message, "hi");
            assert_eq!(e.timestamp, 9);
            assert_eq!(e.topic, "general");
            assert_eq!(e.peer_id, "peer-b");
            assert_eq!(e.message_id, "id-1");
        }
        other => panic!("expected MessageReceived, got {other:?}"),
    }
}

#[test]
fn malformed_payload_emits_nothing() {
    let actor = PeerActor::new();
    let step = actor.handle_network_event(
        &NetworkEvent::PubsubMessage {
            source: "peer-b".to_string(),
            message_id: "id-2".to_string(),
            payload: vec![0xff, 0x00, 0x01],
        },
        100,
    );
    assert!(step.actions.is_empty());
    assert!(step.event.is_none());
}

#[test]
fn membership_changes_emit_joined_and_left() {
    let actor = PeerActor::new();
    let step = actor.handle_network_event(
        &NetworkEvent::PeerSubscribed {
            peer_id: "peer-b".to_string(),
            topic: "general".to_string(),
        },
        123,
    );
    match step.event {
        Some(PeerEvent::PeerJoined(e)) => {
            assert_eq!(e.peer_id, "peer-b");
            assert_eq!(e.topic, "general");
            assert_eq!(e.timestamp, 123);
        }
        other => panic!("expected PeerJoined, got {other:?}"),
    }
    let step = actor.handle_network_event(
        &NetworkEvent::PeerUnsubscribed {
            peer_id: "peer-b".to_string(),
            topic: "general".to_string(),
        },
        124,
    );
    match step.event {
        Some(PeerEvent::PeerLeft(e)) => {
            assert_eq!(e.peer_id, "peer-b");
            assert_eq!(e.topic, "general");
            assert_eq!(e.timestamp, 124);
        }
        other => panic!("expected PeerLeft, got {other:?}"),
    }
}

#[test]
fn discovery_feeds_the_routing_table_silently() {
    let actor = PeerActor::new();
    let step = actor.handle_network_event(
        &NetworkEvent::Discovered(vec![
            DiscoveredPeer { peer_id: "p1".to_string(), addr: "/ip4/10.0.0.1/tcp/1".to_string() },
            DiscoveredPeer { peer_id: "p2".to_string(), addr: "/ip4/10.0.0.2/tcp/2".to_string() },
        ]),
        100,
    );
    assert!(step.event.is_none());
    assert_eq!(step.actions.len(), 2);
    assert_eq!(
        step.actions[0],
        EndpointAction::AddAddress {
            peer_id: "p1".to_string(),
            addr: "/ip4/10.0.0.1/tcp/1".to_string()
        }
    );
}

#[test]
fn unknown_occurrences_are_ignored() {
    let actor = PeerActor::new();
    let step = actor.handle_network_event(&NetworkEvent::Other, 100);
    assert!(step.event.is_none());
    assert!(step.actions.is_empty());
}
