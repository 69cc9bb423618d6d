use crab_chat_peer::{
    Chat, ChatMessage, Chats, NotificationMessage, PeerJoinedNotification, PeerMessage,
};

fn msg(id: &str, text: &str, ts: u64) -> ChatMessage {
    ChatMessage::PeerMessage(PeerMessage {
        message_id: id.to_string(),
        peer_id: Some("peer-a".to_string()),
        message: text.to_string(),
        timestamp: ts,
    })
}

#[test]
fn messages_come_back_in_timestamp_order() {
    let mut chat = Chat::new();
    chat.add_message(msg("b", "second", 20));
    chat.add_message(msg("c", "third", 30));
    chat.add_message(msg("a", "first", 10));
    let texts: Vec<u64> = chat.get_messages().iter().map(|m| m.timestamp()).collect();
    assert_eq!(texts, vec![10, 20, 30]);
}

#[test]
fn equal_timestamp_replaces_the_entry() {
    let mut chat = Chat::new();
    chat.add_message(msg("a", "first", 10));
    chat.add_message(msg("b", "rewritten", 10));
    let all = chat.get_messages();
    assert_eq!(all.len(), 1);
    match all[0] {
        ChatMessage::PeerMessage(m) => assert_eq!(m.message, "rewritten"),
        other => panic!("unexpected entry: {other:?}"),
    }
}

#[test]
fn notification_timestamp_orders_it_too() {
    let mut chat = Chat::new();
    chat.add_message(msg("a", "hello", 10));
    chat.add_message(ChatMessage::NotificationMessage(NotificationMessage::PeerJoined(
        PeerJoinedNotification {
            peer_id: "peer-b".to_string(),
            topic: "general".to_string(),
            timestamp: 5,
            leave: false,
        },
    )));
    let ts: Vec<u64> = chat.get_messages().iter().map(|m| m.timestamp()).collect();
    assert_eq!(ts, vec![5, 10]);
}

#[test]
fn timestamp_reads_either_variant() {
    assert_eq!(msg("a", "x", 7).timestamp(), 7);
    let n = ChatMessage::NotificationMessage(NotificationMessage::PeerJoined(
        PeerJoinedNotification {
            peer_id: "p".to_string(),
            topic: "t".to_string(),
            timestamp: 8,
            leave: true,
        },
    ));
    assert_eq!(n.timestamp(), 8);
}

#[test]
fn rooms_are_kept_apart() {
    let mut chats = Chats::new();
    chats.add_message("general".to_string(), msg("a", "in general", 1));
    chats.add_message("dev".to_string(), msg("b", "in dev", 2));
    chats.add_message("general".to_string(), msg("c", "more general", 3));
    assert_eq!(chats.get_messages(&"general".to_string()).len(), 2);
    assert_eq!(chats.get_messages(&"dev".to_string()).len(), 1);
    assert_eq!(chats.get_messages(&"empty".to_string()).len(), 0);
}

#[test]
fn rooms_lists_every_room_once() {
    let mut chats = Chats::new();
    chats.add_message("general".to_string(), msg("a", "x", 1));
    chats.add_message("dev".to_string(), msg("b", "y", 2));
    chats.add_message("general".to_string(), msg("c", "z", 3));
    assert_eq!(chats.rooms(), vec!["general".to_string(), "dev".to_string()]);
}
