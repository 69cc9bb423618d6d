//! Domain events the actor announces to its listeners.
//!
//! Events are immutable value records; the event bus clones one to every
//! current listener.

use vstd::prelude::*;

verus! {

/// A chat message arrived on a topic this peer follows.
#[derive(Debug, PartialEq, Eq)]
pub struct MessageReceivedEvent {
    pub message_id: String,
    pub message: String,
    pub timestamp: u64,
    pub topic: String,
    pub peer_id: String,
}

/// A remote peer subscribed to a topic this peer follows.
#[derive(Debug, PartialEq, Eq)]
pub struct PeerJoinedEvent {
    pub peer_id: String,
    pub topic: String,
    pub timestamp: u64,
}

/// A remote peer unsubscribed from a topic this peer follows.
#[derive(Debug, PartialEq, Eq)]
pub struct PeerLeftEvent {
    pub peer_id: String,
    pub topic: String,
    pub timestamp: u64,
}

/// The closed family of events the actor can announce.
#[derive(Debug, PartialEq, Eq)]
pub enum PeerEvent {
    MessageReceived(MessageReceivedEvent),
    PeerJoined(PeerJoinedEvent),
    PeerLeft(PeerLeftEvent),
}

/// The mathematical value of a [`MessageReceivedEvent`].
pub struct MessageReceivedEventView {
    pub message_id: Seq<char>,
    pub message: Seq<char>,
    pub timestamp: u64,
    pub topic: Seq<char>,
    pub peer_id: Seq<char>,
}

/// The mathematical value of a [`PeerJoinedEvent`].
pub struct PeerJoinedEventView {
    pub peer_id: Seq<char>,
    pub topic: Seq<char>,
    pub timestamp: u64,
}

/// The mathematical value of a [`PeerLeftEvent`].
pub struct PeerLeftEventView {
    pub peer_id: Seq<char>,
    pub topic: Seq<char>,
    pub timestamp: u64,
}

/// The mathematical value of a [`PeerEvent`].
pub enum PeerEventView {
    MessageReceived(MessageReceivedEventView),
    PeerJoined(PeerJoinedEventView),
    PeerLeft(PeerLeftEventView),
}

impl View for MessageReceivedEvent {
    type V = MessageReceivedEventView;

    open spec fn view(&self) -> MessageReceivedEventView {
        MessageReceivedEventView {
            message_id: self.message_id@,
            message: self.message@,
            timestamp: self.timestamp,
            topic: self.topic@,
            peer_id: self.peer_id@,
        }
    }
}

impl View for PeerJoinedEvent {
    type V = PeerJoinedEventView;

    open spec fn view(&self) -> PeerJoinedEventView {
        PeerJoinedEventView {
            peer_id: self.peer_id@,
            topic: self.topic@,
            timestamp: self.timestamp,
        }
    }
}

impl View for PeerLeftEvent {
    type V = PeerLeftEventView;

    open spec fn view(&self) -> PeerLeftEventView {
        PeerLeftEventView {
            peer_id: self.peer_id@,
            topic: self.topic@,
            timestamp: self.timestamp,
        }
    }
}

impl View for PeerEvent {
    type V = PeerEventView;

    open spec fn view(&self) -> PeerEventView {
        match self {
            PeerEvent::MessageReceived(e) => PeerEventView::MessageReceived(e@),
            PeerEvent::PeerJoined(e) => PeerEventView::PeerJoined(e@),
            PeerEvent::PeerLeft(e) => PeerEventView::PeerLeft(e@),
        }
    }
}

impl Clone for MessageReceivedEvent {
    fn clone(&self) -> (r: Self)
        ensures
            r@ == self@,
    {
        MessageReceivedEvent {
            message_id: self.message_id.clone(),
            message: self.message.clone(),
            timestamp: self.timestamp,
            topic: self.topic.clone(),
            peer_id: self.peer_id.clone(),
        }
    }
}

impl Clone for PeerJoinedEvent {
    fn clone(&self) -> (r: Self)
        ensures
            r@ == self@,
    {
        PeerJoinedEvent {
            peer_id: self.peer_id.clone(),
            topic: self.topic.clone(),
            timestamp: self.timestamp,
        }
    }
}

impl Clone for PeerLeftEvent {
    fn clone(&self) -> (r: Self)
        ensures
            r@ == self@,
    {
        PeerLeftEvent {
            peer_id: self.peer_id.clone(),
            topic: self.topic.clone(),
            timestamp: self.timestamp,
        }
    }
}

impl Clone for PeerEvent {
    fn clone(&self) -> (r: Self)
        ensures
            r@ == self@,
    {
        match self {
            PeerEvent::MessageReceived(e) => PeerEvent::MessageReceived(e.clone()),
            PeerEvent::PeerJoined(e) => PeerEvent::PeerJoined(e.clone()),
            PeerEvent::PeerLeft(e) => PeerEvent::PeerLeft(e.clone()),
        }
    }
}

} // verus!
