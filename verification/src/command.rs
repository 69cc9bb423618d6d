//! Typed requests a caller can issue to the peer actor, and the values a
//! reply carries back.
//!
//! Each command instance is paired with a single-use reply slot by the
//! caller; the actor consumes the command and fills the slot exactly once.

use vstd::prelude::*;

verus! {

/// Ask the actor to join a topic.
#[derive(Debug, Clone, PartialEq, Eq)]
pub struct SubscribeCommand {
    pub topic: String,
}

impl SubscribeCommand {
    pub fn new(topic: String) -> (r: SubscribeCommand)
        ensures
            r.topic@ == topic@,
    {
        SubscribeCommand { topic }
    }
}

/// Ask the actor to leave a topic.
#[derive(Debug, Clone, PartialEq, Eq)]
pub struct UnsubscribeCommand {
    pub topic: String,
}

impl UnsubscribeCommand {
    pub fn new(topic: String) -> (r: UnsubscribeCommand)
        ensures
            r.topic@ == topic@,
    {
        UnsubscribeCommand { topic }
    }
}

/// Ask the actor to publish a message on a topic.  The timestamp is
/// stamped by the caller at issue time, so the order a sender perceives
/// reflects call order even while commands queue.
#[derive(Debug, Clone, PartialEq, Eq)]
pub struct SendMessageCommand {
    pub message: String,
    pub topic: String,
    pub timestamp: u64,
}

impl SendMessageCommand {
    pub fn new(message: String, topic: String, timestamp: u64) -> (r: SendMessageCommand)
        ensures
            r.message@ == message@,
            r.topic@ == topic@,
            r.timestamp == timestamp,
    {
        SendMessageCommand { message, topic, timestamp }
    }
}

/// The closed family of commands the actor understands.
#[derive(Debug, Clone, PartialEq, Eq)]
pub enum PeerCommand {
    SendMessage(SendMessageCommand),
    Subscribe(SubscribeCommand),
    Unsubscribe(UnsubscribeCommand),
}

/// The success payload of a reply: what kind of command it answers, and
/// its value.  `Subscribed(true)` means the subscription was new;
/// `Unsubscribed(true)` means the membership existed; `Sent` carries the
/// identifier the pub/sub layer assigned to the published message.
#[derive(Debug, Clone, PartialEq, Eq)]
pub enum CommandOutput {
    Subscribed(bool),
    Unsubscribed(bool),
    Sent(String),
}

} // verus!
