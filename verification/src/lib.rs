//! Core of a decentralized chat peer.
//!
//! The peer joins a peer-to-peer overlay, publishes and receives chat
//! messages on named topics ("rooms"), and exposes that capability through a
//! typed command interface and a fan-out event stream.  This crate holds the
//! verified logic: the wire codec, bootstrap-address parsing, the actor's
//! decision rules, and the broadcast event buffer.  The asynchronous plumbing
//! around the network endpoint lives outside the library.

use vstd::prelude::*;

mod actor;
mod bootstrap;
mod chat;
mod cli;
mod command;
mod error;
mod event;
mod event_bus;
mod message;
mod text;

pub use actor::CommandDisposition;
pub use actor::DiscoveredPeer;
pub use actor::EndpointAction;
pub use actor::EventStep;
pub use actor::NetworkEvent;
pub use actor::PeerActor;
pub use bootstrap::BootstrapAddress;
pub use chat::Chat;
pub use chat::ChatMessage;
pub use chat::Chats;
pub use chat::NotificationMessage;
pub use chat::PeerJoinedNotification;
pub use chat::PeerMessage;
pub use cli::default_addr;
pub use cli::parse_input_line;
pub use cli::Cli;
pub use cli::InputCommand;
pub use command::CommandOutput;
pub use command::PeerCommand;
pub use command::SendMessageCommand;
pub use command::SubscribeCommand;
pub use command::UnsubscribeCommand;
pub use event_bus::PeerEventBus;
pub use event_bus::PeerEventListener;
pub use event_bus::PollOutcome;
pub use event::MessageReceivedEvent;
pub use event::PeerEvent;
pub use event::PeerJoinedEvent;
pub use event::PeerLeftEvent;
pub use error::BootstrapParseError;
pub use error::DecodeError;
pub use error::PeerError;
pub use error::PublishFailure;
pub use message::Message;

verus! {

/// The result of anything a caller asks of the peer.
pub type PeerResult<T> = Result<T, PeerError>;

} // verus!
