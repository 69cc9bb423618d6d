//! The error taxonomy of the peer.

use vstd::prelude::*;

verus! {

/// Why a bootstrap-address string was rejected.
///
/// A bootstrap entry has the shape `"<peer-id>:<multiaddr>"`.  The two
/// `Missing` variants report that a half is absent; the two `Invalid`
/// variants report that a half is present but not well formed.
#[derive(Debug, Clone, PartialEq, Eq)]
pub enum BootstrapParseError {
    /// The text before the first `:` is empty.
    MissingPeerId,
    /// There is no `:` at all, or nothing follows it.
    MissingAddress,
    /// The peer-identifier half does not parse as a peer id.
    InvalidPeerId,
    /// The address half does not parse as a multiaddress.
    InvalidAddress,
}

/// Why a received wire payload could not be read back as a message.
/// A decode failure is local: the payload is dropped and the peer goes on.
#[derive(Debug, Clone, PartialEq, Eq)]
pub enum DecodeError {
    /// The payload ends before the frame says it may.
    Truncated,
    /// The topic or the text is not valid UTF-8.
    InvalidUtf8,
}

/// Why the pub/sub layer refused to publish a message.
#[derive(Debug, Clone, PartialEq, Eq)]
pub enum PublishFailure {
    /// No peer is currently subscribed to the topic.
    InsufficientPeers,
    /// The encoded payload exceeds the transport's maximum.
    MessageTooLarge,
    /// The same message was already published.
    Duplicate,
    /// Any other rejection, with the transport's description.
    Other(String),
}

/// Every failure a caller of the peer can observe.
#[derive(Debug, Clone, PartialEq, Eq)]
pub enum PeerError {
    /// Endpoint construction or listen-address binding failed; fatal at
    /// startup.
    Swarm(String),
    /// A bootstrap entry could not be parsed.
    InvalidBootstrap(BootstrapParseError),
    /// The actor is no longer running, so the command could not be
    /// delivered or its reply was lost.
    CommandDelivery,
    /// The transport rejected an operation.
    Transport(String),
    /// The pub/sub layer refused to publish.
    Publish(PublishFailure),
    /// The pub/sub layer refused a subscription.
    Subscription(String),
}

} // verus!
