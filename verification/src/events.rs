//! The actor's event vocabulary: what the network substrate reports to the
//! actor, what the actor pushes out to the application driver, and the
//! internal-consistency violations it detects.

use vstd::prelude::*;

use crate::reply::Reply;

verus! {

/// A terminal notification from the network substrate, as the actor sees it.
/// Correlation numbers (`query_id`, `request_id`, `channel`) are the opaque
/// tokens the substrate returned when the matching operation was issued.
pub enum NetworkEvent {
    /// A distributed-hash-table advertise operation completed.
    AdvertiseCompleted { query_id: u64 },
    /// A distributed-hash-table lookup completed with the advertising peers.
    /// An empty list is a valid, non-error result.
    LookupCompleted { query_id: u64, providers: Vec<u64> },
    /// A peer asked this node for a file; `channel` is bound to the specific
    /// in-flight inbound exchange and may be answered at most once.
    InboundRequestMessage { request: String, channel: u64 },
    /// A peer answered an outbound file request with the file's content.
    OutboundResponseMessage { request_id: u64, response: String },
    /// An outbound file request failed (connection error, no response,
    /// protocol error).
    OutboundFailure { request_id: u64, error: String },
    /// The substrate confirmed that a response left this node.
    ResponseSent,
    /// The transport bound a new local listening address.
    NewListenAddr { addr: String },
    /// A remote peer is connecting.
    IncomingConnection,
    /// A connection to the peer is ready; `dialer` says whether this node
    /// initiated it.
    ConnectionEstablished { peer_id: u64, dialer: bool },
    /// A connection went away.
    ConnectionClosed,
    /// An outbound connection attempt failed before it was established.
    OutgoingConnectionError { peer_id: Option<u64>, error: String },
    /// An inbound connection attempt failed.
    IncomingConnectionError,
    /// The transport started dialing the peer.
    Dialing { peer_id: u64 },
}

/// What the actor pushes out to the application driver.
pub enum Event {
    /// A peer asked for the named file; answer at most once through `channel`.
    InboundRequest { request: String, channel: u64 },
}

/// What handling one network event produces.
pub enum Effect {
    /// Deliver this reply to the caller that issued the matching command.
    Reply(Reply),
    /// Push this event to the application driver.
    Emit(Event),
    /// The event affects no pending operation: observe it and move on.
    Nothing,
}

/// A completion that the actor cannot correlate: the substrate reported an
/// outcome for an operation the actor never issued, or reported it twice.
/// Fatal to the actor, never silently ignored.
#[derive(PartialEq, Eq, Structural, Clone, Copy, Debug)]
pub enum ConsistencyViolation {
    /// An advertise completion with no pending advertise operation.
    UnknownAdvertiseCompletion { query_id: u64 },
    /// A lookup completion with no pending lookup operation.
    UnknownLookupCompletion { query_id: u64 },
    /// A response or failure for no pending outbound file request.
    UnknownRequestCompletion { request_id: u64 },
    /// An inbound request arrived on a channel that is already open.
    ChannelReopened { channel: u64 },
    /// A response was sent through a channel that was already consumed or
    /// never existed.
    ChannelAlreadyUsed { channel: u64 },
}

/// The response the actor asks the substrate to perform after it accepts a
/// `RespondFile` command.
pub struct RespondAction {
    pub channel: u64,
    pub file: String,
}

} // verus!
