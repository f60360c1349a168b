//! Commands issued by the client facade and consumed by the coordinating
//! actor. Each command that awaits an asynchronous outcome carries a
//! single-use reply handle; `RespondFile` instead names the inbound response
//! channel it answers.

use vstd::prelude::*;

use crate::reply::ReplyHandle;

verus! {

/// A tagged request from a client, consumed exactly once by the actor.
pub enum Command {
    /// Bind the transport to the given local address.
    StartListening { addr: String, sender: ReplyHandle },
    /// Register the address as a routing hint for the peer and connect to it.
    Dial { peer_id: u64, peer_addr: String, sender: ReplyHandle },
    /// Advertise this node on the distributed hash table as a provider of the
    /// named file.
    StartProviding { file_name: String, sender: ReplyHandle },
    /// Look up which peers currently advertise the named file.
    GetProviders { file_name: String, sender: ReplyHandle },
    /// Ask the given peer for the named file's content.
    RequestFile { file_name: String, peer: u64, sender: ReplyHandle },
    /// Answer an inbound request through its response channel.
    RespondFile { file: String, channel: u64 },
}

} // verus!
