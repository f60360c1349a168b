//! The client facade: one method per command. Each method builds the command
//! and attaches a fresh single-use reply handle, numbered by a counter, so no
//! two commands built through one facade ever share a handle.

use vstd::prelude::*;

use crate::command::Command;
use crate::reply::ReplyHandle;

verus! {

/// Builds commands for the coordinating actor, minting one fresh reply handle
/// per command that awaits an outcome.
pub struct Client {
    next_handle: u64,
}

impl Client {
    /// How many handles this facade has minted; the next one gets this number.
    pub closed spec fn handles_minted(&self) -> u64 {
        self.next_handle
    }

    /// How many handles this facade has minted, for callers that must check
    /// the counter has room before asking for another command.
    pub fn minted(&self) -> (r: u64)
        ensures
            r == self.handles_minted(),
    {
        self.next_handle
    }

    /// A fresh facade that has minted no handles yet.
    pub fn new() -> (r: Client)
        ensures
            r.handles_minted() == 0,
    {
        Client { next_handle: 0 }
    }

    fn mint(&mut self) -> (r: ReplyHandle)
        requires
            old(self).handles_minted() < u64::MAX,
        ensures
            r@ == old(self).handles_minted(),
            final(self).handles_minted() == old(self).handles_minted() + 1,
    {
        let h = ReplyHandle::mint(self.next_handle);
        self.next_handle = self.next_handle + 1;
        h
    }

    /// Builds a `StartListening` command with a fresh reply handle.
    pub fn start_listening(&mut self, addr: String) -> (r: Command)
        requires
            old(self).handles_minted() < u64::MAX,
        ensures
            final(self).handles_minted() == old(self).handles_minted() + 1,
            r matches Command::StartListening { addr: a, sender } && a == addr && sender@
                == old(self).handles_minted(),
    {
        let sender = self.mint();
        Command::StartListening { addr, sender }
    }

    /// Builds a `Dial` command with a fresh reply handle.
    pub fn dial(&mut self, peer_id: u64, peer_addr: String) -> (r: Command)
        requires
            old(self).handles_minted() < u64::MAX,
        ensures
            final(self).handles_minted() == old(self).handles_minted() + 1,
            r matches Command::Dial { peer_id: p, peer_addr: a, sender } && p == peer_id && a
                == peer_addr && sender@ == old(self).handles_minted(),
    {
        let sender = self.mint();
        Command::Dial { peer_id, peer_addr, sender }
    }

    /// Builds a `StartProviding` command with a fresh reply handle.
    pub fn start_providing(&mut self, file_name: String) -> (r: Command)
        requires
            old(self).handles_minted() < u64::MAX,
        ensures
            final(self).handles_minted() == old(self).handles_minted() + 1,
            r matches Command::StartProviding { file_name: n, sender } && n == file_name && sender@
                == old(self).handles_minted(),
    {
        let sender = self.mint();
        Command::StartProviding { file_name, sender }
    }

    /// Builds a `GetProviders` command with a fresh reply handle.
    pub fn get_providers(&mut self, file_name: String) -> (r: Command)
        requires
            old(self).handles_minted() < u64::MAX,
        ensures
            final(self).handles_minted() == old(self).handles_minted() + 1,
            r matches Command::GetProviders { file_name: n, sender } && n == file_name && sender@
                == old(self).handles_minted(),
    {
        let sender = self.mint();
        Command::GetProviders { file_name, sender }
    }

    /// Builds a `RequestFile` command with a fresh reply handle.
    pub fn request_file(&mut self, peer: u64, file_name: String) -> (r: Command)
        requires
            old(self).handles_minted() < u64::MAX,
        ensures
            final(self).handles_minted() == old(self).handles_minted() + 1,
            r matches Command::RequestFile { file_name: n, peer: p, sender } && n == file_name && p
                == peer && sender@ == old(self).handles_minted(),
    {
        let sender = self.mint();
        Command::RequestFile { file_name, peer, sender }
    }

    /// Builds a `RespondFile` command. Answering an inbound request needs no
    /// reply handle: the response channel itself carries the answer.
    pub fn respond_file(&self, file: String, channel: u64) -> (r: Command)
        ensures
            r == (Command::RespondFile { file, channel }),
    {
        Command::RespondFile { file, channel }
    }
}

} // verus!
