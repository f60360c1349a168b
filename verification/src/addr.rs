//! Choosing the local listen address: the caller's, when one is given,
//! otherwise a built-in default naming an ephemeral port on all interfaces.

use vstd::prelude::*;

verus! {

#[verifier::external_type_specification]
#[verifier::external_body]
pub struct ExMultiaddr(libp2p::Multiaddr);

/// Whether the text is a well-formed multiaddress, that is, whether parsing
/// it succeeds. Parsing depends on the text alone.
pub uninterp spec fn multiaddr_ok(s: Seq<char>) -> bool;

/// Relies on `Multiaddr`'s `FromStr` implementation: whether the text parses
/// is a function of the text alone.
#[verifier::external_body]
fn parse_multiaddr(s: &str) -> (r: Option<libp2p::Multiaddr>)
    ensures
        r is Some <==> multiaddr_ok(s@),
{
    s.parse().ok()
}

/// Errors choosing the local listen address.
#[derive(PartialEq, Eq, Structural, Clone, Copy, Debug)]
pub enum AddrError {
    /// The built-in default listen address failed to parse.
    InvalidDefaultAddress,
}

/// The text of the default listen address.
pub open spec fn default_listen_addr_text() -> Seq<char> {
    "/ip4/0.0.0.0/tcp/0"@
}

/// The default listen address as text: an ephemeral port on all interfaces.
pub fn default_listen_addr() -> (r: &'static str)
    ensures
        r@ == default_listen_addr_text(),
{
    "/ip4/0.0.0.0/tcp/0"
}

/// Chooses the local listen address: the caller's, when given; otherwise the
/// parsed default.
pub fn choose_listen_addr(user: Option<libp2p::Multiaddr>) -> (r: Result<
    libp2p::Multiaddr,
    AddrError,
>)
    ensures
        user matches Some(a) ==> r == Ok::<libp2p::Multiaddr, AddrError>(a),
        user is None ==> (r is Ok <==> multiaddr_ok(default_listen_addr_text())),
        r is Err ==> r == Err::<libp2p::Multiaddr, AddrError>(AddrError::InvalidDefaultAddress),
{
    match user {
        Some(a) => Ok(a),
        None => {
            match parse_multiaddr(default_listen_addr()) {
                Some(a) => Ok(a),
                None => Err(AddrError::InvalidDefaultAddress),
            }
        },
    }
}

} // verus!
