//! Peer identity: a keypair and the node identifier derived from it, either
//! deterministically from a single-byte seed or from fresh randomness.

use vstd::prelude::*;

verus! {

#[verifier::external_type_specification]
#[verifier::external_body]
pub struct ExKeypair(libp2p::identity::Keypair);

#[verifier::external_type_specification]
#[verifier::external_body]
pub struct ExPublicKey(libp2p::identity::PublicKey);

#[verifier::external_type_specification]
#[verifier::external_body]
pub struct ExPeerId(libp2p::PeerId);

/// Relies on libp2p's `Keypair::public`: the keypair's public half.
pub assume_specification[ libp2p::identity::Keypair::public ](
    kp: &libp2p::identity::Keypair,
) -> libp2p::identity::PublicKey;

/// Relies on libp2p's `PublicKey::to_peer_id`: the node identifier derived
/// from the public key.
pub assume_specification[ libp2p::identity::PublicKey::to_peer_id ](
    key: &libp2p::identity::PublicKey,
) -> libp2p::PeerId;

/// Errors deriving a node identity.
#[derive(PartialEq, Eq, Structural, Clone, Copy, Debug)]
pub enum IdentityError {
    /// The seed-derived key material was rejected. `derive` proves this does
    /// not occur for any single-byte seed.
    MalformedKeyMaterial,
}

/// The 32 bytes of key material a single-byte seed expands to: the seed
/// followed by zeroes, so equal seeds expand to equal material.
pub fn seed_material(seed: u8) -> (r: Vec<u8>)
    ensures
        r@.len() == 32,
        r@[0] == seed,
        forall|i: int| 1 <= i < 32 ==> r@[i] == 0,
{
    let mut bytes: Vec<u8> = Vec::new();
    bytes.push(seed);
    let mut i: usize = 1;
    while i < 32
        invariant
            1 <= i <= 32,
            bytes@.len() == i,
            bytes@[0] == seed,
            forall|j: int| 1 <= j < i ==> bytes@[j] == 0,
        decreases 32 - i,
    {
        bytes.push(0);
        i = i + 1;
    }
    bytes
}

/// Relies on libp2p's `Keypair::ed25519_from_bytes`: decoding an Ed25519
/// secret key fails only when the material's length is not exactly 32 bytes.
#[verifier::external_body]
fn keypair_from_material(material: Vec<u8>) -> (r: Option<libp2p::identity::Keypair>)
    requires
        material@.len() == 32,
    ensures
        r is Some,
{
    libp2p::identity::Keypair::ed25519_from_bytes(material).ok()
}

/// Relies on libp2p's `Keypair::generate_ed25519`: the key material is fresh
/// randomness, so nothing is promised of the result.
#[verifier::external_body]
fn generate_keypair() -> (r: libp2p::identity::Keypair) {
    libp2p::identity::Keypair::generate_ed25519()
}

/// Derives the node's identity. A seed expands deterministically into key
/// material, so equal seeds give the same identity (reproducible test
/// topologies); without a seed the key material is fresh randomness.
/// Derivation never fails: every single-byte seed expands to valid material.
pub fn derive(secret_key_seed: Option<u8>) -> (r: Result<
    (libp2p::identity::Keypair, libp2p::PeerId),
    IdentityError,
>)
    ensures
        r is Ok,
{
    let keypair = match secret_key_seed {
        Some(seed) => {
            match keypair_from_material(seed_material(seed)) {
                Some(kp) => kp,
                None => {
                    return Err(IdentityError::MalformedKeyMaterial);
                },
            }
        },
        None => generate_keypair(),
    };
    let peer_id = keypair.public().to_peer_id();
    Ok((keypair, peer_id))
}

} // verus!
