//! Fresh key pairs.

use vstd::prelude::*;
use crate::codec::{base58_encode, base58_of};
use crate::keys::{valid_keypair_bytes, SigningKeypair};
use crate::types::KeypairResponse;

verus! {

impl KeypairResponse {
    /// Whether this shows the key pair of these bytes: the public half and
    /// the whole, each in base58.
    pub open spec fn shows(&self, keypair: Seq<u8>) -> bool {
        &&& base58_of(self.pubkey@, keypair.subrange(32, 64))
        &&& base58_of(self.secret@, keypair)
    }
}

/// Shows a key pair to the caller it was made for.
pub fn keypair_response(keypair: &SigningKeypair) -> (r: KeypairResponse)
    ensures
        r.shows(keypair@),
        valid_keypair_bytes(keypair@),
{
    let secret = keypair.to_bytes();
    KeypairResponse {
        pubkey: keypair.public_key().to_base58(),
        secret: base58_encode(secret.as_slice()),
    }
}

/// Draws a fresh key pair from the operating system's random source and
/// shows it. Which key pair comes is open; that the two fields belong to one
/// key pair is not.
pub fn generate_keypair() -> (r: KeypairResponse)
    ensures
        exists|keypair: Seq<u8>| valid_keypair_bytes(keypair) && #[trigger] r.shows(keypair),
{
    let keypair = SigningKeypair::generate();
    keypair_response(&keypair)
}

} // verus!
