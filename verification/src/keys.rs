//! Ed25519 key pairs and signatures.
//!
//! The arithmetic is the work of `ed25519_dalek`, through `solana_sdk` where
//! a key pair is checked or expanded from a seed. A key pair and a signature
//! are held here as their bytes; the types keep what those crates checked.

use vstd::prelude::*;
use vstd::slice::slice_subrange;
use ed25519_dalek::{Signer, Verifier};
use vstd::string::*;
use crate::codec::base58_of;
use crate::error::AppError;
use crate::pubkey::Pubkey;

verus! {

#[verifier::external_type_specification]
#[verifier::external_body]
pub struct ExSignatureError(ed25519_dalek::SignatureError);

/// The public key that belongs to a secret seed of thirty-two bytes.
pub uninterp spec fn ed25519_public_key(seed: Seq<u8>) -> Seq<u8>;

/// The signature that the key pair of these bytes puts on `message`.
pub uninterp spec fn ed25519_signature(keypair: Seq<u8>, message: Seq<u8>) -> Seq<u8>;

/// Whether `signature` is accepted for `message` under `public_key`; false
/// where the key is no point of the curve.
pub uninterp spec fn ed25519_verifies(
    public_key: Seq<u8>,
    message: Seq<u8>,
    signature: Seq<u8>,
) -> bool;

/// The bytes of a key pair: a seed followed by the public key that belongs
/// to it.
pub open spec fn valid_keypair_bytes(bytes: Seq<u8>) -> bool {
    &&& bytes.len() == 64
    &&& bytes.subrange(32, 64) == ed25519_public_key(bytes.subrange(0, 32))
}

/// The key pair that a seed expands to.
pub open spec fn expanded_seed(seed: Seq<u8>) -> Seq<u8> {
    seed + ed25519_public_key(seed)
}

/// The shape of a signature: sixty-four bytes, the three highest bits of
/// the last one clear.
pub open spec fn signature_shape(bytes: Seq<u8>) -> bool {
    &&& bytes.len() == 64
    &&& bytes[63] & 0xE0 == 0
}

/// What holds of every signature of a key pair: it has the shape of a
/// signature, and it is accepted for the message it was put on under the
/// public half of the key pair.
pub open spec fn signature_holds(keypair: Seq<u8>, message: Seq<u8>) -> bool {
    let signature = ed25519_signature(keypair, message);
    &&& signature_shape(signature)
    &&& ed25519_verifies(keypair.subrange(32, 64), message, signature)
}

/// `Keypair::from_bytes` of `solana_sdk`.
///
/// Trusted: it accepts exactly sixty-four bytes whose second half is the
/// public key of the first half, and the key pair has those bytes.
#[verifier::external_body]
fn solana_keypair_from_bytes(bytes: &[u8]) -> (r: Result<Vec<u8>, ed25519_dalek::SignatureError>)
    ensures
        r is Ok <==> valid_keypair_bytes(bytes@),
        r matches Ok(keypair) ==> keypair@ == bytes@,
{
    let keypair = solana_sdk::signer::keypair::Keypair::from_bytes(bytes)?;
    Ok(keypair.to_bytes().to_vec())
}

/// `keypair_from_seed` of `solana_sdk`.
///
/// Trusted: it fails on fewer than thirty-two bytes; otherwise the key pair
/// is the first thirty-two bytes followed by the public key named
/// `ed25519_public_key`, sixty-four bytes in all.
#[verifier::external_body]
fn solana_keypair_from_seed(seed: &[u8]) -> (r: Option<Vec<u8>>)
    ensures
        r is Some <==> seed@.len() >= 32,
        r matches Some(keypair) ==> keypair@ == seed@.subrange(0, 32) + ed25519_public_key(
            seed@.subrange(0, 32),
        ) && keypair@.len() == 64,
{
    let keypair = solana_sdk::signer::keypair::keypair_from_seed(seed).ok()?;
    Some(keypair.to_bytes().to_vec())
}

/// `Keypair::generate` of `ed25519_dalek` on the operating system's random
/// source, `rand::rngs::OsRng`.
///
/// Trusted: whatever seed was drawn, the public half is the public key of
/// the seed.
#[verifier::external_body]
fn dalek_generate_keypair() -> (keypair: Vec<u8>)
    ensures
        valid_keypair_bytes(keypair@),
{
    let keypair = ed25519_dalek::Keypair::generate(&mut rand::rngs::OsRng {});
    keypair.to_bytes().to_vec()
}

/// `try_sign` of an `ed25519_dalek::Keypair` rebuilt from its bytes.
///
/// Trusted: signing does not fail; the result is the signature named
/// `ed25519_signature`, it has the shape of a signature, and it is accepted
/// for the message under the public half of the key pair.
#[verifier::external_body]
fn dalek_sign(keypair: &[u8], message: &[u8]) -> (r: Result<
    Vec<u8>,
    ed25519_dalek::SignatureError,
>)
    requires
        valid_keypair_bytes(keypair@),
    ensures
        r is Ok,
        r matches Ok(signature) ==> {
            &&& signature@ == ed25519_signature(keypair@, message@)
            &&& signature_shape(signature@)
            &&& ed25519_verifies(keypair@.subrange(32, 64), message@, signature@)
        },
{
    let keypair = ed25519_dalek::Keypair::from_bytes(keypair)?;
    Ok(keypair.try_sign(message)?.to_bytes().to_vec())
}

/// `Signature::try_from` of `ed25519_dalek`, on a slice.
///
/// Trusted: it accepts exactly the slices that have the shape of a
/// signature, and the signature has the bytes of the slice.
#[verifier::external_body]
fn dalek_signature_from_bytes(bytes: &[u8]) -> (r: Result<Vec<u8>, ed25519_dalek::SignatureError>)
    ensures
        r is Ok <==> signature_shape(bytes@),
        r matches Ok(signature) ==> signature@ == bytes@,
{
    let signature = ed25519_dalek::Signature::try_from(bytes)?;
    Ok(signature.to_bytes().to_vec())
}

/// `verify` of an `ed25519_dalek::PublicKey` read by `PublicKey::from_bytes`.
///
/// Trusted: the result is what `ed25519_verifies` names; it is false where
/// the bytes are no public key.
#[verifier::external_body]
fn dalek_verify(public_key: &[u8; 32], message: &[u8], signature: &[u8]) -> (valid: bool)
    requires
        signature_shape(signature@),
    ensures
        valid == ed25519_verifies(public_key@, message@, signature@),
{
    let signature = ed25519_dalek::Signature::try_from(signature).unwrap();
    match ed25519_dalek::PublicKey::from_bytes(public_key) {
        Ok(key) => key.verify(message, &signature).is_ok(),
        Err(_) => false,
    }
}

/// Expanding a seed is a function of the seed: two key pairs expanded from
/// the same thirty-two bytes are the same, public half and base58 text of
/// it included.
pub proof fn lemma_seed_expansion_deterministic(
    seed: Seq<u8>,
    first: Seq<u8>,
    second: Seq<u8>,
    first_text: Seq<char>,
    second_text: Seq<char>,
)
    requires
        seed.len() == 32,
        first == expanded_seed(seed),
        second == expanded_seed(seed),
        base58_of(first_text, first.subrange(32, 64)),
        base58_of(second_text, second.subrange(32, 64)),
    ensures
        first.subrange(32, 64) == second.subrange(32, 64),
        first_text == second_text,
{
}

/// A signature, as the bytes that were checked for its shape.
#[derive(Debug, PartialEq, Eq)]
pub struct Signature {
    bytes: Vec<u8>,
}

impl View for Signature {
    type V = Seq<u8>;

    closed spec fn view(&self) -> Seq<u8> {
        self.bytes@
    }
}

impl Signature {
    #[verifier::type_invariant]
    spec fn well_formed(self) -> bool {
        signature_shape(self.bytes@)
    }

    /// Reads a signature; it is refused unless it has the shape of one.
    pub fn from_bytes(bytes: &[u8]) -> (r: Option<Signature>)
        ensures
            r is Some <==> signature_shape(bytes@),
            r matches Some(signature) ==> signature@ == bytes@,
    {
        match dalek_signature_from_bytes(bytes) {
            Ok(checked) => Some(Signature { bytes: checked }),
            Err(_) => None,
        }
    }

    /// The sixty-four bytes of the signature.
    pub fn to_bytes(&self) -> (bytes: Vec<u8>)
        ensures
            bytes@ == self@,
            signature_shape(bytes@),
    {
        proof {
            use_type_invariant(self);
        }
        self.bytes.clone()
    }
}

/// A key pair that signs: a secret seed and the public key that belongs to
/// it. It has no printed form, so that the seed does not reach a log.
pub struct SigningKeypair {
    bytes: Vec<u8>,
}

impl View for SigningKeypair {
    type V = Seq<u8>;

    closed spec fn view(&self) -> Seq<u8> {
        self.bytes@
    }
}

impl SigningKeypair {
    #[verifier::type_invariant]
    spec fn well_formed(self) -> bool {
        valid_keypair_bytes(self.bytes@)
    }

    /// Reads a key pair from its sixty-four bytes; it is refused unless the
    /// second half is the public key of the first.
    pub fn from_bytes(bytes: &[u8]) -> (r: Option<SigningKeypair>)
        ensures
            r is Some <==> valid_keypair_bytes(bytes@),
            r matches Some(keypair) ==> keypair@ == bytes@,
    {
        match solana_keypair_from_bytes(bytes) {
            Ok(checked) => Some(SigningKeypair { bytes: checked }),
            Err(_) => None,
        }
    }

    /// Expands a seed into the key pair it determines. The first thirty-two
    /// bytes are the seed; fewer are refused.
    pub fn from_seed(seed: &[u8]) -> (r: Option<SigningKeypair>)
        ensures
            r is Some <==> seed@.len() >= 32,
            r matches Some(keypair) ==> keypair@ == expanded_seed(seed@.subrange(0, 32))
                && valid_keypair_bytes(keypair@),
    {
        match solana_keypair_from_seed(seed) {
            Some(expanded) => {
                proof {
                    let s = seed@.subrange(0, 32);
                    assert(expanded@.subrange(0, 32) =~= s);
                    assert(expanded@.subrange(32, 64) =~= ed25519_public_key(s));
                }
                Some(SigningKeypair { bytes: expanded })
            },
            None => None,
        }
    }

    /// Draws a fresh key pair from the operating system's random source.
    pub fn generate() -> (keypair: SigningKeypair)
        ensures
            valid_keypair_bytes(keypair@),
    {
        SigningKeypair { bytes: dalek_generate_keypair() }
    }

    /// The sixty-four bytes of the key pair: seed, then public key.
    pub fn to_bytes(&self) -> (bytes: Vec<u8>)
        ensures
            bytes@ == self@,
            valid_keypair_bytes(bytes@),
    {
        proof {
            use_type_invariant(self);
        }
        self.bytes.clone()
    }

    /// The public half.
    pub fn public_key(&self) -> (key: Pubkey)
        ensures
            key@ == self@.subrange(32, 64),
            key@ == ed25519_public_key(self@.subrange(0, 32)),
    {
        proof {
            use_type_invariant(self);
        }
        let half = slice_subrange(self.bytes.as_slice(), 32, 64);
        Pubkey::from_slice(half).unwrap()
    }

    /// Signs `message`. A failure of the signing primitive refuses the
    /// request; the primitive is trusted not to fail.
    pub fn sign(&self, message: &[u8]) -> (r: Result<Signature, AppError>)
        ensures
            r is Ok,
            r matches Ok(signature) ==> signature@ == ed25519_signature(self@, message@),
            signature_holds(self@, message@),
    {
        proof {
            use_type_invariant(self);
        }
        match dalek_sign(self.bytes.as_slice(), message) {
            Ok(signature) => Ok(Signature { bytes: signature }),
            Err(_) => Err(AppError::BadRequest(String::from_str("Failed to sign message"))),
        }
    }
}

/// Whether `signature` is a signature of `message` under `key`. A key that
/// is no point of the curve verifies nothing.
pub fn verify_signature(key: &Pubkey, message: &[u8], signature: &Signature) -> (valid: bool)
    ensures
        valid == ed25519_verifies(key@, message@, signature@),
{
    proof {
        use_type_invariant(signature);
    }
    dalek_verify(&key.bytes, message, signature.bytes.as_slice())
}

} // verus!
