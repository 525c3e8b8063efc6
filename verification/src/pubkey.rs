//! A public key: thirty-two bytes, written in base58.

use vstd::prelude::*;
use crate::codec::{base58_encode, base58_of};

verus! {

#[verifier::external_type_specification]
#[verifier::external_body]
pub struct ExTryFromSliceError(core::array::TryFromSliceError);

/// The address of an account or a program.
#[derive(Debug, Clone, Copy, PartialEq, Eq)]
pub struct Pubkey {
    pub bytes: [u8; 32],
}

impl View for Pubkey {
    type V = Seq<u8>;

    open spec fn view(&self) -> Seq<u8> {
        self.bytes@
    }
}

/// `Pubkey::try_from` of `solana_program`, on a slice.
///
/// Trusted: it accepts exactly the slices of thirty-two bytes, and the key
/// holds the bytes of the slice.
#[verifier::external_body]
fn solana_pubkey_from_slice(bytes: &[u8]) -> (r: Result<Pubkey, core::array::TryFromSliceError>)
    ensures
        r is Ok <==> bytes@.len() == 32,
        r matches Ok(key) ==> key@ == bytes@,
{
    let key = solana_program::pubkey::Pubkey::try_from(bytes)?;
    Ok(Pubkey { bytes: key.to_bytes() })
}

impl Pubkey {
    /// The key made of `bytes`, if there are thirty-two of them.
    pub fn from_slice(bytes: &[u8]) -> (r: Option<Pubkey>)
        ensures
            r is Some <==> bytes@.len() == 32,
            r matches Some(key) ==> key@ == bytes@,
    {
        match solana_pubkey_from_slice(bytes) {
            Ok(key) => Some(key),
            Err(_) => None,
        }
    }

    /// The key in base58, as it is shown to callers.
    pub fn to_base58(&self) -> (text: String)
        ensures
            base58_of(text@, self@),
    {
        base58_encode(&self.bytes)
    }

    /// Whether the two keys hold the same bytes.
    pub fn same_as(&self, other: &Pubkey) -> (b: bool)
        ensures
            b == (self@ == other@),
            b == (*self == *other),
    {
        let mut i: usize = 0;
        while i < 32
            invariant
                i <= 32,
                forall|j: int| 0 <= j < i ==> self.bytes[j] == other.bytes[j],
            decreases 32 - i,
        {
            if self.bytes[i] != other.bytes[i] {
                return false;
            }
            i += 1;
        }
        assert(self.bytes@ =~= other.bytes@);
        assert(self.bytes =~= other.bytes);
        true
    }
}

/// A key has thirty-two bytes.
pub proof fn lemma_pubkey_len(key: Pubkey)
    ensures
        key@.len() == 32,
{
}

} // verus!
