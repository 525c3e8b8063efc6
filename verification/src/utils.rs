//! The checks every operation runs on its fields before anything else
//! touches them.

use vstd::prelude::*;
use vstd::string::*;
use crate::codec::{base58_bytes, base58_decode};
use crate::config::MAX_SAFE_INTEGER;
use crate::error::{reports, AppError};
use crate::keys::{expanded_seed, valid_keypair_bytes, SigningKeypair};
use crate::pubkey::Pubkey;
use crate::text::{blank, decimal, decimal_text, is_blank, join2, join3};

verus! {

/// The complaint about a field that is absent or blank.
pub open spec fn missing_field(field: Seq<char>) -> Seq<char> {
    "Missing required field: "@ + field
}

/// Why `value` is refused as the content of a required field, if it is.
pub open spec fn not_empty_failure(value: Seq<char>, field: Seq<char>) -> Option<Seq<char>> {
    if blank(value) {
        Some(missing_field(field))
    } else {
        None
    }
}

/// Why `value` is refused as a public key, if it is: it is blank, it is not
/// base58, or it does not stand for thirty-two bytes.
pub open spec fn pubkey_failure(value: Seq<char>, field: Seq<char>) -> Option<Seq<char>> {
    if blank(value) {
        Some(missing_field(field))
    } else {
        match base58_bytes(value) {
            None => Some("Invalid base58 for "@ + field),
            Some(bytes) => if bytes.len() != 32 {
                Some(
                    "Invalid "@ + field + " pubkey length: expected 32 bytes, got "@
                        + decimal_text(bytes.len()),
                )
            } else {
                None
            },
        }
    }
}

/// Why `value` is refused as a secret, if it is: it is blank, it is not
/// base58, it stands for neither thirty-two nor sixty-four bytes, or its
/// sixty-four bytes are no key pair.
pub open spec fn secret_key_failure(value: Seq<char>) -> Option<Seq<char>> {
    if blank(value) {
        Some(missing_field("secret"@))
    } else {
        match base58_bytes(value) {
            None => Some("Invalid base58 for secret"@),
            Some(bytes) => if bytes.len() == 64 {
                if valid_keypair_bytes(bytes) {
                    None
                } else {
                    Some("Invalid secret key bytes"@)
                }
            } else if bytes.len() == 32 {
                None
            } else {
                Some(
                    "Invalid secret key length: expected 32 or 64 bytes, got "@ + decimal_text(
                        bytes.len(),
                    ),
                )
            },
        }
    }
}

/// The key pair that an accepted secret stands for: its sixty-four bytes
/// themselves, or the key pair that its thirty-two bytes expand to.
pub open spec fn secret_keypair(value: Seq<char>) -> Seq<u8> {
    let bytes = base58_bytes(value).unwrap();
    if bytes.len() == 64 {
        bytes
    } else {
        expanded_seed(bytes)
    }
}

/// Why `amount` is refused, if it is: it is zero, or it is above
/// `MAX_SAFE_INTEGER`.
pub open spec fn amount_failure(amount: u64, field: Seq<char>) -> Option<Seq<char>> {
    if amount == 0 {
        Some(field + " must be greater than 0"@)
    } else if amount > MAX_SAFE_INTEGER {
        Some(
            field + " exceeds max safe integer ("@ + decimal_text(MAX_SAFE_INTEGER as nat)
                + ")."@,
        )
    } else {
        None
    }
}

/// Why two keys are refused as a pair, if they are: they are the same key.
pub open spec fn same_key_failure(
    a: Seq<u8>,
    b: Seq<u8>,
    field_a: Seq<char>,
    field_b: Seq<char>,
) -> Option<Seq<char>> {
    if a == b {
        Some(field_a + " and "@ + field_b + " cannot be the same public key."@)
    } else {
        None
    }
}

/// The bytes that an accepted key stands for.
pub open spec fn key_bytes(value: Seq<char>) -> Seq<u8> {
    base58_bytes(value).unwrap()
}

/// The first of two complaints: `first` if there is one, else `second`.
pub open spec fn first_of(first: Option<Seq<char>>, second: Option<Seq<char>>) -> Option<
    Seq<char>,
> {
    if first is Some {
        first
    } else {
        second
    }
}

/// A text is accepted as a public key exactly if it is not blank and stands,
/// in base58, for thirty-two bytes: thirty-one or thirty-three are refused.
pub proof fn lemma_pubkey_needs_32_bytes(value: Seq<char>, field: Seq<char>)
    ensures
        pubkey_failure(value, field) is None <==> !blank(value) && (base58_bytes(value) matches Some(
            bytes,
        ) && bytes.len() == 32),
{
}

/// Two keys of the same bytes are refused as a pair, whatever their texts
/// looked like.
pub proof fn lemma_same_bytes_refused(
    a: Seq<char>,
    b: Seq<char>,
    field_a: Seq<char>,
    field_b: Seq<char>,
)
    requires
        key_bytes(a) == key_bytes(b),
    ensures
        same_key_failure(key_bytes(a), key_bytes(b), field_a, field_b) is Some,
{
}

/// An amount is accepted exactly if it is positive and no larger than
/// `MAX_SAFE_INTEGER`.
pub proof fn lemma_amount_bounds(amount: u64, field: Seq<char>)
    ensures
        amount_failure(amount, field) is None <==> 0 < amount <= MAX_SAFE_INTEGER,
{
}

/// Reads a public key from base58.
pub fn parse_pubkey(pubkey_str: &str, field_name: &str) -> (r: Result<Pubkey, AppError>)
    ensures
        reports(r, pubkey_failure(pubkey_str@, field_name@)),
        r matches Ok(key) ==> key@ == key_bytes(pubkey_str@) && key@.len() == 32,
{
    if is_blank(pubkey_str) {
        return Err(AppError::BadRequest(join2("Missing required field: ", field_name)));
    }
    let bytes = match base58_decode(pubkey_str) {
        Ok(bytes) => bytes,
        Err(_) => {
            return Err(AppError::BadRequest(join2("Invalid base58 for ", field_name)));
        },
    };
    if bytes.len() != 32 {
        let mut text = join3("Invalid ", field_name, " pubkey length: expected 32 bytes, got ");
        text.append(decimal(bytes.len() as u64).as_str());
        return Err(AppError::BadRequest(text));
    }
    match Pubkey::from_slice(bytes.as_slice()) {
        Some(key) => Ok(key),
        None => Err(AppError::BadRequest(join3("Invalid ", field_name, " pubkey"))),
    }
}

/// Reads a secret from base58: a key pair of sixty-four bytes, or a seed of
/// thirty-two that is expanded into the key pair it determines.
pub fn parse_secret_key(secret_str: &str) -> (r: Result<SigningKeypair, AppError>)
    ensures
        reports(r, secret_key_failure(secret_str@)),
        r matches Ok(keypair) ==> keypair@ == secret_keypair(secret_str@) && valid_keypair_bytes(
            keypair@,
        ),
{
    if is_blank(secret_str) {
        return Err(AppError::BadRequest(join2("Missing required field: ", "secret")));
    }
    let bytes = match base58_decode(secret_str) {
        Ok(bytes) => bytes,
        Err(_) => {
            return Err(AppError::BadRequest(String::from_str("Invalid base58 for secret")));
        },
    };
    if bytes.len() != 64 && bytes.len() != 32 {
        let mut text = String::from_str("Invalid secret key length: expected 32 or 64 bytes, got ");
        text.append(decimal(bytes.len() as u64).as_str());
        return Err(AppError::BadRequest(text));
    }
    if bytes.len() == 64 {
        match SigningKeypair::from_bytes(bytes.as_slice()) {
            Some(keypair) => Ok(keypair),
            None => Err(AppError::BadRequest(String::from_str("Invalid secret key bytes"))),
        }
    } else {
        match SigningKeypair::from_seed(bytes.as_slice()) {
            Some(keypair) => {
                assert(bytes@.subrange(0, 32) =~= bytes@);
                Ok(keypair)
            },
            None => Err(AppError::BadRequest(String::from_str("Invalid secret key seed bytes"))),
        }
    }
}

/// Checks that an amount is positive and no larger than `MAX_SAFE_INTEGER`.
pub fn validate_amount(amount: u64, field_name: &str) -> (r: Result<(), AppError>)
    ensures
        reports(r, amount_failure(amount, field_name@)),
{
    if amount == 0 {
        return Err(AppError::BadRequest(join2(field_name, " must be greater than 0")));
    }
    if amount > MAX_SAFE_INTEGER {
        let mut text = join2(field_name, " exceeds max safe integer (");
        text.append(decimal(MAX_SAFE_INTEGER).as_str());
        text.append(").");
        return Err(AppError::BadRequest(text));
    }
    Ok(())
}

/// Checks that two keys differ.
pub fn validate_different_pubkeys(
    pubkey1: &Pubkey,
    pubkey2: &Pubkey,
    field1_name: &str,
    field2_name: &str,
) -> (r: Result<(), AppError>)
    ensures
        reports(r, same_key_failure(pubkey1@, pubkey2@, field1_name@, field2_name@)),
{
    if pubkey1.same_as(pubkey2) {
        let mut text = join3(field1_name, " and ", field2_name);
        text.append(" cannot be the same public key.");
        return Err(AppError::BadRequest(text));
    }
    Ok(())
}

/// Checks that a required field holds more than white space.
pub fn validate_not_empty(value: &str, field_name: &str) -> (r: Result<(), AppError>)
    ensures
        reports(r, not_empty_failure(value@, field_name@)),
{
    if is_blank(value) {
        return Err(AppError::BadRequest(join2("Missing required field: ", field_name)));
    }
    Ok(())
}

} // verus!
