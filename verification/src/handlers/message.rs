//! Signing a message and checking a signature.

use vstd::prelude::*;
use vstd::string::*;
use vstd::utf8::encode_utf8;
use crate::codec::{
    base58_of, base64_bytes, base64_decode, base64_encode, base64_of,
    lemma_base58_char_not_whitespace, lemma_base64_char_not_whitespace,
};
use crate::error::{reports, AppError};
use crate::keys::{
    ed25519_signature, ed25519_verifies, signature_holds, signature_shape, valid_keypair_bytes,
    verify_signature, Signature,
};
use crate::text::blank;
use crate::types::{
    KeypairResponse, MessageSignRequest, MessageSignResponse, MessageVerifyRequest, MessageVerifyResponse,
};
use crate::utils::{
    first_of, key_bytes, not_empty_failure, parse_pubkey, parse_secret_key, pubkey_failure,
    secret_key_failure, secret_keypair, validate_not_empty,
};

verus! {

/// The body of a request to sign, by the name of its endpoint.
pub type SignMessageRequest = MessageSignRequest;

/// The body of a request to verify, by the name of its endpoint.
pub type VerifyMessageRequest = MessageVerifyRequest;

/// The bytes that are signed for a message: its text in UTF-8.
pub open spec fn message_bytes(message: Seq<char>) -> Seq<u8> {
    encode_utf8(message)
}

/// Why a request to sign is refused, if it is. The fields are checked in
/// this order: message, secret.
pub open spec fn sign_message_failure(req: MessageSignRequest) -> Option<Seq<char>> {
    first_of(
        not_empty_failure(req.message@, "message"@),
        first_of(not_empty_failure(req.secret@, "secret"@), secret_key_failure(req.secret@)),
    )
}

/// Why the text of a signature is refused, if it is: it is not base64, or
/// its bytes do not have the shape of a signature.
pub open spec fn signature_failure(text: Seq<char>) -> Option<Seq<char>> {
    match base64_bytes(text) {
        None => Some("Invalid signature base64"@),
        Some(bytes) => if signature_shape(bytes) {
            None
        } else {
            Some("Invalid signature bytes"@)
        },
    }
}

/// Why a request to verify is refused, if it is. The fields are checked in
/// this order: that message, signature and public key are present, the
/// public key, the signature.
pub open spec fn verify_message_failure(req: MessageVerifyRequest) -> Option<Seq<char>> {
    first_of(
        not_empty_failure(req.message@, "message"@),
        first_of(
            not_empty_failure(req.signature@, "signature"@),
            first_of(
                not_empty_failure(req.pubkey@, "pubkey"@),
                first_of(
                    pubkey_failure(req.pubkey@, "pubkey"@),
                    signature_failure(req.signature@),
                ),
            ),
        ),
    )
}

impl MessageSignResponse {
    /// Whether this shows the signature that the key pair of these bytes
    /// puts on `message`: the signature in base64, the public half in
    /// base58, and the message as it came.
    pub open spec fn shows(&self, keypair: Seq<u8>, message: Seq<char>) -> bool {
        &&& base64_of(self.signature@, ed25519_signature(keypair, message_bytes(message)))
        &&& base58_of(self.public_key@, keypair.subrange(32, 64))
        &&& self.message@ == message
    }
}

/// What signing promises: the request is refused for the first reason
/// there is; otherwise the response shows the signature of the key pair that
/// the secret stands for, and that signature holds.
pub open spec fn sign_message_post(
    req: MessageSignRequest,
    r: Result<MessageSignResponse, AppError>,
) -> bool {
    &&& reports(r, sign_message_failure(req))
    &&& r matches Ok(resp) ==> {
        &&& resp.shows(secret_keypair(req.secret@), req.message@)
        &&& valid_keypair_bytes(secret_keypair(req.secret@))
        &&& signature_holds(secret_keypair(req.secret@), message_bytes(req.message@))
    }
}

/// What verifying promises: the request is refused for the first reason
/// there is; otherwise the response says whether the signature is accepted
/// for the bytes of the message under the key, and hands message and key
/// back as they came.
pub open spec fn verify_message_post(
    req: MessageVerifyRequest,
    r: Result<MessageVerifyResponse, AppError>,
) -> bool {
    &&& reports(r, verify_message_failure(req))
    &&& r matches Ok(resp) ==> {
        &&& resp.valid == ed25519_verifies(
            key_bytes(req.pubkey@),
            message_bytes(req.message@),
            base64_bytes(req.signature@).unwrap(),
        )
        &&& resp.message@ == req.message@
        &&& resp.pubkey@ == req.pubkey@
    }
}

/// Signs the bytes of a message with the key pair that the secret stands
/// for.
pub fn sign_message(req: &MessageSignRequest) -> (r: Result<MessageSignResponse, AppError>)
    ensures
        sign_message_post(*req, r),
{
    validate_not_empty(req.message.as_str(), "message")?;
    validate_not_empty(req.secret.as_str(), "secret")?;
    let keypair = parse_secret_key(req.secret.as_str())?;
    let signature = keypair.sign(req.message.as_str().as_bytes())?;
    let bytes = signature.to_bytes();
    Ok(
        MessageSignResponse {
            signature: base64_encode(bytes.as_slice()),
            public_key: keypair.public_key().to_base58(),
            message: req.message.clone(),
        },
    )
}

/// Checks a signature against the bytes of a message and a public key.
pub fn verify_message(req: &MessageVerifyRequest) -> (r: Result<MessageVerifyResponse, AppError>)
    ensures
        verify_message_post(*req, r),
{
    validate_not_empty(req.message.as_str(), "message")?;
    validate_not_empty(req.signature.as_str(), "signature")?;
    validate_not_empty(req.pubkey.as_str(), "pubkey")?;
    let key = parse_pubkey(req.pubkey.as_str(), "pubkey")?;
    let bytes = match base64_decode(req.signature.as_str()) {
        Ok(bytes) => bytes,
        Err(_) => {
            return Err(AppError::BadRequest(String::from_str("Invalid signature base64")));
        },
    };
    let signature = match Signature::from_bytes(bytes.as_slice()) {
        Some(signature) => signature,
        None => {
            return Err(AppError::BadRequest(String::from_str("Invalid signature bytes")));
        },
    };
    let valid = verify_signature(&key, req.message.as_str().as_bytes(), &signature);
    Ok(MessageVerifyResponse { valid, message: req.message.clone(), pubkey: req.pubkey.clone() })
}

/// A fresh key pair signs: if `fresh` shows a key pair, a request to sign
/// that carries its secret and a message that is not blank is served, and the
/// response names the public key of `fresh`.
pub proof fn lemma_fresh_keypair_signs(
    fresh: KeypairResponse,
    keypair: Seq<u8>,
    sign_req: MessageSignRequest,
    signed: Result<MessageSignResponse, AppError>,
)
    requires
        valid_keypair_bytes(keypair),
        fresh.shows(keypair),
        sign_req.secret@ == fresh.secret@,
        !blank(sign_req.message@),
        sign_message_post(sign_req, signed),
    ensures
        signed matches Ok(resp) && resp.public_key@ == fresh.pubkey@,
{
    assert(!blank(sign_req.secret@)) by {
        lemma_base58_char_not_whitespace(sign_req.secret@[0]);
    }
    assert(secret_key_failure(sign_req.secret@) is None);
    assert(secret_keypair(sign_req.secret@) == keypair);
}

/// What was signed verifies: if signing `sign_req` gave `signed`, then a
/// request to verify that carries the message, the signature and the public
/// key of `signed` is served, and its answer is that the signature is valid.
///
/// This rests on the promise of the signing primitive that it accepts what
/// it signs, and on those of the encoders that their text is read back as
/// the bytes it was written for.
pub proof fn lemma_signed_message_verifies(
    sign_req: MessageSignRequest,
    signed: MessageSignResponse,
    verify_req: MessageVerifyRequest,
    verified: Result<MessageVerifyResponse, AppError>,
)
    requires
        sign_message_post(sign_req, Ok(signed)),
        verify_req.message@ == signed.message@,
        verify_req.signature@ == signed.signature@,
        verify_req.pubkey@ == signed.public_key@,
        verify_message_post(verify_req, verified),
    ensures
        verified matches Ok(resp) && resp.valid,
{
    let keypair = secret_keypair(sign_req.secret@);
    let message = message_bytes(sign_req.message@);
    let signature = ed25519_signature(keypair, message);
    let public_key = keypair.subrange(32, 64);
    assert(public_key.len() == 32);
    assert(signature.len() == 64);
    assert(!blank(verify_req.signature@)) by {
        lemma_base64_char_not_whitespace(verify_req.signature@[0]);
    }
    assert(!blank(verify_req.pubkey@)) by {
        lemma_base58_char_not_whitespace(verify_req.pubkey@[0]);
    }
    assert(verify_message_failure(verify_req) is None);
}

} // verus!
