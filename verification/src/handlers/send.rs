//! Transfers: of lamports by the system program, of tokens by the token
//! program.

use vstd::prelude::*;
use crate::error::{reports, AppError};
use crate::instruction::{
    build_system_transfer, build_token_transfer, program_error_text, system_transfer,
    token_transfer,
};
use crate::text::join2;
use crate::types::{SendSolRequest, SendSolResponse, SendTokenRequest, SendTokenResponse};
use crate::utils::{
    amount_failure, first_of, key_bytes, parse_pubkey, pubkey_failure, same_key_failure,
    validate_amount, validate_different_pubkeys,
};

verus! {

/// Why a transfer of lamports is refused, if it is. The fields are checked
/// in this order: payer, recipient, that the two differ, the amount.
pub open spec fn send_sol_failure(req: SendSolRequest) -> Option<Seq<char>> {
    first_of(
        pubkey_failure(req.from@, "from"@),
        first_of(
            pubkey_failure(req.to@, "to"@),
            first_of(
                same_key_failure(key_bytes(req.from@), key_bytes(req.to@), "From"@, "to"@),
                amount_failure(req.lamports, "Lamports"@),
            ),
        ),
    )
}

/// Why a transfer of tokens is refused, if it is. The fields are checked in
/// this order: destination, mint, owner, that destination and owner differ,
/// the amount.
pub open spec fn send_token_failure(req: SendTokenRequest) -> Option<Seq<char>> {
    first_of(
        pubkey_failure(req.destination@, "destination"@),
        first_of(
            pubkey_failure(req.mint@, "mint"@),
            first_of(
                pubkey_failure(req.owner@, "owner"@),
                first_of(
                    same_key_failure(
                        key_bytes(req.destination@),
                        key_bytes(req.owner@),
                        "Destination"@,
                        "owner"@,
                    ),
                    amount_failure(req.amount, "Amount"@),
                ),
            ),
        ),
    )
}

/// Builds the instruction that moves lamports from one account to another.
pub fn send_sol(req: &SendSolRequest) -> (r: Result<SendSolResponse, AppError>)
    ensures
        reports(r, send_sol_failure(*req)),
        r matches Ok(resp) ==> resp.shows(
            system_transfer(key_bytes(req.from@), key_bytes(req.to@), req.lamports),
        ),
{
    let from = parse_pubkey(req.from.as_str(), "from")?;
    let to = parse_pubkey(req.to.as_str(), "to")?;
    validate_different_pubkeys(&from, &to, "From", "to")?;
    validate_amount(req.lamports, "Lamports")?;
    let ix = build_system_transfer(&from, &to, req.lamports);
    Ok(SendSolResponse::from_instruction(&ix))
}

/// Builds the instruction that moves tokens to `destination` on the word of
/// `owner`. The account named `mint` is the one the tokens leave.
pub fn send_token(req: &SendTokenRequest) -> (r: Result<SendTokenResponse, AppError>)
    ensures
        reports(r, send_token_failure(*req)),
        r matches Ok(resp) ==> resp.shows(
            token_transfer(
                key_bytes(req.mint@),
                key_bytes(req.destination@),
                key_bytes(req.owner@),
                req.amount,
            ),
        ),
{
    let destination = parse_pubkey(req.destination.as_str(), "destination")?;
    let mint = parse_pubkey(req.mint.as_str(), "mint")?;
    let owner = parse_pubkey(req.owner.as_str(), "owner")?;
    validate_different_pubkeys(&destination, &owner, "Destination", "owner")?;
    validate_amount(req.amount, "Amount")?;
    match build_token_transfer(&mint, &destination, &owner, req.amount) {
        Ok(ix) => Ok(SendTokenResponse::from_instruction(&ix)),
        Err(e) => Err(
            AppError::BadRequest(
                join2("Failed to create instruction: ", program_error_text(&e).as_str()),
            ),
        ),
    }
}

} // verus!
