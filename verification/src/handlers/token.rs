//! The token program: creating a mint, minting to an account.

use vstd::prelude::*;
use crate::error::{reports, AppError};
use crate::instruction::{
    build_initialize_mint, build_mint_to, program_error_text, token_initialize_mint,
    token_mint_to,
};
use crate::text::join2;
use crate::types::{TokenCreateRequest, TokenCreateResponse, TokenMintRequest, TokenMintResponse};
use crate::utils::{
    amount_failure, first_of, key_bytes, parse_pubkey, pubkey_failure, same_key_failure,
    validate_amount, validate_different_pubkeys,
};

verus! {

/// The body of a request to mint, by the name of its endpoint.
pub type MintTokenRequest = TokenMintRequest;

/// Why the creation of a mint is refused, if it is. The fields are checked
/// in this order: mint authority, mint.
pub open spec fn create_token_failure(req: TokenCreateRequest) -> Option<Seq<char>> {
    first_of(
        pubkey_failure(req.mint_authority@, "mintAuthority"@),
        pubkey_failure(req.mint@, "mint"@),
    )
}

/// Why minting is refused, if it is. The fields are checked in this order:
/// mint, destination, authority, that destination and authority differ, the
/// amount.
pub open spec fn mint_token_failure(req: TokenMintRequest) -> Option<Seq<char>> {
    first_of(
        pubkey_failure(req.mint@, "mint"@),
        first_of(
            pubkey_failure(req.destination@, "destination"@),
            first_of(
                pubkey_failure(req.authority@, "authority"@),
                first_of(
                    same_key_failure(
                        key_bytes(req.destination@),
                        key_bytes(req.authority@),
                        "Destination"@,
                        "authority"@,
                    ),
                    amount_failure(req.amount, "Amount"@),
                ),
            ),
        ),
    )
}

/// Builds the instruction that initializes a mint with the given authority
/// and decimals, and no freeze authority.
pub fn create_token(req: &TokenCreateRequest) -> (r: Result<TokenCreateResponse, AppError>)
    ensures
        reports(r, create_token_failure(*req)),
        r matches Ok(resp) ==> resp.shows(
            token_initialize_mint(
                key_bytes(req.mint@),
                key_bytes(req.mint_authority@),
                req.decimals,
            ),
        ),
{
    let mint_authority = parse_pubkey(req.mint_authority.as_str(), "mintAuthority")?;
    let mint = parse_pubkey(req.mint.as_str(), "mint")?;
    match build_initialize_mint(&mint, &mint_authority, req.decimals) {
        Ok(ix) => Ok(TokenCreateResponse::from_instruction(&ix)),
        Err(e) => Err(
            AppError::BadRequest(
                join2("Failed to create instruction: ", program_error_text(&e).as_str()),
            ),
        ),
    }
}

/// Builds the instruction that mints `amount` tokens of `mint` to
/// `destination` on the word of `authority`.
pub fn mint_token(req: &TokenMintRequest) -> (r: Result<TokenMintResponse, AppError>)
    ensures
        reports(r, mint_token_failure(*req)),
        r matches Ok(resp) ==> resp.shows(
            token_mint_to(
                key_bytes(req.mint@),
                key_bytes(req.destination@),
                key_bytes(req.authority@),
                req.amount,
            ),
        ),
{
    let mint = parse_pubkey(req.mint.as_str(), "mint")?;
    let destination = parse_pubkey(req.destination.as_str(), "destination")?;
    let authority = parse_pubkey(req.authority.as_str(), "authority")?;
    validate_different_pubkeys(&destination, &authority, "Destination", "authority")?;
    validate_amount(req.amount, "Amount")?;
    match build_mint_to(&mint, &destination, &authority, req.amount) {
        Ok(ix) => Ok(TokenMintResponse::from_instruction(&ix)),
        Err(e) => Err(
            AppError::BadRequest(
                join2("Failed to create instruction: ", program_error_text(&e).as_str()),
            ),
        ),
    }
}

} // verus!
