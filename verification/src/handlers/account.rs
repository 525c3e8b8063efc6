//! The token program: initializing a token account.

use vstd::prelude::*;
use crate::error::{reports, AppError};
use crate::instruction::{build_initialize_account, program_error_text, token_initialize_account};
use crate::text::join2;
use crate::types::{CreateAccountRequest, CreateAccountResponse};
use crate::utils::{first_of, key_bytes, parse_pubkey, pubkey_failure};

verus! {

/// Why the creation of a token account is refused, if it is. The fields are
/// checked in this order: wallet, token account, mint.
pub open spec fn create_account_failure(req: CreateAccountRequest) -> Option<Seq<char>> {
    first_of(
        pubkey_failure(req.wallet@, "wallet"@),
        first_of(
            pubkey_failure(req.token_account@, "token_account"@),
            pubkey_failure(req.mint@, "mint"@),
        ),
    )
}

/// Builds the instruction that initializes `token_account` to hold tokens
/// of `mint` for `wallet`.
pub fn create_account(req: &CreateAccountRequest) -> (r: Result<CreateAccountResponse, AppError>)
    ensures
        reports(r, create_account_failure(*req)),
        r matches Ok(resp) ==> resp.shows(
            token_initialize_account(
                key_bytes(req.token_account@),
                key_bytes(req.mint@),
                key_bytes(req.wallet@),
            ),
        ),
{
    let wallet = parse_pubkey(req.wallet.as_str(), "wallet")?;
    let token_account = parse_pubkey(req.token_account.as_str(), "token_account")?;
    let mint = parse_pubkey(req.mint.as_str(), "mint")?;
    match build_initialize_account(&token_account, &mint, &wallet) {
        Ok(ix) => Ok(CreateAccountResponse::from_instruction(&ix)),
        Err(e) => Err(
            AppError::BadRequest(
                join2("Failed to build instruction: ", program_error_text(&e).as_str()),
            ),
        ),
    }
}

} // verus!
