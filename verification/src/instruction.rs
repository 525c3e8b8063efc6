//! Unsigned instructions: which program runs, on which accounts, with which
//! payload.
//!
//! The instructions are built by `solana_sdk` (the system program's
//! transfer) and `spl_token` (the token program). Each builder here makes one
//! call into them and copies the result into `InstructionDescriptor`.

use vstd::prelude::*;
use vstd::bytes::spec_u64_to_le_bytes;
use solana_program::pubkey::Pubkey as SolanaPubkey;
use crate::pubkey::Pubkey;

verus! {

#[verifier::external_type_specification]
#[verifier::external_body]
pub struct ExProgramError(solana_program::program_error::ProgramError);

/// The address of the system program, `11111111111111111111111111111111`.
pub const SYSTEM_PROGRAM_ID: [u8; 32] = [
    0, 0, 0, 0, 0, 0, 0, 0, 0, 0, 0, 0, 0, 0, 0, 0,
    0, 0, 0, 0, 0, 0, 0, 0, 0, 0, 0, 0, 0, 0, 0, 0,
];

/// The address of the token program,
/// `TokenkegQfeZyiNwAJbNbGKPFXCWuBvf9Ss623VQ5DA`.
pub const TOKEN_PROGRAM_ID: [u8; 32] = [
    6, 221, 246, 225, 215, 101, 161, 147, 217, 203, 225, 70, 206, 235, 121, 172,
    28, 180, 133, 237, 95, 91, 55, 145, 58, 140, 245, 133, 126, 255, 0, 169,
];

/// The address of the rent sysvar,
/// `SysvarRent111111111111111111111111111111111`.
pub const RENT_SYSVAR_ID: [u8; 32] = [
    6, 167, 213, 23, 25, 44, 92, 81, 33, 140, 201, 76, 61, 74, 241, 127,
    88, 218, 238, 8, 155, 161, 253, 68, 227, 219, 217, 138, 0, 0, 0, 0,
];

/// One account of an instruction.
#[derive(Debug, Clone, Copy, PartialEq, Eq)]
pub struct AccountEntry {
    pub pubkey: Pubkey,
    /// Whether the transaction must carry this account's signature.
    pub is_signer: bool,
    /// Whether the program may change the account.
    pub is_writable: bool,
}

/// An instruction that nobody has signed or sent. The order of the accounts
/// is the program's and is kept; the payload is the program's and is kept
/// byte for byte.
#[derive(Debug, PartialEq, Eq)]
pub struct InstructionDescriptor {
    pub program_id: Pubkey,
    pub accounts: Vec<AccountEntry>,
    pub data: Vec<u8>,
}

/// What an account entry holds.
pub struct AccountView {
    pub pubkey: Seq<u8>,
    pub is_signer: bool,
    pub is_writable: bool,
}

/// What an instruction holds.
pub struct InstructionView {
    pub program_id: Seq<u8>,
    pub accounts: Seq<AccountView>,
    pub data: Seq<u8>,
}

impl View for AccountEntry {
    type V = AccountView;

    open spec fn view(&self) -> AccountView {
        AccountView {
            pubkey: self.pubkey@,
            is_signer: self.is_signer,
            is_writable: self.is_writable,
        }
    }
}

impl View for InstructionDescriptor {
    type V = InstructionView;

    open spec fn view(&self) -> InstructionView {
        InstructionView {
            program_id: self.program_id@,
            accounts: self.accounts@.map_values(|entry: AccountEntry| entry@),
            data: self.data@,
        }
    }
}

impl AccountEntry {
    /// The entry of the account with these key bytes.
    pub fn new(bytes: [u8; 32], is_signer: bool, is_writable: bool) -> (entry: AccountEntry)
        ensures
            entry == (AccountEntry { pubkey: Pubkey { bytes }, is_signer, is_writable }),
    {
        AccountEntry { pubkey: Pubkey { bytes }, is_signer, is_writable }
    }
}

impl InstructionDescriptor {
    /// The instruction for the program with these key bytes.
    pub fn new(program_id: [u8; 32], accounts: Vec<AccountEntry>, data: Vec<u8>) -> (ix:
        InstructionDescriptor)
        ensures
            ix@ == (InstructionView {
                program_id: program_id@,
                accounts: accounts@.map_values(|entry: AccountEntry| entry@),
                data: data@,
            }),
    {
        InstructionDescriptor { program_id: Pubkey { bytes: program_id }, accounts, data }
    }
}

/// An account the program may change.
pub open spec fn writable(pubkey: Seq<u8>, is_signer: bool) -> AccountView {
    AccountView { pubkey, is_signer, is_writable: true }
}

/// An account the program only reads.
pub open spec fn readonly(pubkey: Seq<u8>, is_signer: bool) -> AccountView {
    AccountView { pubkey, is_signer, is_writable: false }
}

/// The payload of the system program's transfer of `lamports`.
pub uninterp spec fn system_transfer_data(lamports: u64) -> Seq<u8>;

/// The system program's transfer of `lamports` from `from` to `to`: the
/// payer signs, both accounts change.
pub open spec fn system_transfer(from: Seq<u8>, to: Seq<u8>, lamports: u64) -> InstructionView {
    InstructionView {
        program_id: SYSTEM_PROGRAM_ID@,
        accounts: seq![writable(from, true), writable(to, false)],
        data: system_transfer_data(lamports),
    }
}

/// The token program's `InitializeMint` without a freeze authority: tag 0,
/// the decimals, the mint authority, and 0 for the absent freeze authority.
pub open spec fn token_initialize_mint(
    mint: Seq<u8>,
    mint_authority: Seq<u8>,
    decimals: u8,
) -> InstructionView {
    InstructionView {
        program_id: TOKEN_PROGRAM_ID@,
        accounts: seq![writable(mint, false), readonly(RENT_SYSVAR_ID@, false)],
        data: seq![0u8, decimals] + mint_authority + seq![0u8],
    }
}

/// The token program's `InitializeAccount`: tag 1.
pub open spec fn token_initialize_account(
    account: Seq<u8>,
    mint: Seq<u8>,
    owner: Seq<u8>,
) -> InstructionView {
    InstructionView {
        program_id: TOKEN_PROGRAM_ID@,
        accounts: seq![
            writable(account, false),
            readonly(mint, false),
            readonly(owner, false),
            readonly(RENT_SYSVAR_ID@, false),
        ],
        data: seq![1u8],
    }
}

/// The token program's `Transfer` signed by the authority alone: tag 3 and
/// the amount, low byte first.
pub open spec fn token_transfer(
    source: Seq<u8>,
    destination: Seq<u8>,
    authority: Seq<u8>,
    amount: u64,
) -> InstructionView {
    InstructionView {
        program_id: TOKEN_PROGRAM_ID@,
        accounts: seq![
            writable(source, false),
            writable(destination, false),
            readonly(authority, true),
        ],
        data: seq![3u8] + spec_u64_to_le_bytes(amount),
    }
}

/// The token program's `MintTo` signed by the authority alone: tag 7 and
/// the amount, low byte first.
pub open spec fn token_mint_to(
    mint: Seq<u8>,
    account: Seq<u8>,
    authority: Seq<u8>,
    amount: u64,
) -> InstructionView {
    InstructionView {
        program_id: TOKEN_PROGRAM_ID@,
        accounts: seq![
            writable(mint, false),
            writable(account, false),
            readonly(authority, true),
        ],
        data: seq![7u8] + spec_u64_to_le_bytes(amount),
    }
}

/// `system_instruction::transfer` of `solana_sdk`.
///
/// Trusted: the instruction is for the system program, on the payer (signer,
/// writable) and the recipient (writable), and its payload is the one named
/// `system_transfer_data`, which depends on the amount alone.
#[verifier::external_body]
pub(crate) fn build_system_transfer(from: &Pubkey, to: &Pubkey, lamports: u64) -> (ix:
    InstructionDescriptor)
    ensures
        ix@.program_id == SYSTEM_PROGRAM_ID@,
        ix@.accounts == seq![writable(from@, true), writable(to@, false)],
        ix@.data == system_transfer_data(lamports),
{
    let ix = solana_sdk::system_instruction::transfer(
        &SolanaPubkey::from(from.bytes),
        &SolanaPubkey::from(to.bytes),
        lamports,
    );
    let accounts = ix.accounts.iter().map(
        |a| AccountEntry::new(a.pubkey.to_bytes(), a.is_signer, a.is_writable),
    ).collect();
    InstructionDescriptor::new(ix.program_id.to_bytes(), accounts, ix.data)
}

/// `initialize_mint` of `spl_token::instruction`, for the token program
/// `spl_token::id()` and without a freeze authority.
///
/// Trusted: it does not fail for that program, and the instruction is the
/// one that `token_initialize_mint` writes out.
#[verifier::external_body]
pub(crate) fn build_initialize_mint(mint: &Pubkey, mint_authority: &Pubkey, decimals: u8) -> (r:
    Result<InstructionDescriptor, solana_program::program_error::ProgramError>)
    ensures
        r is Ok,
        r matches Ok(ix) ==> ix@ == token_initialize_mint(mint@, mint_authority@, decimals),
{
    let ix = spl_token::instruction::initialize_mint(
        &spl_token::id(),
        &SolanaPubkey::from(mint.bytes),
        &SolanaPubkey::from(mint_authority.bytes),
        None,
        decimals,
    )?;
    let accounts = ix.accounts.iter().map(
        |a| AccountEntry::new(a.pubkey.to_bytes(), a.is_signer, a.is_writable),
    ).collect();
    Ok(InstructionDescriptor::new(ix.program_id.to_bytes(), accounts, ix.data))
}

/// `initialize_account` of `spl_token::instruction`, for the token program
/// `spl_token::id()`.
///
/// Trusted: it does not fail for that program, and the instruction is the
/// one that `token_initialize_account` writes out.
#[verifier::external_body]
pub(crate) fn build_initialize_account(account: &Pubkey, mint: &Pubkey, owner: &Pubkey) -> (r:
    Result<InstructionDescriptor, solana_program::program_error::ProgramError>)
    ensures
        r is Ok,
        r matches Ok(ix) ==> ix@ == token_initialize_account(account@, mint@, owner@),
{
    let ix = spl_token::instruction::initialize_account(
        &spl_token::id(),
        &SolanaPubkey::from(account.bytes),
        &SolanaPubkey::from(mint.bytes),
        &SolanaPubkey::from(owner.bytes),
    )?;
    let accounts = ix.accounts.iter().map(
        |a| AccountEntry::new(a.pubkey.to_bytes(), a.is_signer, a.is_writable),
    ).collect();
    Ok(InstructionDescriptor::new(ix.program_id.to_bytes(), accounts, ix.data))
}

/// `transfer` of `spl_token::instruction`, for the token program
/// `spl_token::id()` and no further signers.
///
/// Trusted: it does not fail for that program, and the instruction is the
/// one that `token_transfer` writes out.
#[verifier::external_body]
pub(crate) fn build_token_transfer(
    source: &Pubkey,
    destination: &Pubkey,
    authority: &Pubkey,
    amount: u64,
) -> (r: Result<InstructionDescriptor, solana_program::program_error::ProgramError>)
    ensures
        r is Ok,
        r matches Ok(ix) ==> ix@ == token_transfer(source@, destination@, authority@, amount),
{
    let ix = spl_token::instruction::transfer(
        &spl_token::id(),
        &SolanaPubkey::from(source.bytes),
        &SolanaPubkey::from(destination.bytes),
        &SolanaPubkey::from(authority.bytes),
        &[],
        amount,
    )?;
    let accounts = ix.accounts.iter().map(
        |a| AccountEntry::new(a.pubkey.to_bytes(), a.is_signer, a.is_writable),
    ).collect();
    Ok(InstructionDescriptor::new(ix.program_id.to_bytes(), accounts, ix.data))
}

/// `mint_to` of `spl_token::instruction`, for the token program
/// `spl_token::id()` and no further signers.
///
/// Trusted: it does not fail for that program, and the instruction is the
/// one that `token_mint_to` writes out.
#[verifier::external_body]
pub(crate) fn build_mint_to(mint: &Pubkey, account: &Pubkey, authority: &Pubkey, amount: u64) -> (r:
    Result<InstructionDescriptor, solana_program::program_error::ProgramError>)
    ensures
        r is Ok,
        r matches Ok(ix) ==> ix@ == token_mint_to(mint@, account@, authority@, amount),
{
    let ix = spl_token::instruction::mint_to(
        &spl_token::id(),
        &SolanaPubkey::from(mint.bytes),
        &SolanaPubkey::from(account.bytes),
        &SolanaPubkey::from(authority.bytes),
        &[],
        amount,
    )?;
    let accounts = ix.accounts.iter().map(
        |a| AccountEntry::new(a.pubkey.to_bytes(), a.is_signer, a.is_writable),
    ).collect();
    Ok(InstructionDescriptor::new(ix.program_id.to_bytes(), accounts, ix.data))
}

/// What the instruction builder said of a combination it refused.
#[verifier::external_body]
pub(crate) fn program_error_text(e: &solana_program::program_error::ProgramError) -> (text: String) {
    e.to_string()
}

} // verus!
