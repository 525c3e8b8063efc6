//! The bodies of requests and responses, and the envelope every response
//! travels in.

use vstd::prelude::*;
use crate::codec::{base58_of, base64_bytes, base64_encode, base64_of};
use crate::error::AppError;
use crate::instruction::{AccountEntry, AccountView, InstructionDescriptor, InstructionView};

verus! {

/// The envelope of every response: a payload on success, a message on
/// failure, never both and never neither.
#[derive(Debug, PartialEq, Eq)]
pub struct ApiResponse<T> {
    pub success: bool,
    pub data: Option<T>,
    pub error: Option<String>,
}

impl<T> ApiResponse<T> {
    /// Exactly one of payload and message is present, and `success` says
    /// which.
    pub open spec fn well_formed(&self) -> bool {
        &&& self.success <==> self.data is Some
        &&& self.success <==> self.error is None
    }

    /// The envelope of a served request.
    pub fn success(data: T) -> (r: Self)
        ensures
            r.success,
            r.data == Some(data),
            r.error is None,
            r.well_formed(),
    {
        Self { success: true, data: Some(data), error: None }
    }

    /// The envelope of a refused request.
    pub fn error(message: String) -> (r: Self)
        ensures
            !r.success,
            r.data is None,
            r.error == Some(message),
            r.well_formed(),
    {
        Self { success: false, data: None, error: Some(message) }
    }

    /// Wraps the outcome of an operation: its payload, or the text of its
    /// error.
    pub fn from_result(result: Result<T, AppError>) -> (r: Self)
        ensures
            r.well_formed(),
            match result {
                Ok(data) => r.success && r.data == Some(data),
                Err(e) => !r.success && (r.error matches Some(m) && m@ == e.message_text()),
            },
    {
        match result {
            Ok(data) => Self::success(data),
            Err(e) => Self::error(e.message()),
        }
    }
}

/// A fresh key pair: the public key and the whole key pair, both in base58.
#[derive(Debug, PartialEq, Eq)]
pub struct KeypairResponse {
    pub pubkey: String,
    pub secret: String,
}

#[derive(Debug, PartialEq, Eq)]
pub struct TokenCreateRequest {
    pub mint_authority: String,
    pub mint: String,
    pub decimals: u8,
}

#[derive(Debug, PartialEq, Eq)]
pub struct TokenCreateResponse {
    pub program_id: String,
    pub accounts: Vec<AccountMetaResponse>,
    pub instruction_data: String,
}

#[derive(Debug, PartialEq, Eq)]
pub struct TokenMintRequest {
    pub mint: String,
    pub destination: String,
    pub authority: String,
    pub amount: u64,
}

#[derive(Debug, PartialEq, Eq)]
pub struct TokenMintResponse {
    pub program_id: String,
    pub accounts: Vec<AccountMetaResponse>,
    pub instruction_data: String,
}

#[derive(Debug, PartialEq, Eq)]
pub struct CreateAccountRequest {
    pub wallet: String,
    pub token_account: String,
    pub mint: String,
}

#[derive(Debug, PartialEq, Eq)]
pub struct CreateAccountResponse {
    pub program_id: String,
    pub accounts: Vec<AccountMetaResponse>,
    pub instruction_data: String,
}

#[derive(Debug, PartialEq, Eq)]
pub struct MessageSignRequest {
    pub message: String,
    pub secret: String,
}

#[derive(Debug, PartialEq, Eq)]
pub struct MessageSignResponse {
    /// The signature in base64.
    pub signature: String,
    /// The signer's public key in base58.
    pub public_key: String,
    pub message: String,
}

#[derive(Debug, PartialEq, Eq)]
pub struct MessageVerifyRequest {
    pub message: String,
    /// The signature in base64.
    pub signature: String,
    /// The signer's public key in base58.
    pub pubkey: String,
}

#[derive(Debug, PartialEq, Eq)]
pub struct MessageVerifyResponse {
    pub valid: bool,
    pub message: String,
    pub pubkey: String,
}

#[derive(Debug, PartialEq, Eq)]
pub struct SendSolRequest {
    pub from: String,
    pub to: String,
    pub lamports: u64,
}

#[derive(Debug, PartialEq, Eq)]
pub struct SendSolResponse {
    pub program_id: String,
    pub accounts: Vec<String>,
    pub instruction_data: String,
}

#[derive(Debug, PartialEq, Eq)]
pub struct SendTokenRequest {
    pub destination: String,
    pub mint: String,
    pub owner: String,
    pub amount: u64,
}

#[derive(Debug, PartialEq, Eq)]
pub struct SendTokenResponse {
    pub program_id: String,
    pub accounts: Vec<SendTokenAccountMeta>,
    pub instruction_data: String,
}

/// An account of a token transfer; the encoding of that response does not
/// carry the writable flag.
#[derive(Debug, PartialEq, Eq)]
pub struct SendTokenAccountMeta {
    pub pubkey: String,
    pub is_signer: bool,
}

/// An account of an instruction, as it is shown to callers.
#[derive(Debug, PartialEq, Eq)]
pub struct AccountMetaResponse {
    pub pubkey: String,
    pub is_signer: bool,
    pub is_writable: bool,
}

impl AccountMetaResponse {
    /// Whether this shows `entry`: its key in base58 and both flags.
    pub open spec fn shows(&self, entry: AccountView) -> bool {
        &&& base58_of(self.pubkey@, entry.pubkey)
        &&& self.is_signer == entry.is_signer
        &&& self.is_writable == entry.is_writable
    }

    pub fn from_entry(entry: &AccountEntry) -> (meta: AccountMetaResponse)
        ensures
            meta.shows(entry@),
    {
        AccountMetaResponse {
            pubkey: entry.pubkey.to_base58(),
            is_signer: entry.is_signer,
            is_writable: entry.is_writable,
        }
    }
}

impl SendTokenAccountMeta {
    /// Whether this shows `entry`: its key in base58 and the signer flag.
    pub open spec fn shows(&self, entry: AccountView) -> bool {
        &&& base58_of(self.pubkey@, entry.pubkey)
        &&& self.is_signer == entry.is_signer
    }

    pub fn from_entry(entry: &AccountEntry) -> (meta: SendTokenAccountMeta)
        ensures
            meta.shows(entry@),
    {
        SendTokenAccountMeta { pubkey: entry.pubkey.to_base58(), is_signer: entry.is_signer }
    }
}

/// Whether `metas` shows `entries`, one for one and in the same order.
pub open spec fn metas_show(metas: Seq<AccountMetaResponse>, entries: Seq<AccountView>) -> bool {
    &&& metas.len() == entries.len()
    &&& forall|i: int| 0 <= i < metas.len() ==> (#[trigger] metas[i]).shows(entries[i])
}

/// Whether `metas` shows `entries` without the writable flag, one for one
/// and in the same order.
pub open spec fn signer_metas_show(
    metas: Seq<SendTokenAccountMeta>,
    entries: Seq<AccountView>,
) -> bool {
    &&& metas.len() == entries.len()
    &&& forall|i: int| 0 <= i < metas.len() ==> (#[trigger] metas[i]).shows(entries[i])
}

/// Whether `keys` holds the keys of `entries` in base58, one for one and in
/// the same order.
pub open spec fn keys_show(keys: Seq<String>, entries: Seq<AccountView>) -> bool {
    &&& keys.len() == entries.len()
    &&& forall|i: int| 0 <= i < keys.len() ==> base58_of((#[trigger] keys[i])@, entries[i].pubkey)
}

/// The payload survives the response: from the text that shows it, the
/// decoder reads exactly the bytes of the payload.
pub proof fn lemma_payload_round_trip(text: Seq<char>, data: Seq<u8>)
    requires
        base64_of(text, data),
    ensures
        base64_bytes(text) == Some(data),
{
}

/// What is sent for a refused request: the status, and the envelope with
/// the text of the error.
pub fn error_response(e: &AppError) -> (r: (u16, ApiResponse<()>))
    ensures
        r.0 == e.status(),
        r.1.well_formed(),
        !r.1.success,
        r.1.error matches Some(m) && m@ == e.message_text(),
{
    (e.status_code(), ApiResponse::error(e.message()))
}

/// The accounts of an instruction with both flags, in order.
pub fn account_metas(accounts: &Vec<AccountEntry>) -> (metas: Vec<AccountMetaResponse>)
    ensures
        metas_show(metas@, accounts@.map_values(|entry: AccountEntry| entry@)),
{
    let mut metas: Vec<AccountMetaResponse> = Vec::new();
    let mut i: usize = 0;
    while i < accounts.len()
        invariant
            i <= accounts.len(),
            metas@.len() == i,
            forall|j: int| 0 <= j < i ==> (#[trigger] metas@[j]).shows(accounts@[j]@),
        decreases accounts.len() - i,
    {
        metas.push(AccountMetaResponse::from_entry(&accounts[i]));
        i += 1;
    }
    metas
}

/// The accounts of an instruction with the signer flag, in order.
pub fn signer_metas(accounts: &Vec<AccountEntry>) -> (metas: Vec<SendTokenAccountMeta>)
    ensures
        signer_metas_show(metas@, accounts@.map_values(|entry: AccountEntry| entry@)),
{
    let mut metas: Vec<SendTokenAccountMeta> = Vec::new();
    let mut i: usize = 0;
    while i < accounts.len()
        invariant
            i <= accounts.len(),
            metas@.len() == i,
            forall|j: int| 0 <= j < i ==> (#[trigger] metas@[j]).shows(accounts@[j]@),
        decreases accounts.len() - i,
    {
        metas.push(SendTokenAccountMeta::from_entry(&accounts[i]));
        i += 1;
    }
    metas
}

/// The keys of the accounts of an instruction in base58, in order.
pub fn account_keys(accounts: &Vec<AccountEntry>) -> (keys: Vec<String>)
    ensures
        keys_show(keys@, accounts@.map_values(|entry: AccountEntry| entry@)),
{
    let mut keys: Vec<String> = Vec::new();
    let mut i: usize = 0;
    while i < accounts.len()
        invariant
            i <= accounts.len(),
            keys@.len() == i,
            forall|j: int| 0 <= j < i ==> base58_of((#[trigger] keys@[j])@, accounts@[j].pubkey@),
        decreases accounts.len() - i,
    {
        keys.push(accounts[i].pubkey.to_base58());
        i += 1;
    }
    keys
}

impl TokenCreateResponse {
    /// Whether this shows `ix`: program, accounts in order, payload in
    /// base64.
    pub open spec fn shows(&self, ix: InstructionView) -> bool {
        &&& base58_of(self.program_id@, ix.program_id)
        &&& metas_show(self.accounts@, ix.accounts)
        &&& base64_of(self.instruction_data@, ix.data)
    }

    pub fn from_instruction(ix: &InstructionDescriptor) -> (r: Self)
        ensures
            r.shows(ix@),
    {
        Self {
            program_id: ix.program_id.to_base58(),
            accounts: account_metas(&ix.accounts),
            instruction_data: base64_encode(ix.data.as_slice()),
        }
    }
}

impl TokenMintResponse {
    /// Whether this shows `ix`: program, accounts in order, payload in
    /// base64.
    pub open spec fn shows(&self, ix: InstructionView) -> bool {
        &&& base58_of(self.program_id@, ix.program_id)
        &&& metas_show(self.accounts@, ix.accounts)
        &&& base64_of(self.instruction_data@, ix.data)
    }

    pub fn from_instruction(ix: &InstructionDescriptor) -> (r: Self)
        ensures
            r.shows(ix@),
    {
        Self {
            program_id: ix.program_id.to_base58(),
            accounts: account_metas(&ix.accounts),
            instruction_data: base64_encode(ix.data.as_slice()),
        }
    }
}

impl CreateAccountResponse {
    /// Whether this shows `ix`: program, accounts in order, payload in
    /// base64.
    pub open spec fn shows(&self, ix: InstructionView) -> bool {
        &&& base58_of(self.program_id@, ix.program_id)
        &&& metas_show(self.accounts@, ix.accounts)
        &&& base64_of(self.instruction_data@, ix.data)
    }

    pub fn from_instruction(ix: &InstructionDescriptor) -> (r: Self)
        ensures
            r.shows(ix@),
    {
        Self {
            program_id: ix.program_id.to_base58(),
            accounts: account_metas(&ix.accounts),
            instruction_data: base64_encode(ix.data.as_slice()),
        }
    }
}

impl SendSolResponse {
    /// Whether this shows `ix`: program, the keys of the accounts in order,
    /// payload in base64.
    pub open spec fn shows(&self, ix: InstructionView) -> bool {
        &&& base58_of(self.program_id@, ix.program_id)
        &&& keys_show(self.accounts@, ix.accounts)
        &&& base64_of(self.instruction_data@, ix.data)
    }

    pub fn from_instruction(ix: &InstructionDescriptor) -> (r: Self)
        ensures
            r.shows(ix@),
    {
        Self {
            program_id: ix.program_id.to_base58(),
            accounts: account_keys(&ix.accounts),
            instruction_data: base64_encode(ix.data.as_slice()),
        }
    }
}

impl SendTokenResponse {
    /// Whether this shows `ix`: program, accounts in order with the signer
    /// flag, payload in base64.
    pub open spec fn shows(&self, ix: InstructionView) -> bool {
        &&& base58_of(self.program_id@, ix.program_id)
        &&& signer_metas_show(self.accounts@, ix.accounts)
        &&& base64_of(self.instruction_data@, ix.data)
    }

    pub fn from_instruction(ix: &InstructionDescriptor) -> (r: Self)
        ensures
            r.shows(ix@),
    {
        Self {
            program_id: ix.program_id.to_base58(),
            accounts: signer_metas(&ix.accounts),
            instruction_data: base64_encode(ix.data.as_slice()),
        }
    }
}

} // verus!
