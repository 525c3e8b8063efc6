use base64::Engine;
use solana_http_api::error::AppError;
use solana_http_api::handlers::account::create_account;
use solana_http_api::handlers::send::{send_sol, send_token};
use solana_http_api::handlers::token::{create_token, mint_token};
use solana_http_api::instruction::{RENT_SYSVAR_ID, SYSTEM_PROGRAM_ID, TOKEN_PROGRAM_ID};
use solana_http_api::types::{
    AccountMetaResponse, CreateAccountRequest, SendSolRequest, SendSolResponse, SendTokenAccountMeta,
    SendTokenRequest, TokenCreateRequest, TokenMintRequest,
};

const A: &str = "586Z7H2vpX9qNhN2T4e9Utugie3ogjbxzGaMtM3E6HR5";
const B: &str = "9C6hybhQ6Aycep9jaUnP6uL9ZYvDjUp1aSkFWPUFJtpj";
const C: &str = "US517G5965aydkZ46HS38QLi7UQiSojurfbQfKCELFx";
const SYSTEM: &str = "11111111111111111111111111111111";
const TOKEN: &str = "TokenkegQfeZyiNwAJbNbGKPFXCWuBvf9Ss623VQ5DA";
const RENT: &str = "SysvarRent111111111111111111111111111111111";

fn bad(text: &str) -> AppError {
    AppError::BadRequest(text.to_string())
}

fn key(text: &str) -> solana_program::pubkey::Pubkey {
    solana_program::pubkey::Pubkey::try_from(bs58::decode(text).into_vec().unwrap().as_slice())
        .unwrap()
}

fn payload(text: &str) -> Vec<u8> {
    base64::engine::general_purpose::STANDARD.decode(text).unwrap()
}

fn meta(pubkey: &str, is_signer: bool, is_writable: bool) -> AccountMetaResponse {
    AccountMetaResponse { pubkey: pubkey.to_string(), is_signer, is_writable }
}

fn sol(from: &str, to: &str, lamports: u64) -> SendSolRequest {
    SendSolRequest { from: from.to_string(), to: to.to_string(), lamports }
}

fn mint_request(mint: &str, destination: &str, authority: &str, amount: u64) -> TokenMintRequest {
    TokenMintRequest {
        mint: mint.to_string(),
        destination: destination.to_string(),
        authority: authority.to_string(),
        amount,
    }
}

fn token_request(destination: &str, mint: &str, owner: &str, amount: u64) -> SendTokenRequest {
    SendTokenRequest {
        destination: destination.to_string(),
        mint: mint.to_string(),
        owner: owner.to_string(),
        amount,
    }
}

#[test]
fn the_program_addresses_are_the_published_ones() {
    assert_eq!(bs58::encode(SYSTEM_PROGRAM_ID).into_string(), SYSTEM);
    assert_eq!(bs58::encode(TOKEN_PROGRAM_ID).into_string(), TOKEN);
    assert_eq!(bs58::encode(RENT_SYSVAR_ID).into_string(), RENT);
    assert_eq!(spl_token::id().to_bytes(), TOKEN_PROGRAM_ID);
    assert_eq!(solana_program::system_program::id().to_bytes(), SYSTEM_PROGRAM_ID);
    assert_eq!(solana_program::sysvar::rent::id().to_bytes(), RENT_SYSVAR_ID);
}

#[test]
fn send_sol_describes_a_transfer_of_two_accounts() {
    let r = send_sol(&sol(A, B, 100)).unwrap();
    assert_eq!(
        r,
        SendSolResponse {
            program_id: SYSTEM.to_string(),
            accounts: vec![A.to_string(), B.to_string()],
            instruction_data: "AgAAAGQAAAAAAAAA".to_string(),
        }
    );
    assert_eq!(payload(&r.instruction_data), vec![2, 0, 0, 0, 100, 0, 0, 0, 0, 0, 0, 0]);
}

#[test]
fn send_sol_hands_on_the_payload_of_the_encoder() {
    for lamports in [1u64, 255, 256, 1_000_000_007, 9_007_199_254_740_991] {
        let r = send_sol(&sol(A, B, lamports)).unwrap();
        let ix = solana_sdk::system_instruction::transfer(&key(A), &key(B), lamports);
        assert_eq!(payload(&r.instruction_data), ix.data);
        assert_eq!(r.program_id, ix.program_id.to_string());
        assert_eq!(r.accounts, vec![ix.accounts[0].pubkey.to_string(), ix.accounts[1].pubkey.to_string()]);
    }
}

#[test]
fn send_sol_refuses_a_transfer_to_oneself() {
    assert_eq!(send_sol(&sol(A, A, 100)), Err(bad("From and to cannot be the same public key.")));
}

#[test]
fn send_sol_checks_its_fields_in_order() {
    assert_eq!(send_sol(&sol("", "", 0)), Err(bad("Missing required field: from")));
    assert_eq!(send_sol(&sol(A, "", 0)), Err(bad("Missing required field: to")));
    assert_eq!(send_sol(&sol(A, "0OIl", 0)), Err(bad("Invalid base58 for to")));
    assert_eq!(send_sol(&sol(A, A, 0)), Err(bad("From and to cannot be the same public key.")));
    assert_eq!(send_sol(&sol(A, B, 0)), Err(bad("Lamports must be greater than 0")));
    assert_eq!(
        send_sol(&sol(A, B, 9_007_199_254_740_992)),
        Err(bad("Lamports exceeds max safe integer (9007199254740991)."))
    );
    assert_eq!(
        send_sol(&sol("7DUeBUtEcb7nujVZRJmeBju3X1mo6PpnWNtJ9EBhdY", B, 1)),
        Err(bad("Invalid from pubkey length: expected 32 bytes, got 31"))
    );
}

#[test]
fn mint_token_refuses_an_amount_of_zero() {
    assert_eq!(mint_token(&mint_request(A, B, C, 0)), Err(bad("Amount must be greater than 0")));
}

#[test]
fn mint_token_describes_the_mint_instruction() {
    let r = mint_token(&mint_request(A, B, C, 1000)).unwrap();
    assert_eq!(r.program_id, TOKEN);
    assert_eq!(
        r.accounts,
        vec![meta(A, false, true), meta(B, false, true), meta(C, true, false)]
    );
    assert_eq!(r.instruction_data, "B+gDAAAAAAAA");
    assert_eq!(payload(&r.instruction_data), vec![7, 0xe8, 3, 0, 0, 0, 0, 0, 0]);
}

#[test]
fn mint_token_hands_on_the_payload_of_the_encoder() {
    for amount in [1u64, 65_536, 9_007_199_254_740_991] {
        let r = mint_token(&mint_request(A, B, C, amount)).unwrap();
        let ix = spl_token::instruction::mint_to(&spl_token::id(), &key(A), &key(B), &key(C), &[], amount)
            .unwrap();
        assert_eq!(payload(&r.instruction_data), ix.data);
        assert_eq!(r.accounts.len(), ix.accounts.len());
        for (shown, real) in r.accounts.iter().zip(ix.accounts.iter()) {
            assert_eq!(shown.pubkey, real.pubkey.to_string());
            assert_eq!(shown.is_signer, real.is_signer);
            assert_eq!(shown.is_writable, real.is_writable);
        }
    }
}

#[test]
fn mint_token_checks_its_fields_in_order() {
    assert_eq!(mint_token(&mint_request("", "", "", 0)), Err(bad("Missing required field: mint")));
    assert_eq!(
        mint_token(&mint_request(A, "x y", "", 0)),
        Err(bad("Invalid base58 for destination"))
    );
    assert_eq!(
        mint_token(&mint_request(A, B, " ", 0)),
        Err(bad("Missing required field: authority"))
    );
    assert_eq!(
        mint_token(&mint_request(A, B, B, 0)),
        Err(bad("Destination and authority cannot be the same public key."))
    );
    assert_eq!(
        mint_token(&mint_request(A, B, C, u64::MAX)),
        Err(bad("Amount exceeds max safe integer (9007199254740991)."))
    );
    assert!(mint_token(&mint_request(A, A, C, 1)).is_ok());
}

#[test]
fn create_token_describes_the_new_mint() {
    let r = create_token(&TokenCreateRequest {
        mint_authority: A.to_string(),
        mint: B.to_string(),
        decimals: 6,
    })
    .unwrap();
    assert_eq!(r.program_id, TOKEN);
    assert_eq!(r.accounts, vec![meta(B, false, true), meta(RENT, false, false)]);
    assert_eq!(r.instruction_data, "AAY9QBfD6EOJWpK3CqdNG368nJgszy7ElozAzVXxKvRmDAA=");
    let mut expected = vec![0u8, 6];
    expected.extend_from_slice(&bs58::decode(A).into_vec().unwrap());
    expected.push(0);
    assert_eq!(payload(&r.instruction_data), expected);
}

#[test]
fn create_token_hands_on_the_payload_of_the_encoder() {
    for decimals in [0u8, 9, 255] {
        let r = create_token(&TokenCreateRequest {
            mint_authority: A.to_string(),
            mint: A.to_string(),
            decimals,
        })
        .unwrap();
        let ix =
            spl_token::instruction::initialize_mint(&spl_token::id(), &key(A), &key(A), None, decimals)
                .unwrap();
        assert_eq!(payload(&r.instruction_data), ix.data);
        assert_eq!(r.accounts.len(), 2);
        assert_eq!(r.accounts[1].pubkey, ix.accounts[1].pubkey.to_string());
    }
}

#[test]
fn create_token_names_the_field_it_refuses() {
    let request = |authority: &str, mint: &str| TokenCreateRequest {
        mint_authority: authority.to_string(),
        mint: mint.to_string(),
        decimals: 0,
    };
    assert_eq!(
        create_token(&request("", "")),
        Err(bad("Missing required field: mintAuthority"))
    );
    assert_eq!(create_token(&request("0", B)), Err(bad("Invalid base58 for mintAuthority")));
    assert_eq!(create_token(&request(A, "l")), Err(bad("Invalid base58 for mint")));
    assert_eq!(
        create_token(&request(A, "365efUdXGhRExyDEUeKXWPg1zTZyfvuJQJDLsS7JZqzyt")),
        Err(bad("Invalid mint pubkey length: expected 32 bytes, got 33"))
    );
}

#[test]
fn send_token_describes_the_transfer_without_writable_flags() {
    let r = send_token(&token_request(B, A, C, 5)).unwrap();
    assert_eq!(r.program_id, TOKEN);
    assert_eq!(
        r.accounts,
        vec![
            SendTokenAccountMeta { pubkey: A.to_string(), is_signer: false },
            SendTokenAccountMeta { pubkey: B.to_string(), is_signer: false },
            SendTokenAccountMeta { pubkey: C.to_string(), is_signer: true },
        ]
    );
    assert_eq!(r.instruction_data, "AwUAAAAAAAAA");
    let ix =
        spl_token::instruction::transfer(&spl_token::id(), &key(A), &key(B), &key(C), &[], 5).unwrap();
    assert_eq!(payload(&r.instruction_data), ix.data);
}

#[test]
fn send_token_checks_its_fields_in_order() {
    assert_eq!(
        send_token(&token_request("", "", "", 0)),
        Err(bad("Missing required field: destination"))
    );
    assert_eq!(send_token(&token_request(B, "", "", 0)), Err(bad("Missing required field: mint")));
    assert_eq!(send_token(&token_request(B, A, "O", 0)), Err(bad("Invalid base58 for owner")));
    assert_eq!(
        send_token(&token_request(B, A, B, 0)),
        Err(bad("Destination and owner cannot be the same public key."))
    );
    assert_eq!(send_token(&token_request(B, A, C, 0)), Err(bad("Amount must be greater than 0")));
    assert_eq!(
        send_token(&token_request(B, A, C, 9_007_199_254_740_992)),
        Err(bad("Amount exceeds max safe integer (9007199254740991)."))
    );
}

#[test]
fn create_account_describes_the_new_token_account() {
    let r = create_account(&CreateAccountRequest {
        wallet: A.to_string(),
        token_account: B.to_string(),
        mint: C.to_string(),
    })
    .unwrap();
    assert_eq!(r.program_id, TOKEN);
    assert_eq!(
        r.accounts,
        vec![
            meta(B, false, true),
            meta(C, false, false),
            meta(A, false, false),
            meta(RENT, false, false)
        ]
    );
    assert_eq!(r.instruction_data, "AQ==");
    let ix = spl_token::instruction::initialize_account(&spl_token::id(), &key(B), &key(C), &key(A))
        .unwrap();
    assert_eq!(payload(&r.instruction_data), ix.data);
}

#[test]
fn create_account_names_the_field_it_refuses() {
    let request = |wallet: &str, account: &str, mint: &str| CreateAccountRequest {
        wallet: wallet.to_string(),
        token_account: account.to_string(),
        mint: mint.to_string(),
    };
    assert_eq!(create_account(&request("", "", "")), Err(bad("Missing required field: wallet")));
    assert_eq!(
        create_account(&request(A, "I", "")),
        Err(bad("Invalid base58 for token_account"))
    );
    assert_eq!(create_account(&request(A, B, "  ")), Err(bad("Missing required field: mint")));
    assert!(create_account(&request(A, A, A)).is_ok());
}
