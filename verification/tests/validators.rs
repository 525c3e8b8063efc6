use solana_http_api::config::MAX_SAFE_INTEGER;
use solana_http_api::error::AppError;
use solana_http_api::pubkey::Pubkey;
use solana_http_api::text::{char_is_whitespace, is_blank};
use solana_http_api::utils::{
    parse_pubkey, parse_secret_key, validate_amount, validate_different_pubkeys,
    validate_not_empty,
};

const KEYPAIR: &str =
    "2Y4QjyJVZf9tTmTPP1SY9ACpFYTo7brW9iCQ8SunQht5yQ2r1U9KsVv5aMsCGnzj3NR8KG9P3NY7FKBiYbbTJ2no";
const SEED: &str = "6AoKS5iPKnvmJrknxwLPvHMcMR8jPxQVqT5wbrUnJNQz";
const PUBLIC: &str = "586Z7H2vpX9qNhN2T4e9Utugie3ogjbxzGaMtM3E6HR5";

fn bad(text: &str) -> AppError {
    AppError::BadRequest(text.to_string())
}

#[test]
fn not_empty_refuses_the_empty_text() {
    assert_eq!(validate_not_empty("", "message"), Err(bad("Missing required field: message")));
}

#[test]
fn not_empty_refuses_white_space_of_any_kind() {
    assert_eq!(validate_not_empty("   ", "secret"), Err(bad("Missing required field: secret")));
    assert_eq!(
        validate_not_empty("\t\r\n\u{0b}\u{0c}\u{85}\u{a0}\u{1680}\u{2003}\u{2028}\u{3000}", "f"),
        Err(bad("Missing required field: f"))
    );
}

#[test]
fn not_empty_accepts_text_around_white_space() {
    assert_eq!(validate_not_empty("a", "f"), Ok(()));
    assert_eq!(validate_not_empty("  a  ", "f"), Ok(()));
    assert_eq!(validate_not_empty(" \u{200b} ", "f"), Ok(()));
}

#[test]
fn white_space_is_what_trimming_removes() {
    for n in 0u32..=0x10FFFF {
        if let Some(c) = char::from_u32(n) {
            assert_eq!(char_is_whitespace(c), c.is_whitespace(), "U+{:04X}", n);
        }
    }
}

#[test]
fn blank_agrees_with_trimming() {
    for s in ["", " ", "x", " x", "x ", "\n\t", "\u{2009}\u{202f}\u{205f}", "\u{180e}", "é "] {
        assert_eq!(is_blank(s), s.trim().is_empty(), "{:?}", s);
    }
}

#[test]
fn parse_pubkey_reads_thirty_two_bytes() {
    let key = parse_pubkey(PUBLIC, "pubkey").unwrap();
    assert_eq!(key.bytes.to_vec(), bs58::decode(PUBLIC).into_vec().unwrap());
    assert_eq!(key.bytes[0], 0x3d);
    assert_eq!(key.bytes[31], 0x0c);
    assert_eq!(key.to_base58(), PUBLIC);
}

#[test]
fn parse_pubkey_reads_the_system_program() {
    let key = parse_pubkey("11111111111111111111111111111111", "to").unwrap();
    assert_eq!(key, Pubkey { bytes: [0u8; 32] });
}

#[test]
fn parse_pubkey_refuses_thirty_one_bytes() {
    let text = bs58::encode([7u8; 31]).into_string();
    assert_eq!(text, "7DUeBUtEcb7nujVZRJmeBju3X1mo6PpnWNtJ9EBhdY");
    assert_eq!(
        parse_pubkey(&text, "mint"),
        Err(bad("Invalid mint pubkey length: expected 32 bytes, got 31"))
    );
}

#[test]
fn parse_pubkey_refuses_thirty_three_bytes() {
    let text = bs58::encode([7u8; 33]).into_string();
    assert_eq!(
        parse_pubkey(&text, "mint"),
        Err(bad("Invalid mint pubkey length: expected 32 bytes, got 33"))
    );
}

#[test]
fn parse_pubkey_refuses_a_key_pair() {
    assert_eq!(
        parse_pubkey(KEYPAIR, "owner"),
        Err(bad("Invalid owner pubkey length: expected 32 bytes, got 64"))
    );
}

#[test]
fn parse_pubkey_refuses_blank_text() {
    assert_eq!(parse_pubkey("", "from"), Err(bad("Missing required field: from")));
    assert_eq!(parse_pubkey(" \n", "from"), Err(bad("Missing required field: from")));
}

#[test]
fn parse_pubkey_refuses_what_is_not_base58() {
    assert_eq!(parse_pubkey("0OIl", "from"), Err(bad("Invalid base58 for from")));
    assert_eq!(
        parse_pubkey(" 586Z7H2vpX9qNhN2T4e9Utugie3ogjbxzGaMtM3E6HR5", "from"),
        Err(bad("Invalid base58 for from"))
    );
}

#[test]
fn parse_secret_key_takes_a_key_pair_as_it_is() {
    let keypair = parse_secret_key(KEYPAIR).unwrap();
    assert_eq!(keypair.to_bytes(), bs58::decode(KEYPAIR).into_vec().unwrap());
    assert_eq!(keypair.public_key().to_base58(), PUBLIC);
}

#[test]
fn parse_secret_key_expands_a_seed() {
    let keypair = parse_secret_key(SEED).unwrap();
    assert_eq!(keypair.to_bytes(), bs58::decode(KEYPAIR).into_vec().unwrap());
    assert_eq!(keypair.public_key().to_base58(), PUBLIC);
}

#[test]
fn seed_expansion_is_the_same_every_time() {
    for seed in [[0u8; 32], [0xffu8; 32], [0x5au8; 32]] {
        let text = bs58::encode(seed).into_string();
        let first = parse_secret_key(&text).unwrap();
        let second = parse_secret_key(&text).unwrap();
        assert_eq!(first.public_key().to_base58(), second.public_key().to_base58());
        assert_eq!(first.to_bytes(), second.to_bytes());
        assert_eq!(&first.to_bytes()[..32], &seed[..]);
        let expected = ed25519_dalek::PublicKey::from(
            &ed25519_dalek::SecretKey::from_bytes(&seed).unwrap(),
        );
        assert_eq!(first.public_key().bytes, expected.to_bytes());
    }
}

#[test]
fn parse_secret_key_refuses_halves_that_do_not_belong_together() {
    let text =
        "2Y4QjyJVZf9tTmTPP1SY9ACpFYTo7brW9iCQ8SunQht63U2zsnoo99jrrUeuQD8xfNqbAB1o67k9qVMcAe2UWeCT";
    assert_eq!(parse_secret_key(text).err(), Some(bad("Invalid secret key bytes")));
    let zeros = bs58::encode([0u8; 64]).into_string();
    assert_eq!(parse_secret_key(&zeros).err(), Some(bad("Invalid secret key bytes")));
}

#[test]
fn parse_secret_key_refuses_other_lengths() {
    let text = bs58::encode([9u8; 48]).into_string();
    assert_eq!(
        parse_secret_key(&text).err(),
        Some(bad("Invalid secret key length: expected 32 or 64 bytes, got 48"))
    );
    let one = bs58::encode([9u8; 1]).into_string();
    assert_eq!(
        parse_secret_key(&one).err(),
        Some(bad("Invalid secret key length: expected 32 or 64 bytes, got 1"))
    );
}

#[test]
fn parse_secret_key_refuses_blank_text_and_bad_base58() {
    assert_eq!(parse_secret_key("").err(), Some(bad("Missing required field: secret")));
    assert_eq!(parse_secret_key("  ").err(), Some(bad("Missing required field: secret")));
    assert_eq!(parse_secret_key("not base58!").err(), Some(bad("Invalid base58 for secret")));
}

#[test]
fn validate_amount_refuses_zero() {
    assert_eq!(validate_amount(0, "Amount"), Err(bad("Amount must be greater than 0")));
    assert_eq!(validate_amount(0, "Lamports"), Err(bad("Lamports must be greater than 0")));
}

#[test]
fn validate_amount_refuses_more_than_the_ceiling() {
    assert_eq!(MAX_SAFE_INTEGER, 9_007_199_254_740_991);
    assert_eq!(
        validate_amount(9_007_199_254_740_992, "Amount"),
        Err(bad("Amount exceeds max safe integer (9007199254740991)."))
    );
    assert_eq!(
        validate_amount(u64::MAX, "Lamports"),
        Err(bad("Lamports exceeds max safe integer (9007199254740991)."))
    );
}

#[test]
fn validate_amount_accepts_one_and_the_ceiling() {
    assert_eq!(validate_amount(1, "Amount"), Ok(()));
    assert_eq!(validate_amount(9_007_199_254_740_991, "Amount"), Ok(()));
    assert_eq!(validate_amount(100, "Amount"), Ok(()));
}

#[test]
fn different_pubkeys_refuses_the_same_bytes() {
    let a = parse_pubkey(PUBLIC, "a").unwrap();
    let b = Pubkey { bytes: a.bytes };
    assert_eq!(
        validate_different_pubkeys(&a, &b, "From", "to"),
        Err(bad("From and to cannot be the same public key."))
    );
    assert!(a.same_as(&b));
}

#[test]
fn different_pubkeys_accepts_keys_that_differ_in_one_byte() {
    let a = Pubkey { bytes: [1u8; 32] };
    let mut last = [1u8; 32];
    last[31] = 2;
    let mut first = [1u8; 32];
    first[0] = 0;
    assert_eq!(validate_different_pubkeys(&a, &Pubkey { bytes: last }, "x", "y"), Ok(()));
    assert_eq!(validate_different_pubkeys(&a, &Pubkey { bytes: first }, "x", "y"), Ok(()));
    assert!(!a.same_as(&Pubkey { bytes: last }));
}

#[test]
fn pubkey_from_slice_wants_thirty_two_bytes() {
    assert_eq!(Pubkey::from_slice(&[3u8; 31]), None);
    assert_eq!(Pubkey::from_slice(&[3u8; 33]), None);
    assert_eq!(Pubkey::from_slice(&[]), None);
    let mut bytes = [0u8; 32];
    for (i, b) in bytes.iter_mut().enumerate() {
        *b = i as u8;
    }
    assert_eq!(Pubkey::from_slice(&bytes), Some(Pubkey { bytes }));
}
