use solana_http_api::text::{decimal, join2, join3};

#[test]
fn decimal_writes_zero_and_single_digits() {
    assert_eq!(decimal(0), "0");
    assert_eq!(decimal(7), "7");
    assert_eq!(decimal(9), "9");
}

#[test]
fn decimal_writes_every_digit_in_order() {
    assert_eq!(decimal(10), "10");
    assert_eq!(decimal(1234567890), "1234567890");
    assert_eq!(decimal(9_007_199_254_740_991), "9007199254740991");
    assert_eq!(decimal(u64::MAX), "18446744073709551615");
}

#[test]
fn decimal_agrees_with_the_standard_library() {
    let mut n: u64 = 1;
    for _ in 0..64 {
        assert_eq!(decimal(n), n.to_string());
        assert_eq!(decimal(n - 1), (n - 1).to_string());
        n = n.wrapping_mul(2);
    }
}

#[test]
fn join_keeps_the_order_of_the_pieces() {
    assert_eq!(join2("ab", "cd"), "abcd");
    assert_eq!(join2("", "x"), "x");
    assert_eq!(join3("a", "", "c"), "ac");
    assert_eq!(join3("Invalid ", "mint", " pubkey"), "Invalid mint pubkey");
}
