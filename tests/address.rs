use solana_holder_bot::{parse_token_id, Address, FetchError};

const TOKEN_PROGRAM: [u8; 32] = [
    6, 221, 246, 225, 215, 101, 161, 147, 217, 203, 225, 70, 206, 235, 121, 172, 28, 180, 133,
    237, 95, 91, 55, 145, 58, 140, 245, 133, 126, 255, 0, 169,
];

#[test]
fn parses_base58() {
    let a = Address::parse("TokenkegQfeZyiNwAJbNbGKPFXCWuBvf9Ss623VQ5DA").unwrap();
    assert_eq!(a.bytes, TOKEN_PROGRAM);
    assert!(Address::parse("11111111111111111111111111111111").unwrap().is_zero());
}

#[test]
fn rejects_malformed_text() {
    assert!(Address::parse("not-an-address").is_none());
    assert!(Address::parse("").is_none());
    assert_eq!(parse_token_id("0OIl"), Err(FetchError::InvalidIdentifier));
    assert_eq!(parse_token_id("US517G5965aydkZ46HS38QLi7UQiSojurfbQfKCELFx"), Ok(Address { bytes: [7; 32] }));
}

#[test]
fn renders_base58() {
    assert_eq!(Address { bytes: [7; 32] }.to_text(), "US517G5965aydkZ46HS38QLi7UQiSojurfbQfKCELFx");
    assert_eq!(Address { bytes: TOKEN_PROGRAM }.to_text(), "TokenkegQfeZyiNwAJbNbGKPFXCWuBvf9Ss623VQ5DA");
}

#[test]
fn reads_from_slices_of_32_bytes_only() {
    let bytes: Vec<u8> = (0u8..40).collect();
    let a = Address::from_slice(&bytes[3..35]).unwrap();
    assert_eq!(a.bytes[0], 3);
    assert_eq!(a.bytes[31], 34);
    assert!(Address::from_slice(&bytes[0..31]).is_none());
    assert!(Address::from_slice(&bytes[0..33]).is_none());
}

#[test]
fn compares_by_value() {
    let a = Address { bytes: [1; 32] };
    let mut b = a;
    assert!(a.same_as(&b));
    b.bytes[31] = 2;
    assert!(!a.same_as(&b));
    assert!(Address::zero().is_zero());
    assert!(!b.is_zero());
}
