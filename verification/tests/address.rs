use jstz_proto::address::{decimal_digits, Address};
use jstz_proto::error::Error;

#[test]
fn decimal_digits_of_zero() {
    assert_eq!(decimal_digits(0), b"0".to_vec());
}

#[test]
fn decimal_digits_of_small_and_large_numbers() {
    assert_eq!(decimal_digits(7), b"7".to_vec());
    assert_eq!(decimal_digits(10), b"10".to_vec());
    assert_eq!(decimal_digits(12345), b"12345".to_vec());
    assert_eq!(decimal_digits(u64::MAX), b"18446744073709551615".to_vec());
}

#[test]
fn derive_is_deterministic() {
    let source = Address::digest(b"source");
    let first = Address::derive(&source, "export default 1", 3);
    let second = Address::derive(&source, "export default 1", 3);
    assert!(first.same(&second));
    assert_eq!(first.to_base58(), second.to_base58());
}

#[test]
fn derive_separates_nonces() {
    let source = Address::digest(b"source");
    let first = Address::derive(&source, "export default 1", 0);
    let second = Address::derive(&source, "export default 1", 1);
    assert!(!first.same(&second));
}

#[test]
fn base58_round_trip() {
    let address = Address::digest(b"some account");
    let text = address.to_base58();
    assert!(text.starts_with("tz4"));
    let parsed = Address::from_base58(&text).unwrap();
    assert!(parsed.same(&address));
}

#[test]
fn from_base58_rejects_malformed_text() {
    assert_eq!(Address::from_base58("not an address").err(), Some(Error::MalformedAddress));
    assert_eq!(Address::from_base58("").err(), Some(Error::MalformedAddress));
}

#[test]
fn digest_has_the_expected_text() {
    assert_eq!(Address::digest(b"hello").to_base58(), "tz4RY1TG3YhbpMNewNM8243Xj5Q68rc3hApt");
    assert_eq!(Address::digest(b"account A").to_base58(), "tz4XGbJhwCcHbaSsTskf4BhgN9Rp45n2vq2f");
}

#[test]
fn derive_hashes_source_text_code_and_nonce() {
    let source = Address::digest(b"account A");
    let code = "export default (req) => new Response('ok')";
    assert_eq!(
        Address::derive(&source, code, 0).to_base58(),
        "tz4AQDqEKwijWJYb7KXWuxP5Um4qoYnjH3C1"
    );
    assert_eq!(
        Address::derive(&source, code, 1).to_base58(),
        "tz4NBd7Q8xCyCQ1UVjMQQNFZZwjorf6jMAyu"
    );
}

#[test]
fn clone_keeps_the_digest() {
    let address = Address::digest(b"hello");
    assert!(address.clone().same(&address));
}
