use creditcoin_admin::account::{ss58_round_trip, CreditcoinAccountId};

// The well-known development account "Alice": its 32 public-key bytes and the
// SS58 address they encode to under the default (42) network prefix.
const ALICE_SS58: &str = "5GrwvaEF5zXb26Fz9rcQpDWS57CtERHpNehXCPcNoHGKutQY";
const ALICE_HEX: &str = "d43593c715fdd31c61141abd04a99fd6822c8558854ccde39a5684e7a56da27d";

fn alice_bytes() -> [u8; 32] {
    let v = hex::decode(ALICE_HEX).unwrap();
    let mut b = [0u8; 32];
    b.copy_from_slice(&v);
    b
}

#[test]
fn a_known_address_decodes_to_its_account_bytes() {
    let a = CreditcoinAccountId::from_str(ALICE_SS58).unwrap();
    assert_eq!(a.to_bytes(), alice_bytes());
}

#[test]
fn known_account_bytes_encode_to_their_address() {
    let a = CreditcoinAccountId::from_bytes(alice_bytes());
    assert_eq!(a.to_ss58check(), ALICE_SS58);
}

#[test]
fn encode_then_decode_returns_an_equal_account() {
    let a = CreditcoinAccountId::from_bytes([7u8; 32]);
    let s = a.to_ss58check();
    let b = CreditcoinAccountId::from_str(&s).unwrap();
    assert_eq!(a, b);
    assert_eq!(ss58_round_trip(&a), Some(a));
}

#[test]
fn a_malformed_string_is_rejected_with_a_message() {
    let r = CreditcoinAccountId::from_str("not an address");
    assert_eq!(
        r.unwrap_err(),
        "not an address is not a valid SS58 Address"
    );
}

#[test]
fn an_overlong_string_is_rejected_without_panicking() {
    // A long run of leading '1' characters is the worst case for base-58
    // decoding; it must come back as a plain rejection.
    let s = "1".repeat(200);
    let r = CreditcoinAccountId::from_str(&s);
    assert_eq!(r.unwrap_err(), format!("{s} is not a valid SS58 Address"));
}

#[test]
fn a_wrong_checksum_is_rejected() {
    // Flip the last character of a valid address to break its checksum while
    // staying inside the base-58 alphabet.
    let mut s = String::from(ALICE_SS58);
    let last = s.pop().unwrap();
    s.push(if last == 'Y' { 'Z' } else { 'Y' });
    assert!(CreditcoinAccountId::from_str(&s).is_err());
}
