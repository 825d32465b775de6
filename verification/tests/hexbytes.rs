use creditcoin_admin::hexbytes::{head_line, hex_display_round_trip, HexBytes};

#[test]
fn decodes_with_a_prefix() {
    let h = HexBytes::from_str("0x0102ff").unwrap();
    assert_eq!(h.into_bytes(), vec![1u8, 2, 255]);
}

#[test]
fn decodes_without_a_prefix() {
    let h = HexBytes::from_str("0102ff").unwrap();
    assert_eq!(h.into_bytes(), vec![1u8, 2, 255]);
}

#[test]
fn accepts_upper_case_digits() {
    let h = HexBytes::from_str("ABCDEF").unwrap();
    assert_eq!(h.into_bytes(), vec![0xabu8, 0xcd, 0xef]);
}

#[test]
fn an_empty_string_is_no_bytes() {
    let h = HexBytes::from_str("").unwrap();
    assert_eq!(h.into_bytes(), Vec::<u8>::new());
    let h = HexBytes::from_str("0x").unwrap();
    assert_eq!(h.into_bytes(), Vec::<u8>::new());
}

#[test]
fn an_odd_length_string_is_rejected() {
    assert!(HexBytes::from_str("abc").is_none());
    assert!(HexBytes::from_str("0xabc").is_none());
}

#[test]
fn a_non_digit_is_rejected() {
    assert!(HexBytes::from_str("zz").is_none());
    assert!(HexBytes::from_str("0x0g").is_none());
}

#[test]
fn displays_as_prefixed_lower_case() {
    let h = HexBytes::from_str("0xAbCd01").unwrap();
    assert_eq!(h.to_display_string(), "0xabcd01");
    let empty = HexBytes::from_str("").unwrap();
    assert_eq!(empty.to_display_string(), "0x");
}

#[test]
fn display_then_parse_returns_an_equal_value() {
    let h = HexBytes::from_bytes(vec![0u8, 15, 16, 255]);
    assert_eq!(hex_display_round_trip(&h), Some(h));
}

#[test]
fn the_head_line_is_labelled_unless_quiet() {
    let head = HexBytes::from_bytes(vec![0xdeu8, 0xad, 0xbe, 0xef]);
    assert_eq!(head_line(true, &head), "0xdeadbeef");
    assert_eq!(head_line(false, &head), "Chain head: 0xdeadbeef");
}
