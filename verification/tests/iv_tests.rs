use ncd::hexiv::{hex_decode, make_zero_iv, parse_iv};

#[test]
fn iv_with_and_without_prefix_parse_identically() {
    let bare = "000102030405060708090a0b0c0d0e0f";
    let prefixed = "0x000102030405060708090a0b0c0d0e0f";
    let a = parse_iv(bare).expect("bare IV must parse");
    let b = parse_iv(prefixed).expect("prefixed IV must parse");
    assert_eq!(a, b);
    let expected: Vec<u8> = (0u8..16).collect();
    assert_eq!(a, expected);
}

#[test]
fn iv_parses_uppercase_hex() {
    let a = parse_iv("0xAABBCCDDEEFF00112233445566778899").expect("must parse");
    assert_eq!(a[0], 0xaa);
    assert_eq!(a[15], 0x99);
}

#[test]
fn zero_iv_is_sixteen_zero_bytes() {
    let z = make_zero_iv();
    assert_eq!(z, vec![0u8; 16]);
}

#[test]
fn iv_of_wrong_length_is_rejected() {
    assert!(parse_iv("0x00").is_none());
    assert!(parse_iv("").is_none());
    assert!(parse_iv("0x000102030405060708090a0b0c0d0e0f00").is_none());
}

#[test]
fn iv_with_non_hex_characters_is_rejected() {
    assert!(parse_iv("0x0001020304050607,8090a0b0c0d0e0f").is_none());
    assert!(parse_iv("zz0102030405060708090a0b0c0d0e0f").is_none());
}

#[test]
fn hex_decode_decodes_pairs() {
    assert_eq!(hex_decode("deadBEEF").unwrap(), vec![0xde, 0xad, 0xbe, 0xef]);
    assert_eq!(hex_decode("").unwrap(), Vec::<u8>::new());
    assert!(hex_decode("abc").is_none());
    assert!(hex_decode("0g").is_none());
}
