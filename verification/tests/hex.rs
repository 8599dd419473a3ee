use ferro_vault::hex::to_hex;

#[test]
fn to_hex_empty_slice_is_empty_string() {
    assert_eq!(to_hex(&[]), "");
}

#[test]
fn to_hex_zero_pads_single_digit_bytes() {
    assert_eq!(to_hex(&[0x00]), "00");
    assert_eq!(to_hex(&[0x02]), "02");
}

#[test]
fn to_hex_is_lowercase() {
    assert_eq!(to_hex(&[0xab, 0xcd, 0xef]), "abcdef");
}

#[test]
fn to_hex_32_byte_identity_has_expected_length_and_content() {
    let identity: [u8; 32] = std::array::from_fn(|i| i as u8);
    let hex = to_hex(&identity);
    assert_eq!(hex.len(), 64);
    assert_eq!(&hex[0..6], "000102");
    assert_eq!(&hex[hex.len() - 6..], "1d1e1f");
}

#[test]
fn to_hex_agrees_with_the_formatter_on_every_byte() {
    for byte in 0..=255u8 {
        assert_eq!(to_hex(&[byte]), format!("{:02x}", byte));
    }
}

#[test]
fn to_hex_of_a_concatenation_is_the_concatenation() {
    let (a, b) = ([0x02u8, 0xff], [0x10u8]);
    assert_eq!(to_hex(&[0x02, 0xff, 0x10]), format!("{}{}", to_hex(&a), to_hex(&b)));
}

#[test]
fn to_hex_tells_different_bytes_apart() {
    assert_ne!(to_hex(&[0x01, 0x23]), to_hex(&[0x12, 0x03]));
}
