use kakarot_rpc::hex::parse_hex_bytes;
use kakarot_rpc::limbs::U256;

fn u256(x: u128, hi: u128) -> U256 {
    let mut bytes = [0u8; 32];
    bytes[..16].copy_from_slice(&hi.to_be_bytes());
    bytes[16..].copy_from_slice(&x.to_be_bytes());
    U256 { bytes }
}

#[test]
fn hex_quantity_with_odd_digit_count() {
    assert_eq!(U256::from_hex(b"0x1"), Some(u256(1, 0)));
    assert_eq!(U256::from_hex(b"0x3635c9adc5dea00000"), Some(u256(0x3635c9adc5dea00000, 0)));
    assert_eq!(U256::from_hex(b"0xABCdef"), Some(u256(0xabcdef, 0)));
}

#[test]
fn hex_quantity_of_full_width() {
    let text = format!("0x{}", "f".repeat(64));
    assert_eq!(U256::from_hex(text.as_bytes()), Some(U256::max_value()));
    let text = format!("0x1{}", "0".repeat(32));
    assert_eq!(U256::from_hex(text.as_bytes()), Some(u256(0, 1)));
}

#[test]
fn hex_quantity_rejects_malformed_text() {
    assert_eq!(U256::from_hex(b"0x"), None);
    assert_eq!(U256::from_hex(b"12"), None);
    assert_eq!(U256::from_hex(b"0x12g4"), None);
    let text = format!("0x{}", "1".repeat(65));
    assert_eq!(U256::from_hex(text.as_bytes()), None);
}

#[test]
fn hex_bytes_of_an_address() {
    let text = b"0xa94f5374fce5edbc8e2a8697c15331677e6ebf0b";
    let bytes = parse_hex_bytes(text, 20).unwrap();
    assert_eq!(bytes.len(), 20);
    assert_eq!(bytes[0], 0xa9);
    assert_eq!(bytes[19], 0x0b);
    assert_eq!(parse_hex_bytes(b"0x0a94f5374fce5edbc8e2a8697c15331677e6ebf0b", 20), None);
    assert_eq!(parse_hex_bytes(b"0xabc", 20), Some(vec![0x0a, 0xbc]));
}
