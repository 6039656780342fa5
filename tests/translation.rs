use kakarot_rpc::erc20::{decode_uint256, Erc20Call, EthereumErc20, CALL_GAS};
use kakarot_rpc::errors::{ConfigKey, ConfigurationError, ConversionError};
use kakarot_rpc::felt::Felt;
use kakarot_rpc::kakarot_core::{starknet_address, to_starknet_transaction, KakarotConfig};
use kakarot_rpc::limbs::U256;
use kakarot_rpc::transaction::{
    encode_without_signature, AccessListItem, Address, Signature, Transaction, TransactionSigned, TxEip1559,
    TxEip2930, TxKind, TxLegacy,
};
use starknet_crypto::FieldElement;

fn config() -> KakarotConfig {
    KakarotConfig::from_values("0x1234", "0xabcdef", "0x0e", "0x42").unwrap()
}

fn fe(f: &Felt) -> FieldElement {
    FieldElement::from_bytes_be(&f.bytes).unwrap()
}

fn u256(x: u128, hi: u128) -> U256 {
    let mut bytes = [0u8; 32];
    bytes[..16].copy_from_slice(&hi.to_be_bytes());
    bytes[16..].copy_from_slice(&x.to_be_bytes());
    U256 { bytes }
}

fn signature(odd_y_parity: bool) -> Signature {
    Signature { r: u256(0x1111, 0x2222), s: u256(0x3333, 0x4444), odd_y_parity }
}

fn eip155_example() -> Transaction {
    Transaction::Legacy(TxLegacy {
        chain_id: Some(1),
        nonce: 9,
        gas_price: 20_000_000_000,
        gas_limit: 21000,
        to: TxKind::Call(Address { bytes: [0x35; 20] }),
        value: u256(1_000_000_000_000_000_000, 0),
        input: vec![],
    })
}

fn eip155_signing_data() -> Vec<u8> {
    let mut v = vec![0xec, 0x09, 0x85, 0x04, 0xa8, 0x17, 0xc8, 0x00, 0x82, 0x52, 0x08, 0x94];
    v.extend_from_slice(&[0x35; 20]);
    v.extend_from_slice(&[0x88, 0x0d, 0xe0, 0xb6, 0xb3, 0xa7, 0x64, 0x00, 0x00, 0x80, 0x01, 0x80, 0x80]);
    v
}

fn eip1559_tx() -> Transaction {
    Transaction::Eip1559(TxEip1559 {
        chain_id: 1,
        nonce: 0,
        gas_limit: 21000,
        max_fee_per_gas: 2,
        max_priority_fee_per_gas: 1,
        to: TxKind::Create,
        value: u256(0, 0),
        access_list: vec![],
        input: vec![],
    })
}

#[test]
fn legacy_unsigned_encoding_matches_eip155_example() {
    let mut out = Vec::new();
    encode_without_signature(&eip155_example(), &mut out);
    assert_eq!(out, eip155_signing_data());
}

#[test]
fn eip1559_unsigned_encoding() {
    let mut out = Vec::new();
    encode_without_signature(&eip1559_tx(), &mut out);
    assert_eq!(out, vec![0x02, 0xcb, 0x01, 0x80, 0x01, 0x02, 0x82, 0x52, 0x08, 0x80, 0x80, 0x80, 0xc0]);
}

#[test]
fn eip2930_unsigned_encoding_with_long_access_list() {
    let tx = Transaction::Eip2930(TxEip2930 {
        chain_id: 1,
        nonce: 1,
        gas_price: 0x7f,
        gas_limit: 0x80,
        to: TxKind::Create,
        value: u256(0, 0),
        access_list: vec![AccessListItem { address: Address { bytes: [0x11; 20] }, storage_keys: vec![[0x22; 32]] }],
        input: vec![0xaa],
    });
    let mut access = vec![0xf8, 56, 0xf7, 0x94];
    access.extend_from_slice(&[0x11; 20]);
    access.extend_from_slice(&[0xe1, 0xa0]);
    access.extend_from_slice(&[0x22; 32]);
    let mut fields = vec![0x01, 0x01, 0x7f, 0x81, 0x80, 0x80, 0x80, 0x81, 0xaa];
    fields.extend_from_slice(&access);
    let mut expected = vec![0x01, 0xf8, fields.len() as u8];
    expected.extend_from_slice(&fields);
    let mut out = Vec::new();
    encode_without_signature(&tx, &mut out);
    assert_eq!(out, expected);
}

#[test]
fn legacy_signature_carries_replay_protected_recovery_value() {
    let config = config();
    let tx = TransactionSigned { transaction: eip155_example(), signature: signature(true) };
    let signer = Address { bytes: [0x77; 20] };
    let invoke = to_starknet_transaction(&tx, 1263227476, signer, 1000, &config).unwrap();
    assert_eq!(invoke.signature.len(), 5);
    assert_eq!(invoke.signature[0], Felt::from_u128(0x1111));
    assert_eq!(invoke.signature[1], Felt::from_u128(0x2222));
    assert_eq!(invoke.signature[2], Felt::from_u128(0x3333));
    assert_eq!(invoke.signature[3], Felt::from_u128(0x4444));
    assert_eq!(invoke.signature[4], Felt::from_u64(1 + 1263227476 * 2 + 35));
    assert_eq!(invoke.nonce, Felt::from_u64(9));
    assert_eq!(invoke.max_fee, Felt::from_u64(1000));
    assert!(!invoke.is_query);
    assert_eq!(invoke.sender_address, starknet_address(signer, &config));
}

#[test]
fn legacy_recovery_value_overflow_is_a_conversion_error() {
    let tx = TransactionSigned { transaction: eip155_example(), signature: signature(false) };
    let r = to_starknet_transaction(&tx, u64::MAX / 2, Address { bytes: [1; 20] }, 0, &config());
    assert_eq!(r, Err(ConversionError::ValueOutOfRange));
    let largest = (u64::MAX - 35) / 2;
    let r = to_starknet_transaction(&tx, largest, Address { bytes: [1; 20] }, 0, &config()).unwrap();
    assert_eq!(r.signature[4], Felt::from_u64(largest * 2 + 35));
}

#[test]
fn typed_signature_carries_parity() {
    for parity in [false, true] {
        let tx = TransactionSigned { transaction: eip1559_tx(), signature: signature(parity) };
        let invoke = to_starknet_transaction(&tx, u64::MAX, Address { bytes: [2; 20] }, 7, &config()).unwrap();
        assert_eq!(invoke.signature.len(), 5);
        assert_eq!(invoke.signature[4], Felt::from_u64(parity as u64));
    }
}

#[test]
fn calldata_frames_the_signed_data() {
    let config = config();
    let tx = TransactionSigned { transaction: eip155_example(), signature: signature(false) };
    let invoke = to_starknet_transaction(&tx, 1, Address { bytes: [3; 20] }, 0, &config).unwrap();
    let data = eip155_signing_data();
    let l = data.len();
    assert_eq!(invoke.calldata.len(), 6 + l);
    assert_eq!(invoke.calldata[0], Felt::from_u64(1));
    assert_eq!(invoke.calldata[1], config.kakarot_address);
    assert_eq!(fe(&invoke.calldata[2]), starknet::core::utils::get_selector_from_name("eth_send_transaction").unwrap());
    assert_eq!(invoke.calldata[3], Felt::from_u64(0));
    assert_eq!(invoke.calldata[4], Felt::from_u64(l as u64));
    assert_eq!(invoke.calldata[5], Felt::from_u64(l as u64));
    for (i, b) in data.iter().enumerate() {
        assert_eq!(invoke.calldata[6 + i], Felt::from_byte(*b));
    }
}

#[test]
fn starknet_address_is_the_proxy_deployment_address() {
    let config = config();
    let a = Address { bytes: [0x5a; 20] };
    let b = Address { bytes: [0x5b; 20] };
    let expected = starknet::core::utils::get_contract_address(fe(&a.to_felt()), fe(&config.proxy_account_class_hash), &[], fe(&config.kakarot_address));
    assert_eq!(fe(&starknet_address(a, &config)), expected);
    assert_eq!(starknet_address(a, &config), starknet_address(a, &config));
    assert_ne!(starknet_address(a, &config), starknet_address(b, &config));
    assert_ne!(starknet_address(a, &config), a.to_felt());
}

#[test]
fn config_reads_hex_values() {
    let config = KakarotConfig::from_values("0x10", "0x20", "0x30", "0x40").unwrap();
    assert_eq!(config.kakarot_address, Felt::from_u64(0x10));
    assert_eq!(config.proxy_account_class_hash, Felt::from_u64(0x20));
    assert_eq!(config.externally_owned_account_class_hash, Felt::from_u64(0x30));
    assert_eq!(config.contract_account_class_hash, Felt::from_u64(0x40));
    assert_eq!(fe(&config.eth_send_transaction), starknet::core::utils::get_selector_from_name("eth_send_transaction").unwrap());
}

#[test]
fn config_rejects_non_hex_value() {
    let r = KakarotConfig::from_values("0x10", "0x20", "not-hex", "0x40");
    assert_eq!(r, Err(ConfigurationError::InvalidHex(ConfigKey::ExternallyOwnedAccountClassHash)));
    let r = KakarotConfig::from_values("0xg1", "0x20", "0x30", "0x40");
    assert_eq!(r, Err(ConfigurationError::InvalidHex(ConfigKey::KakarotAddress)));
}

#[test]
fn config_rejects_missing_value() {
    let r = KakarotConfig::from_values("0x10", "", "0x30", "0x40");
    assert_eq!(r, Err(ConfigurationError::Missing(ConfigKey::ProxyAccountClassHash)));
}

#[test]
fn erc20_balance_of_call_request() {
    let token = EthereumErc20::new(Address { bytes: [0xee; 20] });
    let account = Address { bytes: [0x01; 20] };
    let request = token.balance_of_call(account);
    let mut input = vec![0x70, 0xa0, 0x82, 0x31];
    input.extend_from_slice(&[0; 12]);
    input.extend_from_slice(&[0x01; 20]);
    assert_eq!(request.input, input);
    assert_eq!(request.to, token.address);
    assert_eq!(request.from, Address { bytes: [0; 20] });
    assert_eq!(request.gas, CALL_GAS);
    assert_eq!(request.gas_price, 0);
    assert_eq!(request.value, U256 { bytes: [0; 32] });
}

#[test]
fn erc20_allowance_calldata() {
    let call = Erc20Call::Allowance { owner: Address { bytes: [0x0a; 20] }, spender: Address { bytes: [0x0b; 20] } };
    let data = call.encode();
    assert_eq!(data.len(), 68);
    assert_eq!(&data[..4], &[0xdd, 0x62, 0xed, 0x3e]);
    assert_eq!(&data[4..16], &[0; 12]);
    assert_eq!(&data[16..36], &[0x0a; 20]);
    assert_eq!(&data[36..48], &[0; 12]);
    assert_eq!(&data[48..68], &[0x0b; 20]);
}

#[test]
fn erc20_short_return_is_a_conversion_error() {
    let token = EthereumErc20::new(Address { bytes: [0xee; 20] });
    assert_eq!(token.balance_of(&[0u8; 31]), Err(ConversionError::UintConversion));
    assert_eq!(decode_uint256(&[]), Err(ConversionError::UintConversion));
}

#[test]
fn erc20_balance_decodes_big_endian() {
    let token = EthereumErc20::new(Address { bytes: [0xee; 20] });
    let mut ret = [0u8; 32];
    ret[31] = 0x2a;
    ret[30] = 0x01;
    assert_eq!(token.balance_of(&ret), Ok(u256(0x012a, 0)));
}

#[test]
fn erc20_long_return_is_read_whole() {
    let token = EthereumErc20::new(Address { bytes: [0xee; 20] });
    let mut ret = [0u8; 33];
    ret[32] = 0x07;
    ret[1] = 0x01;
    let mut expected = [0u8; 32];
    expected[31] = 0x07;
    expected[0] = 0x01;
    assert_eq!(token.balance_of(&ret), Ok(U256 { bytes: expected }));
    let mut wide = [0u8; 64];
    wide[63] = 0x2a;
    assert_eq!(decode_uint256(&wide), Ok(u256(0x2a, 0)));
}

#[test]
fn erc20_return_above_256_bits_is_a_conversion_error() {
    let token = EthereumErc20::new(Address { bytes: [0xee; 20] });
    let mut ret = [0u8; 33];
    ret[0] = 0x01;
    assert_eq!(token.balance_of(&ret), Err(ConversionError::UintConversion));
    let mut ret = [0u8; 40];
    ret[5] = 0x80;
    assert_eq!(decode_uint256(&ret), Err(ConversionError::UintConversion));
}

#[test]
fn config_hex_forms_of_field_elements() {
    let config = KakarotConfig::from_values("0xABcd", "0x0x20", "0x", "0x0000000000000000000000000000000000000000000000000000000000000040").unwrap();
    assert_eq!(config.kakarot_address, Felt::from_u64(0xabcd));
    assert_eq!(config.proxy_account_class_hash, Felt::from_u64(0x20));
    assert_eq!(config.externally_owned_account_class_hash, Felt::from_u64(0));
    assert_eq!(config.contract_account_class_hash, Felt::from_u64(0x40));
}

#[test]
fn config_rejects_values_outside_the_field() {
    let prime = "0x800000000000011000000000000000000000000000000000000000000000001";
    let r = KakarotConfig::from_values("0x10", "0x20", "0x30", prime);
    assert_eq!(r, Err(ConfigurationError::InvalidHex(ConfigKey::ContractAccountClassHash)));
    let too_long = format!("0x{}", "0".repeat(65));
    let r = KakarotConfig::from_values(&too_long, "0x20", "0x30", "0x40");
    assert_eq!(r, Err(ConfigurationError::InvalidHex(ConfigKey::KakarotAddress)));
}
