use kakarot_rpc::felt::Felt;
use kakarot_rpc::hive::{AccountInfo, AccountModel, AccountType, GenesisAccount, GenesisError, HiveGenesisConfig};
use kakarot_rpc::kakarot_core::{starknet_address, KakarotConfig};
use kakarot_rpc::limbs::{combine_u256, split_u256, U256};
use kakarot_rpc::transaction::Address;
use starknet_crypto::FieldElement;

fn config() -> KakarotConfig {
    KakarotConfig::from_values(
        "0x11c5faab8a76b3caff6e243b8d13059a7fb723a0ca12bbaadde95fb9e501bda",
        "0x5599e5a2ab1f9a6d6adf1e82bd2ab4a5b5d1c0a6d0b5f4a8e5fa1e4b5c2d3a1",
        "0x3e2f6c1c7cd2b5ab1bf8ae3e6f0b4c1a0f8c6d3e2b1a9f8e7d6c5b4a3928170",
        "0x21a1b3e45ffd1f0d3c5b7a9e8f6d4c2b0a1e3f5d7c9b8a6e4f2d0c1b3a5e7f9",
    )
    .unwrap()
}

fn address(last: u8) -> Address {
    let mut bytes = [0u8; 20];
    bytes[0] = 0xa9;
    bytes[19] = last;
    Address { bytes }
}

fn u256_from(x: u128, hi: u128) -> U256 {
    let mut bytes = [0u8; 32];
    bytes[..16].copy_from_slice(&hi.to_be_bytes());
    bytes[16..].copy_from_slice(&x.to_be_bytes());
    U256 { bytes }
}

fn fe(f: &Felt) -> FieldElement {
    FieldElement::from_bytes_be(&f.bytes).unwrap()
}

fn allocation() -> Vec<GenesisAccount> {
    let mut accounts = Vec::new();
    for i in 0..8u8 {
        let storage = if i % 2 == 0 {
            vec![(u256_from(i as u128 + 1, 0), u256_from(0xdead_beef, 0x1234 + i as u128))]
        } else {
            vec![]
        };
        accounts.push(GenesisAccount {
            address: address(i).bytes.to_vec(),
            info: AccountInfo { balance: u256_from(1_000_000 * (i as u128 + 1), 0), code: vec![], storage },
        });
    }
    accounts
}

fn models(n: usize) -> Vec<AccountModel> {
    (0..n)
        .map(|i| AccountModel {
            account_type: if i % 3 == 0 { AccountType::Contract } else { AccountType::Eoa },
            storage: vec![],
        })
        .collect()
}

#[test]
fn test_correct_genesis_len() {
    let hive = HiveGenesisConfig { alloc: allocation() };
    let genesis = hive.try_into_genesis_json(&config(), &models(8)).unwrap();
    assert_eq!(genesis.contracts.len(), 8);
}

#[test]
fn test_genesis_accounts() {
    let config = config();
    let hive = HiveGenesisConfig { alloc: allocation() };
    let genesis = hive.try_into_genesis_json(&config, &models(8)).unwrap();
    for account in hive.alloc.iter() {
        let mut bytes = [0u8; 20];
        bytes.copy_from_slice(&account.address);
        let target = starknet_address(Address { bytes }, &config);
        let (_, contract) = genesis.contracts.iter().find(|(a, _)| *a == target).unwrap();

        // Check the balance
        assert_eq!(contract.balance, account.info.balance);
        // Check the storage
        for (key, value) in account.info.storage.iter() {
            let (lo, hi) = split_u256(*key);
            let key = starknet::core::utils::get_storage_var_address("storage_", &[fe(&lo), fe(&hi)]).unwrap();
            let low = contract.storage.iter().find(|(k, _)| fe(k) == key).unwrap().1;
            let high = contract.storage.iter().find(|(k, _)| fe(k) == key + FieldElement::ONE).unwrap().1;
            assert_eq!(combine_u256(low, high), *value);
        }
    }
}

#[test]
fn genesis_grants_maximal_allowance() {
    let config = config();
    let hive = HiveGenesisConfig { alloc: allocation() };
    let genesis = hive.try_into_genesis_json(&config, &models(8)).unwrap();
    assert_eq!(genesis.fee_token_storage.len(), 16);
    assert_eq!(genesis.kakarot_storage.len(), 8);
    let target = starknet_address(address(3), &config);
    let key = starknet::core::utils::get_storage_var_address("ERC20_allowances", &[fe(&target), fe(&config.kakarot_address)]).unwrap();
    let max = Felt::from_u128(u128::MAX);
    let lo = genesis.fee_token_storage.iter().find(|(k, _)| fe(k) == key).unwrap().1;
    let hi = genesis.fee_token_storage.iter().find(|(k, _)| fe(k) == key + FieldElement::ONE).unwrap().1;
    assert_eq!(lo, max);
    assert_eq!(hi, max);
    assert_eq!(combine_u256(lo, hi), U256::max_value());
    let lookup_key = starknet::core::utils::get_storage_var_address("evm_to_starknet_address", &[fe(&address(3).to_felt())]).unwrap();
    let entry = genesis.kakarot_storage.iter().find(|(k, _)| fe(k) == lookup_key).unwrap();
    assert_eq!(entry.1, target);
}

#[test]
fn genesis_owner_slot_only_for_contract_accounts() {
    let config = config();
    let hive = HiveGenesisConfig { alloc: allocation() };
    let genesis = hive.try_into_genesis_json(&config, &models(8)).unwrap();
    let owner = starknet::core::utils::get_storage_var_address("Ownable_owner", &[]).unwrap();
    let implementation = starknet::core::utils::get_storage_var_address("_implementation", &[]).unwrap();
    for (i, (_, contract)) in genesis.contracts.iter().enumerate() {
        assert_eq!(contract.class_hash, config.proxy_account_class_hash);
        let has_owner = contract.storage.iter().any(|(k, _)| fe(k) == owner);
        let class = contract.storage.iter().find(|(k, _)| fe(k) == implementation).unwrap().1;
        if i % 3 == 0 {
            assert!(has_owner);
            assert_eq!(class, config.contract_account_class_hash);
        } else {
            assert!(!has_owner);
            assert_eq!(class, config.externally_owned_account_class_hash);
        }
    }
}

#[test]
fn genesis_storage_layout_is_exact() {
    let config = config();
    let hive = HiveGenesisConfig { alloc: allocation() };
    let genesis = hive.try_into_genesis_json(&config, &models(8)).unwrap();
    // Account 1: an externally owned account with no storage.
    assert_eq!(genesis.contracts[1].1.storage.len(), 2);
    // Account 0: a contract account with one storage pair.
    assert_eq!(genesis.contracts[0].1.storage.len(), 5);
    let value = genesis.contracts[0].1.storage[1].1;
    assert_eq!(value, Felt::from_u128(0x1234));
}

#[test]
fn genesis_invalid_address_aborts_everything() {
    let mut accounts = allocation();
    accounts[5].address = vec![0xab; 19];
    let hive = HiveGenesisConfig { alloc: accounts };
    assert_eq!(hive.try_into_genesis_json(&config(), &models(8)), Err(GenesisError::InvalidAddress(5)));
}

#[test]
fn genesis_model_mismatch_is_refused() {
    let hive = HiveGenesisConfig { alloc: allocation() };
    assert_eq!(hive.try_into_genesis_json(&config(), &models(7)), Err(GenesisError::AccountModelMismatch));
}

#[test]
fn genesis_of_empty_allocation_is_empty() {
    let hive = HiveGenesisConfig { alloc: vec![] };
    let genesis = hive.try_into_genesis_json(&config(), &vec![]).unwrap();
    assert!(genesis.contracts.is_empty());
    assert!(genesis.kakarot_storage.is_empty());
    assert!(genesis.fee_token_storage.is_empty());
}

#[test]
fn limbs_split_and_combine() {
    let v = u256_from(0x0102030405060708090a0b0c0d0e0f10, 0xffeeddccbbaa99887766554433221100);
    let (lo, hi) = split_u256(v);
    assert_eq!(lo, Felt::from_u128(0x0102030405060708090a0b0c0d0e0f10));
    assert_eq!(hi, Felt::from_u128(0xffeeddccbbaa99887766554433221100));
    assert_eq!(combine_u256(lo, hi), v);
    let max = U256::max_value();
    let (lo, hi) = split_u256(max);
    assert_eq!(lo, Felt::from_u128(u128::MAX));
    assert_eq!(hi, Felt::from_u128(u128::MAX));
    assert_eq!(combine_u256(lo, hi), max);
    let zero = U256 { bytes: [0; 32] };
    let (lo, hi) = split_u256(zero);
    assert_eq!(combine_u256(lo, hi), zero);
}
