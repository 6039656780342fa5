//! The process-wide configuration, the derivation of target-chain account
//! addresses, and the translation of signed transactions into invoke transactions.

use crate::bytes::{be_value, lemma_be_value_bound, lemma_be_value_zeros_prefix, lemma_pow256_monotonic, zeros};
use crate::errors::{ConfigKey, ConfigurationError, ConversionError};
use crate::felt::{
    address_bound, contract_address, contract_address_of, felt_from_hex, felt_from_hex_text, felt_values, is_hex_char,
    lemma_trim_hex_prefix_keeps, trim_hex_prefix,
    selector_from_name, selector_of, Felt,
};
use crate::limbs::{limbs_of, split_u256};
use crate::transaction::{encode_without_signature, unsigned_encoding, Address, Transaction, TransactionSigned};
use vstd::prelude::*;

verus! {

impl Address {
    /// The number the address stands for.
    pub open spec fn value(self) -> nat {
        be_value(self.bytes@)
    }

    /// The address as a field element.
    pub fn to_felt(self) -> (r: Felt)
        ensures
            r.wf(),
            r.value() == self.value(),
    {
        let mut bytes = [0u8; 32];
        let mut i: usize = 0;
        while i < 20
            invariant
                i <= 20,
                bytes@.len() == 32,
                forall|j: int| 0 <= j < 12 ==> bytes@[j] == 0u8,
                forall|j: int| 12 <= j < 12 + i ==> bytes@[j] == self.bytes@[j - 12],
            decreases 20 - i,
        {
            bytes[12 + i] = self.bytes[i];
            i = i + 1;
        }
        proof {
            assert(bytes@ =~= zeros(12) + self.bytes@);
            lemma_be_value_zeros_prefix(12, self.bytes@);
            lemma_be_value_bound(self.bytes@);
            lemma_pow256_monotonic(20, 31);
        }
        Felt { bytes }
    }
}

/// A text that holds a character that is neither a hexadecimal digit nor an `x`.
pub open spec fn has_non_hex_char(s: Seq<char>) -> bool {
    exists|i: int| 0 <= i < s.len() && !is_hex_char(#[trigger] s[i]) && s[i] != 'x'
}

/// The field element that a configuration text gives, if any: it must not be empty.
pub open spec fn config_value_of(s: Seq<char>) -> Option<nat> {
    if s.len() == 0 {
        None
    } else {
        felt_from_hex_text(s)
    }
}

/// The error that a configuration text gives for `key`, if any.
pub open spec fn config_error_of(key: ConfigKey, s: Seq<char>) -> Option<ConfigurationError> {
    if s.len() == 0 {
        Some(ConfigurationError::Missing(key))
    } else if felt_from_hex_text(s) is None {
        Some(ConfigurationError::InvalidHex(key))
    } else {
        None
    }
}

/// Reads the configuration text `value` of `key` as a field element.
pub fn env_var_to_field_element(key: ConfigKey, value: &str) -> (r: Result<Felt, ConfigurationError>)
    ensures
        r is Err <==> config_error_of(key, value@) is Some,
        r matches Err(e) ==> config_error_of(key, value@) == Some(e),
        r matches Ok(f) ==> f.wf() && config_value_of(value@) == Some(f.value()),
        has_non_hex_char(value@) ==> r is Err,
{
    if value.unicode_len() == 0 {
        return Err(ConfigurationError::Missing(key));
    }
    proof {
        if has_non_hex_char(value@) {
            let i = choose|i: int| 0 <= i < value@.len() && !is_hex_char(#[trigger] value@[i]) && value@[i] != 'x';
            let j = lemma_trim_hex_prefix_keeps(value@, i);
            assert(!is_hex_char(trim_hex_prefix(value@)[j]));
        }
    }
    match felt_from_hex(value) {
        Some(f) => Ok(f),
        None => Err(ConfigurationError::InvalidHex(key)),
    }
}

/// The configuration that every component reads: the coordinator's address, the
/// class hashes of the account contracts, and the selector of the entry point that
/// receives translated transactions.
#[derive(Clone, Copy, Debug, PartialEq, Eq)]
pub struct KakarotConfig {
    pub kakarot_address: Felt,
    pub proxy_account_class_hash: Felt,
    pub externally_owned_account_class_hash: Felt,
    pub contract_account_class_hash: Felt,
    pub eth_send_transaction: Felt,
}

/// The name of the coordinator's entry point that receives a transaction.
pub open spec fn eth_send_transaction_name() -> Seq<char> {
    "eth_send_transaction"@
}

impl KakarotConfig {
    pub open spec fn wf(&self) -> bool {
        &&& self.kakarot_address.wf()
        &&& self.proxy_account_class_hash.wf()
        &&& self.externally_owned_account_class_hash.wf()
        &&& self.contract_account_class_hash.wf()
        &&& self.eth_send_transaction.value() == selector_of(eth_send_transaction_name())
        &&& self.eth_send_transaction.wf()
    }

    /// Reads the four configuration texts; the first one that is absent or does not
    /// read as a field element is reported.
    pub fn from_values(kakarot_address: &str, proxy_account_class_hash: &str, externally_owned_account_class_hash: &str, contract_account_class_hash: &str) -> (r: Result<KakarotConfig, ConfigurationError>)
        ensures
            r is Ok <==> (config_value_of(kakarot_address@) is Some && config_value_of(proxy_account_class_hash@) is Some
                && config_value_of(externally_owned_account_class_hash@) is Some && config_value_of(contract_account_class_hash@) is Some),
            r matches Ok(c) ==> {
                &&& c.wf()
                &&& config_value_of(kakarot_address@) == Some(c.kakarot_address.value())
                &&& config_value_of(proxy_account_class_hash@) == Some(c.proxy_account_class_hash.value())
                &&& config_value_of(externally_owned_account_class_hash@) == Some(c.externally_owned_account_class_hash.value())
                &&& config_value_of(contract_account_class_hash@) == Some(c.contract_account_class_hash.value())
            },
            r matches Err(e) ==> Some(e) == (if config_error_of(ConfigKey::KakarotAddress, kakarot_address@) is Some {
                config_error_of(ConfigKey::KakarotAddress, kakarot_address@)
            } else if config_error_of(ConfigKey::ProxyAccountClassHash, proxy_account_class_hash@) is Some {
                config_error_of(ConfigKey::ProxyAccountClassHash, proxy_account_class_hash@)
            } else if config_error_of(ConfigKey::ExternallyOwnedAccountClassHash, externally_owned_account_class_hash@) is Some {
                config_error_of(ConfigKey::ExternallyOwnedAccountClassHash, externally_owned_account_class_hash@)
            } else {
                config_error_of(ConfigKey::ContractAccountClassHash, contract_account_class_hash@)
            }),
            has_non_hex_char(kakarot_address@) || has_non_hex_char(proxy_account_class_hash@)
                || has_non_hex_char(externally_owned_account_class_hash@) || has_non_hex_char(contract_account_class_hash@)
                ==> r is Err,
    {
        let kakarot_address = env_var_to_field_element(ConfigKey::KakarotAddress, kakarot_address)?;
        let proxy_account_class_hash = env_var_to_field_element(ConfigKey::ProxyAccountClassHash, proxy_account_class_hash)?;
        let externally_owned_account_class_hash = env_var_to_field_element(
            ConfigKey::ExternallyOwnedAccountClassHash,
            externally_owned_account_class_hash,
        )?;
        let contract_account_class_hash = env_var_to_field_element(ConfigKey::ContractAccountClassHash, contract_account_class_hash)?;
        proof {
            reveal_strlit("eth_send_transaction");
        }
        let eth_send_transaction = selector_from_name("eth_send_transaction");
        Ok(KakarotConfig {
            kakarot_address,
            proxy_account_class_hash,
            externally_owned_account_class_hash,
            contract_account_class_hash,
            eth_send_transaction,
        })
    }
}

/// The target-chain address of the account of `address`: the proxy class deployed
/// by the coordinator with the address as salt and no constructor arguments.
pub open spec fn starknet_address_of(config: KakarotConfig, address: nat) -> nat {
    contract_address_of(address, config.proxy_account_class_hash.value(), config.kakarot_address.value())
}

/// Deriving a target-chain address is a function of the configuration and the
/// source address alone: equal inputs give the same address on every call.
pub proof fn lemma_starknet_address_deterministic(c1: KakarotConfig, c2: KakarotConfig, a: Address, b: Address)
    requires
        c1 == c2,
        a == b,
    ensures
        starknet_address_of(c1, a.value()) == starknet_address_of(c2, b.value()),
{
}

/// Computes the target-chain address of a source-chain address.
pub fn starknet_address(address: Address, config: &KakarotConfig) -> (r: Felt)
    requires
        config.wf(),
    ensures
        r.value() == starknet_address_of(*config, address.value()),
        r.value() < address_bound(),
        r.wf(),
{
    contract_address(address.to_felt(), config.proxy_account_class_hash, config.kakarot_address)
}

/// A target-chain invoke transaction.
#[derive(Clone, Debug, PartialEq, Eq)]
pub struct InvokeTransaction {
    pub max_fee: Felt,
    pub signature: Vec<Felt>,
    pub nonce: Felt,
    pub sender_address: Felt,
    pub calldata: Vec<Felt>,
    pub is_query: bool,
}

/// The last signature element: for a legacy transaction the replay-protected
/// recovery value `parity + chain_id * 2 + 35`, else the parity itself.
pub open spec fn recovery_value(tx: TransactionSigned, chain_id: u64) -> nat {
    let parity: nat = if tx.signature.odd_y_parity { 1 } else { 0 };
    match tx.transaction {
        Transaction::Legacy(_) => parity + chain_id as nat * 2 + 35,
        _ => parity,
    }
}

/// The five signature elements: the limbs of `r`, the limbs of `s`, the recovery value.
pub open spec fn signature_values(tx: TransactionSigned, chain_id: u64) -> Seq<nat> {
    let r = limbs_of(tx.signature.r.value());
    let s = limbs_of(tx.signature.s.value());
    seq![r.0, r.1, s.0, s.1, recovery_value(tx, chain_id)]
}

/// A call of the coordinator's entry point with `data`: one call, its target, its
/// selector, offset zero, the data length twice, then each byte as an element.
pub open spec fn execute_calldata_values(config: KakarotConfig, data: Seq<u8>) -> Seq<nat> {
    seq![1nat, config.kakarot_address.value(), config.eth_send_transaction.value(), 0nat, data.len(), data.len()]
        + data.map_values(|b: u8| b as nat)
}

/// Translates a signed source-chain transaction into the invoke transaction that
/// hands it to the coordinator from the signer's target-chain account.
pub fn to_starknet_transaction(
    transaction: &TransactionSigned,
    chain_id: u64,
    signer: Address,
    max_fee: u64,
    config: &KakarotConfig,
) -> (r: Result<InvokeTransaction, ConversionError>)
    requires
        config.wf(),
    ensures
        r is Err <==> recovery_value(*transaction, chain_id) > u64::MAX,
        r matches Err(e) ==> e == ConversionError::ValueOutOfRange,
        r matches Ok(t) ==> {
            &&& t.max_fee.value() == max_fee
            &&& t.nonce.value() == transaction.transaction.spec_nonce()
            &&& t.sender_address.value() == starknet_address_of(*config, signer.value())
            &&& felt_values(t.signature@) == signature_values(*transaction, chain_id)
            &&& felt_values(t.calldata@) == execute_calldata_values(*config, unsigned_encoding(transaction.transaction))
            &&& !t.is_query
            &&& forall|i: int| 0 <= i < t.signature@.len() ==> (#[trigger] t.signature@[i]).wf()
            &&& forall|i: int| 0 <= i < t.calldata@.len() ==> (#[trigger] t.calldata@[i]).wf()
        },
{
    let parity: u64 = if transaction.signature.odd_y_parity { 1 } else { 0 };
    let last: u64 = match transaction.transaction {
        Transaction::Legacy(_) => {
            let v: u128 = parity as u128 + chain_id as u128 * 2 + 35;
            if v > u64::MAX as u128 {
                return Err(ConversionError::ValueOutOfRange);
            }
            v as u64
        },
        _ => parity,
    };
    let sender_address = starknet_address(signer, config);
    let nonce = Felt::from_u64(transaction.transaction.nonce());

    let (r_lo, r_hi) = split_u256(transaction.signature.r);
    let (s_lo, s_hi) = split_u256(transaction.signature.s);
    let signature = vec![r_lo, r_hi, s_lo, s_hi, Felt::from_u64(last)];

    let mut signed_data: Vec<u8> = Vec::new();
    encode_without_signature(&transaction.transaction, &mut signed_data);
    assert(signed_data@ == unsigned_encoding(transaction.transaction));

    let len = signed_data.len();
    let mut calldata = vec![
        Felt::from_byte(1),
        config.kakarot_address,
        config.eth_send_transaction,
        Felt::from_byte(0),
        Felt::from_u128(len as u128),
        Felt::from_u128(len as u128),
    ];
    let ghost head = felt_values(calldata@);
    let mut i: usize = 0;
    while i < len
        invariant
            i <= len,
            len == signed_data@.len(),
            config.wf(),
            felt_values(calldata@) == head + signed_data@.subrange(0, i as int).map_values(|b: u8| b as nat),
            forall|j: int| 0 <= j < calldata@.len() ==> (#[trigger] calldata@[j]).wf(),
        decreases len - i,
    {
        let ghost before = calldata@;
        let e = Felt::from_byte(signed_data[i]);
        calldata.push(e);
        proof {
            assert(calldata@ =~= before.push(e));
            assert(felt_values(calldata@) =~= felt_values(before).push(e.value()));
            assert(signed_data@.subrange(0, i + 1).map_values(|b: u8| b as nat) =~= signed_data@.subrange(
                0,
                i as int,
            ).map_values(|b: u8| b as nat).push(signed_data@[i as int] as nat));
        }
        i = i + 1;
    }
    assert(signed_data@.subrange(0, len as int) =~= signed_data@);
    assert(felt_values(calldata@) =~= execute_calldata_values(*config, signed_data@));
    assert(felt_values(signature@) =~= signature_values(*transaction, chain_id));

    Ok(InvokeTransaction {
        max_fee: Felt::from_u64(max_fee),
        signature,
        nonce,
        sender_address,
        calldata,
        is_query: false,
    })
}

} // verus!
