//! Signed source-chain transactions and their canonical unsigned encoding.

use crate::limbs::U256;
use crate::rlp::{encode_bytes, encode_integer, encode_list, encode_u128, rlp_bytes, rlp_integer, rlp_list, rlp_u128};
use vstd::prelude::*;

verus! {

/// A 20-byte source-chain account address.
#[derive(Clone, Copy, Debug, PartialEq, Eq, Hash)]
pub struct Address {
    pub bytes: [u8; 20],
}

/// Where a transaction goes: a new contract, or an existing account.
#[derive(Clone, Copy, Debug, PartialEq, Eq)]
pub enum TxKind {
    Create,
    Call(Address),
}

/// An address that a transaction declares it touches, with the storage keys.
#[derive(Clone, Debug, PartialEq, Eq)]
pub struct AccessListItem {
    pub address: Address,
    pub storage_keys: Vec<[u8; 32]>,
}

/// A legacy transaction; with a chain id it is signed as replay-protected.
#[derive(Clone, Debug, PartialEq, Eq)]
pub struct TxLegacy {
    pub chain_id: Option<u64>,
    pub nonce: u64,
    pub gas_price: u128,
    pub gas_limit: u64,
    pub to: TxKind,
    pub value: U256,
    pub input: Vec<u8>,
}

/// A transaction of type 1, with an access list.
#[derive(Clone, Debug, PartialEq, Eq)]
pub struct TxEip2930 {
    pub chain_id: u64,
    pub nonce: u64,
    pub gas_price: u128,
    pub gas_limit: u64,
    pub to: TxKind,
    pub value: U256,
    pub access_list: Vec<AccessListItem>,
    pub input: Vec<u8>,
}

/// A transaction of type 2, with a fee cap and a priority fee.
#[derive(Clone, Debug, PartialEq, Eq)]
pub struct TxEip1559 {
    pub chain_id: u64,
    pub nonce: u64,
    pub gas_limit: u64,
    pub max_fee_per_gas: u128,
    pub max_priority_fee_per_gas: u128,
    pub to: TxKind,
    pub value: U256,
    pub access_list: Vec<AccessListItem>,
    pub input: Vec<u8>,
}

/// An unsigned source-chain transaction.
#[derive(Clone, Debug, PartialEq, Eq)]
pub enum Transaction {
    Legacy(TxLegacy),
    Eip2930(TxEip2930),
    Eip1559(TxEip1559),
}

/// The signature of a transaction: `r`, `s` and the parity of the curve point's y.
#[derive(Clone, Copy, Debug, PartialEq, Eq)]
pub struct Signature {
    pub r: U256,
    pub s: U256,
    pub odd_y_parity: bool,
}

/// A transaction with its signature.
#[derive(Clone, Debug, PartialEq, Eq)]
pub struct TransactionSigned {
    pub transaction: Transaction,
    pub signature: Signature,
}

impl Transaction {
    /// The transaction's nonce.
    pub open spec fn spec_nonce(&self) -> u64 {
        match self {
            Transaction::Legacy(t) => t.nonce,
            Transaction::Eip2930(t) => t.nonce,
            Transaction::Eip1559(t) => t.nonce,
        }
    }

    pub fn nonce(&self) -> (r: u64)
        ensures
            r == self.spec_nonce(),
    {
        match self {
            Transaction::Legacy(t) => t.nonce,
            Transaction::Eip2930(t) => t.nonce,
            Transaction::Eip1559(t) => t.nonce,
        }
    }
}

/// The encoding of a destination.
pub open spec fn rlp_to(to: TxKind) -> Seq<u8> {
    match to {
        TxKind::Create => rlp_bytes(Seq::empty()),
        TxKind::Call(a) => rlp_bytes(a.bytes@),
    }
}

/// The encoded storage keys `ks`, one after another.
pub open spec fn keys_payload(ks: Seq<[u8; 32]>) -> Seq<u8>
    decreases ks.len(),
{
    if ks.len() == 0 {
        Seq::empty()
    } else {
        keys_payload(ks.drop_last()) + rlp_bytes(ks.last()@)
    }
}

/// The encoding of one access list item.
pub open spec fn rlp_access_item(item: AccessListItem) -> Seq<u8> {
    rlp_list(rlp_bytes(item.address.bytes@) + rlp_list(keys_payload(item.storage_keys@)))
}

/// The encoded items of an access list, one after another.
pub open spec fn access_list_payload(l: Seq<AccessListItem>) -> Seq<u8>
    decreases l.len(),
{
    if l.len() == 0 {
        Seq::empty()
    } else {
        access_list_payload(l.drop_last()) + rlp_access_item(l.last())
    }
}

/// The fields of a legacy transaction as it is signed, with the chain id and two
/// zeros at the end when it has a chain id.
pub open spec fn legacy_fields(t: TxLegacy) -> Seq<u8> {
    rlp_u128(t.nonce as nat) + rlp_u128(t.gas_price as nat) + rlp_u128(t.gas_limit as nat)
        + rlp_to(t.to) + rlp_integer(t.value.bytes@) + rlp_bytes(t.input@) + match t.chain_id {
        Some(c) => rlp_u128(c as nat) + rlp_u128(0) + rlp_u128(0),
        None => Seq::empty(),
    }
}

/// The fields of a type 1 transaction, in the order in which they are signed.
pub open spec fn eip2930_fields(t: TxEip2930) -> Seq<u8> {
    rlp_u128(t.chain_id as nat) + rlp_u128(t.nonce as nat) + rlp_u128(t.gas_price as nat)
        + rlp_u128(t.gas_limit as nat) + rlp_to(t.to) + rlp_integer(t.value.bytes@)
        + rlp_bytes(t.input@) + rlp_list(access_list_payload(t.access_list@))
}

/// The fields of a type 2 transaction, in the order in which they are signed.
pub open spec fn eip1559_fields(t: TxEip1559) -> Seq<u8> {
    rlp_u128(t.chain_id as nat) + rlp_u128(t.nonce as nat) + rlp_u128(
        t.max_priority_fee_per_gas as nat,
    ) + rlp_u128(t.max_fee_per_gas as nat) + rlp_u128(t.gas_limit as nat) + rlp_to(t.to)
        + rlp_integer(t.value.bytes@) + rlp_bytes(t.input@) + rlp_list(
        access_list_payload(t.access_list@),
    )
}

/// The bytes whose hash a signer signs: the transaction without its signature,
/// typed transactions behind their type byte.
pub open spec fn unsigned_encoding(tx: Transaction) -> Seq<u8> {
    match tx {
        Transaction::Legacy(t) => rlp_list(legacy_fields(t)),
        Transaction::Eip2930(t) => seq![1u8] + rlp_list(eip2930_fields(t)),
        Transaction::Eip1559(t) => seq![2u8] + rlp_list(eip1559_fields(t)),
    }
}

fn encode_to(to: &TxKind, out: &mut Vec<u8>)
    ensures
        final(out)@ == old(out)@ + rlp_to(*to),
{
    match to {
        TxKind::Create => {
            let empty: Vec<u8> = Vec::new();
            encode_bytes(empty.as_slice(), out);
            assert(empty@ =~= Seq::<u8>::empty());
        },
        TxKind::Call(a) => encode_bytes(a.bytes.as_slice(), out),
    }
}

fn encode_access_item(item: &AccessListItem, out: &mut Vec<u8>)
    ensures
        final(out)@ == old(out)@ + rlp_access_item(*item),
{
    let mut keys: Vec<u8> = Vec::new();
    let mut i: usize = 0;
    while i < item.storage_keys.len()
        invariant
            i <= item.storage_keys@.len(),
            keys@ == keys_payload(item.storage_keys@.subrange(0, i as int)),
        decreases item.storage_keys@.len() - i,
    {
        encode_bytes(item.storage_keys[i].as_slice(), &mut keys);
        proof {
            let ks = item.storage_keys@.subrange(0, i + 1);
            assert(ks.drop_last() =~= item.storage_keys@.subrange(0, i as int));
        }
        i = i + 1;
    }
    assert(item.storage_keys@.subrange(0, i as int) =~= item.storage_keys@);
    let mut payload: Vec<u8> = Vec::new();
    encode_bytes(item.address.bytes.as_slice(), &mut payload);
    encode_list(keys.as_slice(), &mut payload);
    encode_list(payload.as_slice(), out);
    assert(payload@ =~= rlp_bytes(item.address.bytes@) + rlp_list(keys_payload(item.storage_keys@)));
}

fn encode_access_list(l: &Vec<AccessListItem>, out: &mut Vec<u8>)
    ensures
        final(out)@ == old(out)@ + rlp_list(access_list_payload(l@)),
{
    let mut payload: Vec<u8> = Vec::new();
    let mut i: usize = 0;
    while i < l.len()
        invariant
            i <= l@.len(),
            payload@ == access_list_payload(l@.subrange(0, i as int)),
        decreases l@.len() - i,
    {
        encode_access_item(&l[i], &mut payload);
        proof {
            let s = l@.subrange(0, i + 1);
            assert(s.drop_last() =~= l@.subrange(0, i as int));
        }
        i = i + 1;
    }
    assert(l@.subrange(0, i as int) =~= l@);
    encode_list(payload.as_slice(), out);
}

/// Appends the canonical unsigned encoding of `tx`: the bytes that are hashed to
/// sign it, with no signature fields.
pub fn encode_without_signature(tx: &Transaction, out: &mut Vec<u8>)
    ensures
        final(out)@ == old(out)@ + unsigned_encoding(*tx),
{
    let mut f: Vec<u8> = Vec::new();
    match tx {
        Transaction::Legacy(t) => {
            encode_u128(t.nonce as u128, &mut f);
            encode_u128(t.gas_price, &mut f);
            encode_u128(t.gas_limit as u128, &mut f);
            encode_to(&t.to, &mut f);
            encode_integer(t.value.bytes.as_slice(), &mut f);
            encode_bytes(t.input.as_slice(), &mut f);
            match t.chain_id {
                Some(c) => {
                    encode_u128(c as u128, &mut f);
                    encode_u128(0, &mut f);
                    encode_u128(0, &mut f);
                },
                None => {},
            }
            assert(f@ =~= legacy_fields(*t));
            encode_list(f.as_slice(), out);
        },
        Transaction::Eip2930(t) => {
            encode_u128(t.chain_id as u128, &mut f);
            encode_u128(t.nonce as u128, &mut f);
            encode_u128(t.gas_price, &mut f);
            encode_u128(t.gas_limit as u128, &mut f);
            encode_to(&t.to, &mut f);
            encode_integer(t.value.bytes.as_slice(), &mut f);
            encode_bytes(t.input.as_slice(), &mut f);
            encode_access_list(&t.access_list, &mut f);
            assert(f@ =~= eip2930_fields(*t));
            out.push(1u8);
            encode_list(f.as_slice(), out);
        },
        Transaction::Eip1559(t) => {
            encode_u128(t.chain_id as u128, &mut f);
            encode_u128(t.nonce as u128, &mut f);
            encode_u128(t.max_priority_fee_per_gas, &mut f);
            encode_u128(t.max_fee_per_gas, &mut f);
            encode_u128(t.gas_limit as u128, &mut f);
            encode_to(&t.to, &mut f);
            encode_integer(t.value.bytes.as_slice(), &mut f);
            encode_bytes(t.input.as_slice(), &mut f);
            encode_access_list(&t.access_list, &mut f);
            assert(f@ =~= eip1559_fields(*t));
            out.push(2u8);
            encode_list(f.as_slice(), out);
        },
    }
    assert(final(out)@ =~= old(out)@ + unsigned_encoding(*tx));
}

} // verus!
