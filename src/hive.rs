//! Materialization of a source-chain genesis allocation as target-chain
//! contract states: one proxy account per allocated address, the coordinator's
//! reverse lookup table, and fee-token allowances.

use crate::bytes::{be_value, lemma_pow256_16, lemma_pow256_add, pow256};
use crate::felt::{address_bound, felt_add, field_prime, is_ascii_text, storage_var_address, storage_var_address_of, Felt};
use crate::kakarot_core::{starknet_address, starknet_address_of, KakarotConfig};
use crate::limbs::{from_limbs, limb_base, limbs_of, split_u256, U256};
use crate::transaction::Address;
use vstd::prelude::*;

verus! {

/// How the account model classifies an allocated account.
#[derive(Clone, Copy, Debug, PartialEq, Eq)]
pub enum AccountType {
    Eoa,
    Contract,
}

/// What the account model derives for an allocated account: its classification
/// and the low-level storage it needs, such as its code.
#[derive(Clone, Debug, PartialEq, Eq)]
pub struct AccountModel {
    pub account_type: AccountType,
    pub storage: Vec<(Felt, Felt)>,
}

/// The allocation of one account: its balance, code and storage.
#[derive(Clone, Debug, PartialEq, Eq)]
pub struct AccountInfo {
    pub balance: U256,
    pub code: Vec<u8>,
    pub storage: Vec<(U256, U256)>,
}

/// One allocated account, its address as the raw bytes that were read.
#[derive(Clone, Debug, PartialEq, Eq)]
pub struct GenesisAccount {
    pub address: Vec<u8>,
    pub info: AccountInfo,
}

/// A source-chain genesis allocation, in the order in which it was given.
#[derive(Clone, Debug, PartialEq, Eq)]
pub struct HiveGenesisConfig {
    pub alloc: Vec<GenesisAccount>,
}

/// The target-chain state of one account.
#[derive(Clone, Debug, PartialEq, Eq)]
pub struct GenesisContract {
    pub class_hash: Felt,
    pub balance: U256,
    pub storage: Vec<(Felt, Felt)>,
}

/// What a genesis allocation adds to the target chain: storage of the coordinator,
/// storage of the fee token, and one contract per account.
#[derive(Clone, Debug, PartialEq, Eq)]
pub struct GenesisState {
    pub kakarot_storage: Vec<(Felt, Felt)>,
    pub fee_token_storage: Vec<(Felt, Felt)>,
    pub contracts: Vec<(Felt, GenesisContract)>,
}

/// Why a genesis allocation was refused as a whole.
#[derive(Clone, Copy, Debug, PartialEq, Eq)]
pub enum GenesisError {
    /// The account at this position has an address that is not 20 bytes long.
    InvalidAddress(usize),
    /// The account models do not match the allocation one for one.
    AccountModelMismatch,
}

/// The values of storage slots, keys and contents.
pub open spec fn slot_values(s: Seq<(Felt, Felt)>) -> Seq<(nat, nat)> {
    s.map_values(|p: (Felt, Felt)| (p.0.value(), p.1.value()))
}

/// The address of a storage variable without keys.
pub open spec fn var_address(name: Seq<char>) -> nat {
    storage_var_address_of(name, Seq::empty())
}

/// The two slots that hold the value `v` of the source-chain storage key `k`: the
/// variable `storage_` at the limbs of `k`, low limb first, high limb next.
pub open spec fn evm_slot_pair(k: U256, v: U256) -> Seq<(nat, nat)> {
    let key = storage_var_address_of("storage_"@, seq![limbs_of(k.value()).0, limbs_of(k.value()).1]);
    seq![(key, limbs_of(v.value()).0), (key + 1, limbs_of(v.value()).1)]
}

/// The slots of a source-chain storage, pair by pair.
pub open spec fn evm_storage_slots(s: Seq<(U256, U256)>) -> Seq<(nat, nat)>
    decreases s.len(),
{
    if s.len() == 0 {
        Seq::empty()
    } else {
        evm_storage_slots(s.drop_last()) + evm_slot_pair(s.last().0, s.last().1)
    }
}

/// The slots that tie an account to its implementation; a contract account also
/// names the coordinator as its owner.
pub open spec fn type_slots(config: KakarotConfig, t: AccountType) -> Seq<(nat, nat)> {
    match t {
        AccountType::Contract => seq![
            (var_address("_implementation"@), config.contract_account_class_hash.value()),
            (var_address("Ownable_owner"@), config.kakarot_address.value()),
        ],
        AccountType::Eoa => seq![(var_address("_implementation"@), config.externally_owned_account_class_hash.value())],
    }
}

/// The whole storage of an account's contract.
pub open spec fn account_storage(config: KakarotConfig, info: AccountInfo, model: AccountModel) -> Seq<(nat, nat)> {
    slot_values(model.storage@) + evm_storage_slots(info.storage@) + type_slots(config, model.account_type)
        + seq![(var_address("kakarot_address"@), config.kakarot_address.value())]
}

/// The target-chain address of an allocated account.
pub open spec fn account_address(config: KakarotConfig, a: GenesisAccount) -> nat {
    starknet_address_of(config, be_value(a.address@))
}

/// The coordinator's reverse lookup entry of an account.
pub open spec fn lookup_slot(config: KakarotConfig, a: GenesisAccount) -> (nat, nat) {
    (
        storage_var_address_of("evm_to_starknet_address"@, seq![be_value(a.address@)]),
        account_address(config, a),
    )
}

pub open spec fn lookup_slots(config: KakarotConfig, accts: Seq<GenesisAccount>) -> Seq<(nat, nat)>
    decreases accts.len(),
{
    if accts.len() == 0 {
        Seq::empty()
    } else {
        lookup_slots(config, accts.drop_last()).push(lookup_slot(config, accts.last()))
    }
}

/// The fee-token slots that let the coordinator spend the largest amount from an
/// account: both limbs of the allowance are 2^128 - 1.
pub open spec fn allowance_slots(config: KakarotConfig, a: GenesisAccount) -> Seq<(nat, nat)> {
    let key = storage_var_address_of(
        "ERC20_allowances"@,
        seq![account_address(config, a), config.kakarot_address.value()],
    );
    seq![(key, u128::MAX as nat), (key + 1, u128::MAX as nat)]
}

pub open spec fn all_allowance_slots(config: KakarotConfig, accts: Seq<GenesisAccount>) -> Seq<(nat, nat)>
    decreases accts.len(),
{
    if accts.len() == 0 {
        Seq::empty()
    } else {
        all_allowance_slots(config, accts.drop_last()) + allowance_slots(config, accts.last())
    }
}

/// The contract that an allocated account becomes.
pub open spec fn is_account_contract(
    config: KakarotConfig,
    a: GenesisAccount,
    model: AccountModel,
    c: (Felt, GenesisContract),
) -> bool {
    &&& c.0.value() == account_address(config, a)
    &&& c.1.class_hash == config.proxy_account_class_hash
    &&& c.1.balance == a.info.balance
    &&& slot_values(c.1.storage@) == account_storage(config, a.info, model)
}

/// Storage slots whose keys and contents are field elements.
pub open spec fn slots_wf(s: Seq<(Felt, Felt)>) -> bool {
    forall|i: int| 0 <= i < s.len() ==> (#[trigger] s[i]).0.wf() && s[i].1.wf()
}

/// The element after `key`, a storage address.
fn next_slot(key: Felt) -> (r: Felt)
    requires
        key.value() < address_bound(),
    ensures
        r.wf(),
        r.value() == key.value() + 1,
{
    proof {
        crate::felt::lemma_address_bound_below_prime();
        assert((key.value() + 1) % field_prime() == key.value() + 1) by (nonlinear_arith)
            requires
                key.value() + 1 < field_prime(),
        ;
    }
    felt_add(key, Felt::from_byte(1))
}

fn push_slot(s: &mut Vec<(Felt, Felt)>, key: Felt, value: Felt)
    requires
        slots_wf(old(s)@),
        key.wf(),
        value.wf(),
    ensures
        slots_wf(final(s)@),
        slot_values(final(s)@) == slot_values(old(s)@).push((key.value(), value.value())),
{
    s.push((key, value));
    assert(slot_values(final(s)@) =~= slot_values(old(s)@).push((key.value(), value.value())));
}

/// The storage of the contract of an account.
fn account_storage_of(config: &KakarotConfig, info: &AccountInfo, model: &AccountModel) -> (r: Vec<(Felt, Felt)>)
    requires
        config.wf(),
        slots_wf(model.storage@),
    ensures
        slots_wf(r@),
        slot_values(r@) == account_storage(*config, *info, *model),
{
    let mut s: Vec<(Felt, Felt)> = Vec::new();
    let mut i: usize = 0;
    while i < model.storage.len()
        invariant
            i <= model.storage@.len(),
            slots_wf(model.storage@),
            slots_wf(s@),
            slot_values(s@) == slot_values(model.storage@.subrange(0, i as int)),
        decreases model.storage@.len() - i,
    {
        let p = model.storage[i];
        push_slot(&mut s, p.0, p.1);
        i = i + 1;
        assert(slot_values(model.storage@.subrange(0, i as int)) =~= slot_values(
            model.storage@.subrange(0, i - 1),
        ).push((p.0.value(), p.1.value())));
    }
    assert(model.storage@.subrange(0, i as int) =~= model.storage@);
    let ghost base = slot_values(s@);
    proof {
        reveal_strlit("storage_");
    }
    let mut j: usize = 0;
    while j < info.storage.len()
        invariant
            j <= info.storage@.len(),
            slots_wf(s@),
            slot_values(s@) == base + evm_storage_slots(info.storage@.subrange(0, j as int)),
            is_ascii_text("storage_"@),
        decreases info.storage@.len() - j,
    {
        let (k, v) = info.storage[j];
        let (k_lo, k_hi) = split_u256(k);
        let keys = vec![k_lo, k_hi];
        let key = storage_var_address("storage_", keys.as_slice());
        assert(crate::felt::felt_values(keys@) =~= seq![k_lo.value(), k_hi.value()]);
        let (v_lo, v_hi) = split_u256(v);
        push_slot(&mut s, key, v_lo);
        push_slot(&mut s, next_slot(key), v_hi);
        proof {
            let t = info.storage@.subrange(0, j + 1);
            assert(t.drop_last() =~= info.storage@.subrange(0, j as int));
        }
        j = j + 1;
    }
    assert(info.storage@.subrange(0, j as int) =~= info.storage@);
    proof {
        reveal_strlit("_implementation");
        reveal_strlit("Ownable_owner");
        reveal_strlit("kakarot_address");
    }
    let no_keys: Vec<Felt> = Vec::new();
    assert(crate::felt::felt_values(no_keys@) =~= Seq::<nat>::empty());
    let implementation_key = storage_var_address("_implementation", no_keys.as_slice());
    match model.account_type {
        AccountType::Contract => {
            push_slot(&mut s, implementation_key, config.contract_account_class_hash);
            let owner_key = storage_var_address("Ownable_owner", no_keys.as_slice());
            push_slot(&mut s, owner_key, config.kakarot_address);
        },
        AccountType::Eoa => {
            push_slot(&mut s, implementation_key, config.externally_owned_account_class_hash);
        },
    }
    let kakarot_key = storage_var_address("kakarot_address", no_keys.as_slice());
    push_slot(&mut s, kakarot_key, config.kakarot_address);
    assert(slot_values(s@) =~= account_storage(*config, *info, *model));
    s
}

/// The address of an account, if its bytes are 20 long.
fn address_of_bytes(b: &Vec<u8>) -> (r: Address)
    requires
        b@.len() == 20,
    ensures
        r.bytes@ == b@,
{
    let mut bytes = [0u8; 20];
    let mut i: usize = 0;
    while i < 20
        invariant
            i <= 20,
            b@.len() == 20,
            bytes@.len() == 20,
            forall|j: int| 0 <= j < i ==> bytes@[j] == b@[j],
        decreases 20 - i,
    {
        bytes[i] = b[i];
        i = i + 1;
    }
    assert(bytes@ =~= b@);
    Address { bytes }
}

impl HiveGenesisConfig {
    /// All accounts have 20-byte addresses.
    pub open spec fn addresses_valid(&self) -> bool {
        forall|i: int| 0 <= i < self.alloc@.len() ==> (#[trigger] self.alloc@[i]).address@.len() == 20
    }

    /// Materializes the allocation as target-chain state; `models` holds what the
    /// account model derived for each account, in the same order. Any account with a
    /// malformed address refuses the whole allocation.
    pub fn try_into_genesis_json(&self, config: &KakarotConfig, models: &Vec<AccountModel>) -> (r: Result<GenesisState, GenesisError>)
        requires
            config.wf(),
            forall|i: int| 0 <= i < models@.len() ==> slots_wf((#[trigger] models@[i]).storage@),
        ensures
            r is Err <==> (models@.len() != self.alloc@.len() || !self.addresses_valid()),
            models@.len() != self.alloc@.len() ==> r matches Err(GenesisError::AccountModelMismatch),
            r matches Err(GenesisError::InvalidAddress(i)) ==> {
                &&& i < self.alloc@.len()
                &&& self.alloc@[i as int].address@.len() != 20
                &&& forall|j: int| 0 <= j < i ==> (#[trigger] self.alloc@[j]).address@.len() == 20
            },
            r matches Ok(g) ==> {
                &&& g.contracts@.len() == self.alloc@.len()
                &&& forall|i: int| 0 <= i < g.contracts@.len()
                    ==> is_account_contract(*config, self.alloc@[i], models@[i], #[trigger] g.contracts@[i])
                &&& slot_values(g.kakarot_storage@) == lookup_slots(*config, self.alloc@)
                &&& slot_values(g.fee_token_storage@) == all_allowance_slots(*config, self.alloc@)
            },
    {
        let n = self.alloc.len();
        if models.len() != n {
            return Err(GenesisError::AccountModelMismatch);
        }
        let mut i: usize = 0;
        while i < n
            invariant
                i <= n,
                n == self.alloc@.len(),
                n == models@.len(),
                forall|j: int| 0 <= j < i ==> (#[trigger] self.alloc@[j]).address@.len() == 20,
            decreases n - i,
        {
            if self.alloc[i].address.len() != 20 {
                return Err(GenesisError::InvalidAddress(i));
            }
            i = i + 1;
        }
        proof {
            reveal_strlit("evm_to_starknet_address");
            reveal_strlit("ERC20_allowances");
        }
        let mut kakarot_storage: Vec<(Felt, Felt)> = Vec::new();
        let mut fee_token_storage: Vec<(Felt, Felt)> = Vec::new();
        let mut contracts: Vec<(Felt, GenesisContract)> = Vec::new();
        let max_limb = Felt::from_u128(u128::MAX);
        let mut i: usize = 0;
        while i < n
            invariant
                i <= n,
                n == self.alloc@.len(),
                n == models@.len(),
                config.wf(),
                self.addresses_valid(),
                forall|j: int| 0 <= j < models@.len() ==> slots_wf((#[trigger] models@[j]).storage@),
                is_ascii_text("evm_to_starknet_address"@),
                is_ascii_text("ERC20_allowances"@),
                max_limb.wf(),
                max_limb.value() == u128::MAX,
                slots_wf(kakarot_storage@),
                slots_wf(fee_token_storage@),
                contracts@.len() == i,
                forall|j: int| 0 <= j < i ==> is_account_contract(*config, self.alloc@[j], models@[j], #[trigger] contracts@[j]),
                slot_values(kakarot_storage@) == lookup_slots(*config, self.alloc@.subrange(0, i as int)),
                slot_values(fee_token_storage@) == all_allowance_slots(*config, self.alloc@.subrange(0, i as int)),
            decreases n - i,
        {
            let account = &self.alloc[i];
            assert(account.address@.len() == 20);
            let address = address_of_bytes(&account.address);
            let evm_address = address.to_felt();
            let target = starknet_address(address, config);

            let lookup_keys = vec![evm_address];
            assert(crate::felt::felt_values(lookup_keys@) =~= seq![evm_address.value()]);
            let lookup_key = storage_var_address("evm_to_starknet_address", lookup_keys.as_slice());
            push_slot(&mut kakarot_storage, lookup_key, target);

            let allowance_keys = vec![target, config.kakarot_address];
            assert(crate::felt::felt_values(allowance_keys@) =~= seq![target.value(), config.kakarot_address.value()]);
            let allowance_key = storage_var_address("ERC20_allowances", allowance_keys.as_slice());
            push_slot(&mut fee_token_storage, allowance_key, max_limb);
            push_slot(&mut fee_token_storage, next_slot(allowance_key), max_limb);

            let storage = account_storage_of(config, &account.info, &models[i]);
            let contract = GenesisContract {
                class_hash: config.proxy_account_class_hash,
                balance: account.info.balance,
                storage,
            };
            contracts.push((target, contract));
            proof {
                let t = self.alloc@.subrange(0, i + 1);
                assert(t.drop_last() =~= self.alloc@.subrange(0, i as int));
                assert(t.last() == self.alloc@[i as int]);
            }
            i = i + 1;
        }
        assert(self.alloc@.subrange(0, n as int) =~= self.alloc@);
        Ok(GenesisState { kakarot_storage, fee_token_storage, contracts })
    }
}

/// The two slots that an allocated storage pair `(k, v)` becomes hold the limbs of
/// `v`, which join back into `v`; the allowance granted to the coordinator joins
/// into the largest 256-bit value.
pub proof fn lemma_genesis_slots_recombine(config: KakarotConfig, a: GenesisAccount, k: U256, v: U256)
    ensures
        evm_storage_slots(seq![(k, v)]).len() == 2,
        evm_storage_slots(seq![(k, v)])[1].0 == evm_storage_slots(seq![(k, v)])[0].0 + 1,
        from_limbs(evm_storage_slots(seq![(k, v)])[0].1, evm_storage_slots(seq![(k, v)])[1].1) == v.value(),
        allowance_slots(config, a)[1].0 == allowance_slots(config, a)[0].0 + 1,
        from_limbs(allowance_slots(config, a)[0].1, allowance_slots(config, a)[1].1) == pow256(32) - 1,
{
    let s = seq![(k, v)];
    assert(s.drop_last() =~= Seq::<(U256, U256)>::empty());
    assert(s.last() == (k, v));
    assert(evm_storage_slots(Seq::<(U256, U256)>::empty()) =~= Seq::empty());
    assert(evm_storage_slots(s) =~= evm_slot_pair(k, v));
    lemma_pow256_16();
    lemma_pow256_add(16, 16);
    let b = limb_base() as int;
    let x = v.value() as int;
    assert(x == (x / b) * b + x % b) by (nonlinear_arith)
        requires
            b > 0,
    ;
    let m = u128::MAX as int;
    assert(m + m * (m + 1) == (m + 1) * (m + 1) - 1) by (nonlinear_arith);
}

} // verus!
