//! Field elements of the target chain, held as their 32 big-endian bytes,
//! and the outside hash functions that produce them.

use crate::bytes::{be_fixed, be_value, lemma_be_fixed_value, lemma_be_value_zeros_prefix, lemma_pow256_16, lemma_pow256_monotonic, pow256, u128_be_bytes, zeros};
use starknet_crypto::FieldElement;
use vstd::prelude::*;

verus! {

/// The prime modulus of the target field: 2^251 + 17 * 2^192 + 1.
pub open spec fn field_prime() -> nat {
    8 * pow256(31) + 17 * pow256(24) + 1
}

/// Every contract address and storage address lies below this bound, 2^251 - 256.
pub open spec fn address_bound() -> nat {
    (8 * pow256(31) - 256) as nat
}

/// A text of ASCII characters only.
pub open spec fn is_ascii_text(s: Seq<char>) -> bool {
    forall|i: int| 0 <= i < s.len() ==> (#[trigger] s[i]) < '\u{80}'
}

/// A character that is a hexadecimal digit.
pub open spec fn is_hex_char(c: char) -> bool {
    ('0' <= c <= '9') || ('a' <= c <= 'f') || ('A' <= c <= 'F')
}

/// A target-chain field element, as its canonical 32 big-endian bytes.
#[derive(Clone, Copy, Debug, PartialEq, Eq, Hash)]
pub struct Felt {
    pub bytes: [u8; 32],
}

impl Felt {
    /// The number this element stands for.
    pub open spec fn value(self) -> nat {
        be_value(self.bytes@)
    }

    /// The bytes denote a number below the field's modulus.
    pub open spec fn wf(self) -> bool {
        self.value() < field_prime()
    }

    /// The element whose value is `x`.
    pub fn from_u128(x: u128) -> (r: Felt)
        ensures
            r.wf(),
            r.value() == x,
            r.bytes@ == zeros(16) + be_fixed(x as nat, 16),
    {
        let b = u128_be_bytes(x);
        let mut bytes = [0u8; 32];
        let mut i: usize = 0;
        while i < 16
            invariant
                i <= 16,
                b@ == be_fixed(x as nat, 16),
                forall|j: int| 0 <= j < 16 ==> bytes@[j] == 0u8,
                forall|j: int| 16 <= j < 16 + i ==> bytes@[j] == b@[j - 16],
                forall|j: int| 16 + i <= j < 32 ==> bytes@[j] == 0u8,
                bytes@.len() == 32,
            decreases 16 - i,
        {
            bytes[16 + i] = b[i];
            i = i + 1;
        }
        assert(bytes@ =~= zeros(16) + b@);
        proof {
            lemma_pow256_16();
            lemma_pow256_monotonic(16, 31);
            lemma_be_fixed_value(x as nat, 16);
            lemma_be_value_zeros_prefix(16, b@);
        }
        Felt { bytes }
    }

    /// The element whose value is `x`.
    pub fn from_u64(x: u64) -> (r: Felt)
        ensures
            r.wf(),
            r.value() == x,
    {
        Felt::from_u128(x as u128)
    }

    /// The element whose value is the byte `x`.
    pub fn from_byte(x: u8) -> (r: Felt)
        ensures
            r.wf(),
            r.value() == x,
    {
        Felt::from_u128(x as u128)
    }
}

/// Storage and contract addresses lie below the field's modulus.
pub proof fn lemma_address_bound_below_prime()
    ensures
        address_bound() < field_prime(),
        address_bound() + 1 < field_prime(),
{
    lemma_pow256_monotonic(1, 31);
    reveal_with_fuel(pow256, 2);
}

/// The values of a sequence of field elements.
pub open spec fn felt_values(s: Seq<Felt>) -> Seq<nat> {
    s.map_values(|f: Felt| f.value())
}

/// The address at which a contract of class `class_hash`, deployed by `deployer`
/// with salt `salt` and no constructor arguments, comes to stand.
pub uninterp spec fn contract_address_of(salt: nat, class_hash: nat, deployer: nat) -> nat;

/// The address of the storage variable `name` at the keys `args`.
pub uninterp spec fn storage_var_address_of(name: Seq<char>, args: Seq<nat>) -> nat;

/// The entry point selector of the function named `name`.
pub uninterp spec fn selector_of(name: Seq<char>) -> nat;

/// `s` without its leading `0x` prefixes, however many there are.
pub open spec fn trim_hex_prefix(s: Seq<char>) -> Seq<char>
    decreases s.len(),
{
    if s.len() >= 2 && s[0] == '0' && s[1] == 'x' {
        trim_hex_prefix(s.skip(2))
    } else {
        s
    }
}

/// The value of a hexadecimal digit.
pub open spec fn hex_char_value(c: char) -> nat {
    if '0' <= c <= '9' {
        (c as u32 - '0' as u32) as nat
    } else if 'a' <= c <= 'f' {
        (c as u32 - 'a' as u32 + 10) as nat
    } else {
        (c as u32 - 'A' as u32 + 10) as nat
    }
}

/// The number that a string of hexadecimal digits denotes.
pub open spec fn hex_chars_value(s: Seq<char>) -> nat
    decreases s.len(),
{
    if s.len() == 0 {
        0
    } else {
        hex_chars_value(s.drop_last()) * 16 + hex_char_value(s.last())
    }
}

/// The field element that a hexadecimal text reads as, if any: after its leading
/// `0x` prefixes, at most 64 hexadecimal digits (none reads as zero) whose value
/// lies below the field's modulus.
pub open spec fn felt_from_hex_text(s: Seq<char>) -> Option<nat> {
    let d = trim_hex_prefix(s);
    if d.len() <= 64 && (forall|i: int| 0 <= i < d.len() ==> is_hex_char(#[trigger] d[i]))
        && hex_chars_value(d) < field_prime() {
        Some(hex_chars_value(d))
    } else {
        None
    }
}

/// A character of `s` that is neither `0` nor `x` survives the trimming of prefixes.
pub proof fn lemma_trim_hex_prefix_keeps(s: Seq<char>, i: int) -> (j: int)
    requires
        0 <= i < s.len(),
        s[i] != '0',
        s[i] != 'x',
    ensures
        0 <= j < trim_hex_prefix(s).len(),
        trim_hex_prefix(s)[j] == s[i],
    decreases s.len(),
{
    if s.len() >= 2 && s[0] == '0' && s[1] == 'x' {
        assert(s.skip(2)[i - 2] == s[i]);
        lemma_trim_hex_prefix_keeps(s.skip(2), i - 2)
    } else {
        i
    }
}

/// Relies on starknet::core::utils::get_contract_address with an empty constructor
/// calldata: a hash of deployer, salt and class hash, reduced modulo 2^251 - 256.
#[verifier::external_body]
pub(crate) fn contract_address(salt: Felt, class_hash: Felt, deployer: Felt) -> (r: Felt)
    requires
        salt.wf(),
        class_hash.wf(),
        deployer.wf(),
    ensures
        r.value() == contract_address_of(salt.value(), class_hash.value(), deployer.value()),
        r.value() < address_bound(),
        r.wf(),
{
    let salt = FieldElement::from_bytes_be(&salt.bytes).unwrap();
    let class_hash = FieldElement::from_bytes_be(&class_hash.bytes).unwrap();
    let deployer = FieldElement::from_bytes_be(&deployer.bytes).unwrap();
    Felt { bytes: starknet::core::utils::get_contract_address(salt, class_hash, &[], deployer).to_bytes_be() }
}

/// Relies on starknet::core::utils::get_storage_var_address: for an ASCII name, the
/// keccak of the name chained with the keys through Pedersen, reduced modulo 2^251 - 256.
#[verifier::external_body]
pub(crate) fn storage_var_address(name: &str, args: &[Felt]) -> (r: Felt)
    requires
        is_ascii_text(name@),
        forall|i: int| 0 <= i < args@.len() ==> (#[trigger] args@[i]).wf(),
    ensures
        r.value() == storage_var_address_of(name@, felt_values(args@)),
        r.value() < address_bound(),
        r.wf(),
{
    let args: Vec<FieldElement> = args.iter().map(|f| FieldElement::from_bytes_be(&f.bytes).unwrap()).collect();
    Felt { bytes: starknet::core::utils::get_storage_var_address(name, &args).unwrap().to_bytes_be() }
}

/// Relies on starknet::core::utils::get_selector_from_name: for an ASCII name, a field
/// element derived from the name alone.
#[verifier::external_body]
pub(crate) fn selector_from_name(name: &str) -> (r: Felt)
    requires
        is_ascii_text(name@),
    ensures
        r.value() == selector_of(name@),
        r.wf(),
{
    Felt { bytes: starknet::core::utils::get_selector_from_name(name).unwrap().to_bytes_be() }
}

/// Relies on `+` of starknet_ff::FieldElement: addition modulo the field's prime.
#[verifier::external_body]
pub(crate) fn felt_add(a: Felt, b: Felt) -> (r: Felt)
    requires
        a.wf(),
        b.wf(),
    ensures
        r.wf(),
        r.value() == (a.value() + b.value()) % field_prime(),
{
    let a = FieldElement::from_bytes_be(&a.bytes).unwrap();
    let b = FieldElement::from_bytes_be(&b.bytes).unwrap();
    Felt { bytes: (a + b).to_bytes_be() }
}

/// Relies on starknet_ff::FieldElement::from_hex_be: it strips leading "0x" prefixes,
/// left-pads at most 64 hexadecimal digits to 64 and reads them big-endian, failing
/// on any other character, on more digits, or on a value out of the field.
#[verifier::external_body]
pub(crate) fn felt_from_hex(s: &str) -> (r: Option<Felt>)
    ensures
        r matches Some(f) ==> f.wf() && felt_from_hex_text(s@) == Some(f.value()),
        r is None <==> felt_from_hex_text(s@) is None,
{
    FieldElement::from_hex_be(s).ok().map(|f| Felt { bytes: f.to_bytes_be() })
}

} // verus!
