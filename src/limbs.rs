//! 256-bit unsigned integers and their split into two 128-bit limbs, each of
//! which fits in a field element.

use crate::bytes::{be_value, lemma_be_value_bound, lemma_be_value_concat, lemma_be_value_injective, lemma_be_value_zeros_prefix, lemma_pow256_16, lemma_pow256_monotonic, pow256, zeros};
use crate::felt::Felt;
use vstd::arithmetic::div_mod::lemma_fundamental_div_mod_converse;
use vstd::prelude::*;

verus! {

/// A 256-bit unsigned integer, as its 32 big-endian bytes.
#[derive(Clone, Copy, Debug, PartialEq, Eq, Hash)]
pub struct U256 {
    pub bytes: [u8; 32],
}

impl U256 {
    /// The number this integer stands for.
    pub open spec fn value(self) -> nat {
        be_value(self.bytes@)
    }

    /// The integer 2^256 - 1.
    pub fn max_value() -> (r: U256)
        ensures
            r.value() == pow256(32) - 1,
            forall|i: int| 0 <= i < 32 ==> r.bytes@[i] == 0xffu8,
    {
        let r = U256 { bytes: [0xffu8; 32] };
        proof {
            lemma_all_ff_value(r.bytes@);
        }
        r
    }
}

proof fn lemma_all_ff_value(s: Seq<u8>)
    requires
        forall|i: int| 0 <= i < s.len() ==> s[i] == 0xffu8,
    ensures
        be_value(s) == pow256(s.len()) - 1,
    decreases s.len(),
{
    if s.len() > 0 {
        lemma_all_ff_value(s.drop_last());
    }
}

/// The 128-bit base of the limbs.
pub open spec fn limb_base() -> nat {
    pow256(16)
}

/// The low and the high limb of `v`.
pub open spec fn limbs_of(v: nat) -> (nat, nat) {
    (v % limb_base(), v / limb_base())
}

/// The number whose low limb is `lo` and whose high limb is `hi`.
pub open spec fn from_limbs(lo: nat, hi: nat) -> nat {
    lo + hi * limb_base()
}

/// A field element whose value is `x`, stored in the low half of its bytes.
fn felt_of_half(src: &[u8; 32], start: usize) -> (r: Felt)
    requires
        start == 0 || start == 16,
    ensures
        r.bytes@ == zeros(16) + src@.subrange(start as int, start + 16),
        r.value() == be_value(src@.subrange(start as int, start + 16)),
        r.value() < limb_base(),
        r.wf(),
{
    let mut bytes = [0u8; 32];
    let mut i: usize = 0;
    while i < 16
        invariant
            i <= 16,
            start == 0 || start == 16,
            bytes@.len() == 32,
            forall|j: int| 0 <= j < 16 ==> bytes@[j] == 0u8,
            forall|j: int| 16 <= j < 16 + i ==> bytes@[j] == src@[start + j - 16],
            forall|j: int| 16 + i <= j < 32 ==> bytes@[j] == 0u8,
        decreases 16 - i,
    {
        bytes[16 + i] = src[start + i];
        i = i + 1;
    }
    proof {
        let part = src@.subrange(start as int, start + 16);
        assert(bytes@ =~= zeros(16) + part);
        lemma_be_value_zeros_prefix(16, part);
        lemma_be_value_bound(part);
        lemma_pow256_monotonic(16, 31);
    }
    Felt { bytes }
}

/// Splits `v` into its low and its high 128-bit limb, each a field element.
pub fn split_u256(v: U256) -> (r: (Felt, Felt))
    ensures
        r.0.wf(),
        r.1.wf(),
        (r.0.value(), r.1.value()) == limbs_of(v.value()),
        r.0.bytes@ == zeros(16) + v.bytes@.subrange(16, 32),
        r.1.bytes@ == zeros(16) + v.bytes@.subrange(0, 16),
{
    let lo = felt_of_half(&v.bytes, 16);
    let hi = felt_of_half(&v.bytes, 0);
    proof {
        let a = v.bytes@.subrange(0, 16);
        let b = v.bytes@.subrange(16, 32);
        assert(v.bytes@ =~= a + b);
        lemma_be_value_concat(a, b);
        lemma_fundamental_div_mod_converse(v.value() as int, limb_base() as int, hi.value() as int, lo.value() as int);
    }
    (lo, hi)
}

/// Joins a low and a high 128-bit limb back into a 256-bit integer.
pub fn combine_u256(lo: Felt, hi: Felt) -> (r: U256)
    requires
        lo.value() < limb_base(),
        hi.value() < limb_base(),
    ensures
        r.value() == from_limbs(lo.value(), hi.value()),
{
    proof {
        lemma_high_half_zero(lo);
        lemma_high_half_zero(hi);
    }
    let mut bytes = [0u8; 32];
    let mut i: usize = 0;
    while i < 16
        invariant
            i <= 16,
            bytes@.len() == 32,
            forall|j: int| 0 <= j < i ==> bytes@[j] == hi.bytes@[j + 16],
            forall|j: int| 16 <= j < 16 + i ==> bytes@[j] == lo.bytes@[j],
        decreases 16 - i,
    {
        bytes[i] = hi.bytes[16 + i];
        bytes[16 + i] = lo.bytes[16 + i];
        i = i + 1;
    }
    proof {
        let a = hi.bytes@.subrange(16, 32);
        let b = lo.bytes@.subrange(16, 32);
        assert(bytes@ =~= a + b);
        lemma_be_value_concat(a, b);
        assert(hi.bytes@ =~= zeros(16) + a);
        assert(lo.bytes@ =~= zeros(16) + b);
        lemma_be_value_zeros_prefix(16, a);
        lemma_be_value_zeros_prefix(16, b);
    }
    U256 { bytes }
}

/// A field element below 2^128 has sixteen leading zero bytes.
proof fn lemma_high_half_zero(f: Felt)
    requires
        f.value() < limb_base(),
    ensures
        forall|j: int| 0 <= j < 16 ==> f.bytes@[j] == 0u8,
{
    let a = f.bytes@.subrange(0, 16);
    let b = f.bytes@.subrange(16, 32);
    assert(f.bytes@ =~= a + b);
    lemma_be_value_concat(a, b);
    lemma_be_value_bound(b);
    assert(be_value(a) == 0) by (nonlinear_arith)
        requires
            be_value(a) * limb_base() + be_value(b) < limb_base(),
    ;
    lemma_be_value_zeros_prefix(16, Seq::empty());
    assert(zeros(16) + Seq::<u8>::empty() =~= zeros(16));
    lemma_be_value_injective(a, zeros(16));
    assert forall|j: int| 0 <= j < 16 implies f.bytes@[j] == 0u8 by {
        assert(f.bytes@[j] == a[j]);
    }
}

/// Joining the two limbs of any 256-bit integer gives that integer back: an
/// integer whose value is made of the limbs of `v` is `v` itself.
pub proof fn lemma_combine_split(v: U256, w: U256)
    requires
        w.value() == from_limbs(limbs_of(v.value()).0, limbs_of(v.value()).1),
    ensures
        w == v,
{
    lemma_pow256_16();
    let b = limb_base() as int;
    let x = v.value() as int;
    assert(x == (x / b) * b + x % b) by (nonlinear_arith)
        requires
            b > 0,
    ;
    lemma_be_value_injective(w.bytes@, v.bytes@);
    assert(w.bytes =~= v.bytes);
}

} // verus!
