//! Big-endian byte strings and the numbers they denote.

use vstd::prelude::*;

verus! {

/// 256 to the power `n`.
pub open spec fn pow256(n: nat) -> nat
    decreases n,
{
    if n == 0 {
        1
    } else {
        256 * pow256((n - 1) as nat)
    }
}

/// The number that `s` denotes, read as big-endian.
pub open spec fn be_value(s: Seq<u8>) -> nat
    decreases s.len(),
{
    if s.len() == 0 {
        0
    } else {
        be_value(s.drop_last()) * 256 + s.last() as nat
    }
}

/// The `width` lowest bytes of `n`, big-endian.
pub open spec fn be_fixed(n: nat, width: nat) -> Seq<u8>
    decreases width,
{
    if width == 0 {
        Seq::empty()
    } else {
        be_fixed(n / 256, (width - 1) as nat).push((n % 256) as u8)
    }
}

/// `s` without its leading zero bytes.
pub open spec fn strip_zeros(s: Seq<u8>) -> Seq<u8>
    decreases s.len(),
{
    if s.len() > 0 && s[0] == 0 {
        strip_zeros(s.skip(1))
    } else {
        s
    }
}

/// `n` zero bytes.
pub open spec fn zeros(n: nat) -> Seq<u8> {
    Seq::new(n, |i: int| 0u8)
}

pub proof fn lemma_pow256_16()
    ensures
        pow256(16) == 0x1_0000_0000_0000_0000 * 0x1_0000_0000_0000_0000,
        pow256(16) == u128::MAX + 1,
{
    reveal_with_fuel(pow256, 17);
}

pub proof fn lemma_pow256_add(a: nat, b: nat)
    ensures
        pow256(a + b) == pow256(a) * pow256(b),
    decreases b,
{
    if b == 0 {
        assert(pow256(0) == 1);
        assert(a + b == a);
    } else {
        lemma_pow256_add(a, (b - 1) as nat);
        assert(pow256(a + b) == 256 * pow256((a + b - 1) as nat));
        assert(pow256(b) == 256 * pow256((b - 1) as nat));
        assert((a + b - 1) as nat == a + (b - 1) as nat);
        let x = pow256(a);
        let y = pow256((b - 1) as nat);
        assert(256 * (x * y) == x * (256 * y)) by (nonlinear_arith);
    }
}

pub proof fn lemma_pow256_monotonic(a: nat, b: nat)
    requires
        a <= b,
    ensures
        pow256(a) <= pow256(b),
    decreases b,
{
    if a < b {
        lemma_pow256_monotonic(a, (b - 1) as nat);
    }
}

/// A big-endian value of `n` bytes is below `256^n`.
pub proof fn lemma_be_value_bound(s: Seq<u8>)
    ensures
        be_value(s) < pow256(s.len()),
    decreases s.len(),
{
    if s.len() > 0 {
        let t = s.drop_last();
        lemma_be_value_bound(t);
        let a = be_value(t);
        let p = pow256(t.len());
        let l = s.last() as nat;
        assert(a * 256 + l < 256 * p) by (nonlinear_arith)
            requires
                a < p,
                l < 256,
        ;
    }
}

/// Appending bytes shifts the value of the front part.
pub proof fn lemma_be_value_concat(a: Seq<u8>, b: Seq<u8>)
    ensures
        be_value(a + b) == be_value(a) * pow256(b.len()) + be_value(b),
    decreases b.len(),
{
    if b.len() == 0 {
        assert(a + b =~= a);
        assert(pow256(0) == 1);
        assert(be_value(b) == 0);
    } else {
        let b1 = b.drop_last();
        assert((a + b).drop_last() =~= a + b1);
        assert((a + b).last() == b.last());
        lemma_be_value_concat(a, b1);
        let x = be_value(a);
        let y = pow256(b1.len());
        let z = be_value(b1);
        assert(pow256(b.len()) == 256 * y);
        assert(be_value(b) == z * 256 + b.last());
        assert(be_value(a + b) == be_value(a + b1) * 256 + b.last());
        assert((x * y + z) * 256 == x * (256 * y) + z * 256) by (nonlinear_arith);
        assert(be_value(a + b) == (x * y + z) * 256 + b.last());
    }
}

pub proof fn lemma_be_value_zeros(n: nat)
    ensures
        be_value(zeros(n)) == 0,
    decreases n,
{
    if n > 0 {
        assert(zeros(n).drop_last() =~= zeros((n - 1) as nat));
        lemma_be_value_zeros((n - 1) as nat);
    }
}

/// Leading zero bytes do not change the value.
pub proof fn lemma_be_value_zeros_prefix(n: nat, b: Seq<u8>)
    ensures
        be_value(zeros(n) + b) == be_value(b),
{
    lemma_be_value_concat(zeros(n), b);
    lemma_be_value_zeros(n);
}

/// Two byte strings of one length with one value are equal.
pub proof fn lemma_be_value_injective(a: Seq<u8>, b: Seq<u8>)
    requires
        a.len() == b.len(),
        be_value(a) == be_value(b),
    ensures
        a == b,
    decreases a.len(),
{
    if a.len() > 0 {
        let x = be_value(a.drop_last());
        let y = be_value(b.drop_last());
        let la = a.last() as int;
        let lb = b.last() as int;
        assert(x == y && la == lb) by (nonlinear_arith)
            requires
                x * 256 + la == y * 256 + lb,
                0 <= la < 256,
                0 <= lb < 256,
                x >= 0,
                y >= 0,
        ;
        lemma_be_value_injective(a.drop_last(), b.drop_last());
        assert(a =~= a.drop_last().push(a.last()));
        assert(b =~= b.drop_last().push(b.last()));
    }
}

/// A byte string with a byte that is not zero has a positive value.
pub proof fn lemma_be_value_nonzero(s: Seq<u8>, j: int)
    requires
        0 <= j < s.len(),
        s[j] != 0u8,
    ensures
        be_value(s) >= 1,
{
    if be_value(s) == 0 {
        lemma_be_value_zeros(s.len());
        lemma_be_value_injective(s, zeros(s.len()));
        assert(s[j] == zeros(s.len())[j]);
    }
}

/// The fixed-width bytes of a number that fits denote that number.
pub proof fn lemma_be_fixed_value(n: nat, width: nat)
    requires
        n < pow256(width),
    ensures
        be_value(be_fixed(n, width)) == n,
        be_fixed(n, width).len() == width,
    decreases width,
{
    if width == 0 {
    } else {
        let w1 = (width - 1) as nat;
        let p = pow256(w1);
        assert(n / 256 < p) by (nonlinear_arith)
            requires
                n < 256 * p,
        ;
        lemma_be_fixed_value(n / 256, w1);
        let s = be_fixed(n, width);
        assert(s.drop_last() =~= be_fixed(n / 256, w1));
        assert(n == (n / 256) * 256 + n % 256) by (nonlinear_arith);
    }
}

/// Copies `len` bytes of `src` from `start` into a new vector.
pub fn copy_range(src: &[u8], start: usize, len: usize) -> (r: Vec<u8>)
    requires
        start + len <= src@.len(),
    ensures
        r@ == src@.subrange(start as int, start + len),
{
    let n = src.len();
    let mut r: Vec<u8> = Vec::with_capacity(len);
    let mut i: usize = 0;
    while i < len
        invariant
            start + len <= n,
            n == src@.len(),
            i <= len,
            r@ == src@.subrange(start as int, start + i),
        decreases len - i,
    {
        r.push(src[start + i]);
        i = i + 1;
        assert(r@ =~= src@.subrange(start as int, start + i));
    }
    r
}

/// Appends all of `src` to `out`.
pub fn extend_bytes(out: &mut Vec<u8>, src: &[u8])
    ensures
        final(out)@ == old(out)@ + src@,
{
    let mut i: usize = 0;
    while i < src.len()
        invariant
            i <= src@.len(),
            out@ == old(out)@ + src@.subrange(0, i as int),
        decreases src@.len() - i,
    {
        out.push(src[i]);
        i = i + 1;
        assert(out@ =~= old(out)@ + src@.subrange(0, i as int));
    }
    assert(src@.subrange(0, src@.len() as int) =~= src@);
}

proof fn lemma_pow256_positive(n: nat)
    ensures
        pow256(n) > 0,
    decreases n,
{
    if n > 0 {
        lemma_pow256_positive((n - 1) as nat);
    }
}

/// One more low byte of `n` puts the next byte in front.
proof fn lemma_be_fixed_prepend(n: nat, t: nat)
    ensures
        be_fixed(n, t + 1) == seq![((n / pow256(t)) % 256) as u8] + be_fixed(n, t),
    decreases t,
{
    if t == 0 {
        assert(be_fixed(n / 256, 0) =~= Seq::<u8>::empty());
        assert(be_fixed(n, 1) =~= seq![(n % 256) as u8]);
        assert(be_fixed(n, 0) =~= Seq::<u8>::empty());
        assert(n / 1 == n);
    } else {
        let t1 = (t - 1) as nat;
        lemma_be_fixed_prepend(n / 256, t1);
        lemma_pow256_positive(t1);
        vstd::arithmetic::div_mod::lemma_div_denominator(n as int, 256, pow256(t1) as int);
        assert(pow256(t) == 256 * pow256(t1));
        assert(t1 + 1 == t);
        assert(be_fixed(n, t + 1) =~= seq![((n / pow256(t)) % 256) as u8] + be_fixed(n, t));
    }
}

/// The sixteen bytes of `x`, most significant first.
pub fn u128_be_bytes(x: u128) -> (r: [u8; 16])
    ensures
        r@ == be_fixed(x as nat, 16),
{
    let mut r = [0u8; 16];
    let mut y: u128 = x;
    let mut i: usize = 16;
    assert(pow256(0) == 1);
    assert(x as nat / 1 == x as nat);
    assert(r@.subrange(16, 16) =~= be_fixed(x as nat, 0));
    while i > 0
        invariant
            i <= 16,
            r@.len() == 16,
            y as nat == x as nat / pow256((16 - i) as nat),
            r@.subrange(i as int, 16) == be_fixed(x as nat, (16 - i) as nat),
        decreases i,
    {
        proof {
            lemma_be_fixed_prepend(x as nat, (16 - i) as nat);
            lemma_pow256_positive((16 - i) as nat);
            vstd::arithmetic::div_mod::lemma_div_denominator(x as int, pow256((16 - i) as nat) as int, 256);
            assert(pow256((16 - i + 1) as nat) == 256 * pow256((16 - i) as nat));
        }
        let ghost old_r = r@;
        r[i - 1] = (y % 256) as u8;
        y = y / 256;
        i = i - 1;
        assert(r@.subrange(i as int, 16) =~= seq![r@[i as int]] + old_r.subrange(i + 1, 16));
        assert(pow256((16 - i) as nat) == pow256((16 - i - 1) as nat) * 256);
    }
    assert(r@.subrange(0, 16) =~= r@);
    r
}

} // verus!
