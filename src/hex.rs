//! Hexadecimal text, as genesis files write addresses and quantities.

use crate::bytes::{be_value, lemma_be_value_zeros_prefix, zeros};
use crate::limbs::U256;
use vstd::prelude::*;

verus! {

/// An ASCII hexadecimal digit.
pub open spec fn is_hex_digit(c: u8) -> bool {
    (0x30 <= c <= 0x39) || (0x61 <= c <= 0x66) || (0x41 <= c <= 0x46)
}

/// The value of an ASCII hexadecimal digit.
pub open spec fn hex_digit_value(c: u8) -> nat {
    if c <= 0x39 {
        (c - 0x30) as nat
    } else if c >= 0x61 {
        (c - 0x61 + 10) as nat
    } else {
        (c - 0x41 + 10) as nat
    }
}

/// The number that a string of digit values below 16 denotes, most significant first.
pub open spec fn nibbles_value(s: Seq<u8>) -> nat
    decreases s.len(),
{
    if s.len() == 0 {
        0
    } else {
        nibbles_value(s.drop_last()) * 16 + s.last() as nat
    }
}

/// The digits of a text `0x` followed by one hexadecimal digit or more.
pub open spec fn hex_digits(t: Seq<u8>) -> Seq<u8> {
    t.skip(2)
}

/// A text `0x` followed by between one and `max` hexadecimal digits.
pub open spec fn is_hex_text(t: Seq<u8>, max: nat) -> bool {
    &&& t.len() > 2
    &&& t[0] == 0x30u8
    &&& t[1] == 0x78u8
    &&& t.len() - 2 <= max
    &&& forall|i: int| 2 <= i < t.len() ==> is_hex_digit(#[trigger] t[i])
}

/// The number that a hexadecimal text denotes.
pub open spec fn hex_value(t: Seq<u8>) -> nat {
    nibbles_value(hex_digits(t).map_values(|c: u8| hex_digit_value(c) as u8))
}

proof fn lemma_nibbles_zero_front(s: Seq<u8>)
    ensures
        nibbles_value(seq![0u8] + s) == nibbles_value(s),
    decreases s.len(),
{
    if s.len() == 0 {
        assert((seq![0u8] + s).drop_last() =~= Seq::<u8>::empty());
        assert(nibbles_value(Seq::<u8>::empty()) == 0);
        assert((seq![0u8] + s).last() == 0u8);
    } else {
        assert((seq![0u8] + s).drop_last() =~= seq![0u8] + s.drop_last());
        assert((seq![0u8] + s).last() == s.last());
        lemma_nibbles_zero_front(s.drop_last());
    }
}

proof fn lemma_nibble_pairs(s: Seq<u8>, b: Seq<u8>)
    requires
        s.len() == 2 * b.len(),
        forall|i: int| 0 <= i < s.len() ==> s[i] < 16,
        forall|i: int| 0 <= i < b.len() ==> b[i] == 16 * s[2 * i] + s[2 * i + 1],
    ensures
        be_value(b) == nibbles_value(s),
    decreases b.len(),
{
    if b.len() > 0 {
        let n = b.len();
        let s1 = s.drop_last();
        let s2 = s1.drop_last();
        assert(s2 =~= s.subrange(0, 2 * n - 2));
        lemma_nibble_pairs(s2, b.drop_last());
        assert(nibbles_value(s) == nibbles_value(s1) * 16 + s[2 * n - 1]);
        assert(nibbles_value(s1) == nibbles_value(s2) * 16 + s[2 * n - 2]);
        let x = nibbles_value(s2);
        assert((x * 16 + s[2 * n - 2]) * 16 + s[2 * n - 1] == x * 256 + (16 * s[2 * n - 2] + s[2 * n - 1]))
            by (nonlinear_arith);
    }
}

fn digit_value(c: u8) -> (r: u8)
    requires
        is_hex_digit(c),
    ensures
        r == hex_digit_value(c),
        r < 16,
{
    if c <= 0x39 {
        c - 0x30
    } else if c >= 0x61 {
        c - 0x61 + 10
    } else {
        c - 0x41 + 10
    }
}

/// Reads a text `0x` followed by hexadecimal digits, at most `2 * max_len` of them,
/// as big-endian bytes; an odd count of digits reads as if a zero came first.
pub fn parse_hex_bytes(text: &[u8], max_len: usize) -> (r: Option<Vec<u8>>)
    requires
        max_len <= usize::MAX / 2,
    ensures
        r is Some <==> is_hex_text(text@, 2 * max_len as nat),
        r matches Some(b) ==> be_value(b@) == hex_value(text@) && b@.len() == (hex_digits(text@).len() + 1) / 2,
{
    let n = text.len();
    if n <= 2 || text[0] != 0x30 || text[1] != 0x78 || n - 2 > 2 * max_len {
        return None;
    }
    let mut nibbles: Vec<u8> = Vec::new();
    if (n - 2) % 2 == 1 {
        nibbles.push(0u8);
    }
    let ghost pad = nibbles@;
    let mut i: usize = 2;
    while i < n
        invariant
            2 <= i <= n,
            n == text@.len(),
            forall|j: int| 2 <= j < i ==> is_hex_digit(#[trigger] text@[j]),
            nibbles@ == pad + text@.subrange(2, i as int).map_values(|c: u8| hex_digit_value(c) as u8),
            forall|j: int| 0 <= j < nibbles@.len() ==> nibbles@[j] < 16,
        decreases n - i,
    {
        if !(text[i] >= 0x30 && text[i] <= 0x39) && !(text[i] >= 0x61 && text[i] <= 0x66) && !(text[i] >= 0x41
            && text[i] <= 0x46) {
            return None;
        }
        let ghost before = nibbles@;
        nibbles.push(digit_value(text[i]));
        proof {
            assert(text@.subrange(2, i + 1).map_values(|c: u8| hex_digit_value(c) as u8) =~= text@.subrange(
                2,
                i as int,
            ).map_values(|c: u8| hex_digit_value(c) as u8).push(hex_digit_value(text@[i as int]) as u8));
        }
        i = i + 1;
    }
    let ghost digits = hex_digits(text@).map_values(|c: u8| hex_digit_value(c) as u8);
    assert(text@.subrange(2, n as int) =~= hex_digits(text@));
    let nl = nibbles.len();
    let m = nl / 2;
    let mut out: Vec<u8> = Vec::new();
    let mut k: usize = 0;
    while k < m
        invariant
            k <= m,
            2 * m == nl,
            nl == nibbles@.len(),
            forall|j: int| 0 <= j < nibbles@.len() ==> nibbles@[j] < 16,
            out@.len() == k,
            forall|j: int| 0 <= j < k ==> out@[j] == 16 * nibbles@[2 * j] + nibbles@[2 * j + 1],
        decreases m - k,
    {
        let hi = nibbles[2 * k];
        let lo = nibbles[2 * k + 1];
        assert(hi < 16 && lo < 16);
        out.push(16 * hi + lo);
        k = k + 1;
    }
    proof {
        lemma_nibble_pairs(nibbles@, out@);
        if pad.len() == 1 {
            assert(nibbles@ =~= seq![0u8] + digits);
            lemma_nibbles_zero_front(digits);
        } else {
            assert(nibbles@ =~= digits);
        }
    }
    Some(out)
}

impl U256 {
    /// Reads a text `0x` followed by one to 64 hexadecimal digits.
    pub fn from_hex(text: &[u8]) -> (r: Option<U256>)
        ensures
            r is Some <==> is_hex_text(text@, 64),
            r matches Some(v) ==> v.value() == hex_value(text@),
    {
        let b = match parse_hex_bytes(text, 32) {
            Some(b) => b,
            None => return None,
        };
        let len = b.len();
        let mut bytes = [0u8; 32];
        let mut i: usize = 0;
        while i < len
            invariant
                i <= len,
                len == b@.len(),
                len <= 32,
                bytes@.len() == 32,
                forall|j: int| 0 <= j < 32 - len ==> bytes@[j] == 0u8,
                forall|j: int| 32 - len <= j < 32 - len + i ==> bytes@[j] == b@[j - (32 - len)],
                forall|j: int| 32 - len + i <= j < 32 ==> bytes@[j] == 0u8,
            decreases len - i,
        {
            bytes[32 - len + i] = b[i];
            i = i + 1;
        }
        proof {
            assert(bytes@ =~= zeros((32 - len) as nat) + b@);
            lemma_be_value_zeros_prefix((32 - len) as nat, b@);
        }
        Some(U256 { bytes })
    }
}

} // verus!
