//! Recursive-length-prefix encoding of byte strings, integers and lists, as the
//! source chain hashes and signs its transactions.

use crate::bytes::{be_fixed, copy_range, extend_bytes, strip_zeros};
use vstd::prelude::*;

verus! {

/// The header that announces a payload of `len` bytes, a list's or a string's.
pub open spec fn rlp_header(list: bool, len: nat) -> Seq<u8> {
    if len < 56 {
        seq![((if list { 0xc0nat } else { 0x80nat }) + len) as u8]
    } else {
        let l = strip_zeros(be_fixed(len, 8));
        seq![((if list { 0xf7nat } else { 0xb7nat }) + l.len()) as u8] + l
    }
}

/// The encoding of the byte string `b`.
pub open spec fn rlp_bytes(b: Seq<u8>) -> Seq<u8> {
    if b.len() == 1 && b[0] < 0x80 {
        b
    } else {
        rlp_header(false, b.len()) + b
    }
}

/// The encoding of a list whose items, already encoded, make `payload`.
pub open spec fn rlp_list(payload: Seq<u8>) -> Seq<u8> {
    rlp_header(true, payload.len()) + payload
}

/// The encoding of the unsigned integer whose big-endian bytes are `be`.
pub open spec fn rlp_integer(be: Seq<u8>) -> Seq<u8> {
    rlp_bytes(strip_zeros(be))
}

/// The encoding of the unsigned integer `x` below 2^128.
pub open spec fn rlp_u128(x: nat) -> Seq<u8> {
    rlp_integer(be_fixed(x, 16))
}

/// Relies on alloy_rlp::Header::encode: one byte for a payload under 56 bytes,
/// else one byte and the payload length's big-endian bytes without leading zeros.
#[verifier::external_body]
pub(crate) fn encode_header(list: bool, payload_length: usize, out: &mut Vec<u8>)
    ensures
        final(out)@ == old(out)@ + rlp_header(list, payload_length as nat),
{
    alloy_rlp::Header { list, payload_length }.encode(out)
}

/// Relies on alloy_rlp::Encodable for [u8]: a single byte below 0x80 stands for
/// itself, any other string follows its header.
#[verifier::external_body]
pub(crate) fn encode_bytes(b: &[u8], out: &mut Vec<u8>)
    ensures
        final(out)@ == old(out)@ + rlp_bytes(b@),
{
    alloy_rlp::Encodable::encode(b, out)
}

proof fn lemma_strip_zeros_skip(s: Seq<u8>, k: int)
    requires
        0 <= k <= s.len(),
        forall|j: int| 0 <= j < k ==> s[j] == 0u8,
        k == s.len() || s[k] != 0u8,
    ensures
        strip_zeros(s) == s.skip(k),
    decreases k,
{
    if k == 0 {
        assert(s.skip(0) =~= s);
    } else {
        let t = s.skip(1);
        assert forall|j: int| 0 <= j < k - 1 implies t[j] == 0u8 by {
            assert(t[j] == s[j + 1]);
        }
        lemma_strip_zeros_skip(t, k - 1);
        assert(t.skip(k - 1) =~= s.skip(k));
    }
}

/// `b` without its leading zero bytes.
pub fn strip_leading_zeros(b: &[u8]) -> (r: Vec<u8>)
    ensures
        r@ == strip_zeros(b@),
{
    let n = b.len();
    let mut k: usize = 0;
    while k < n && b[k] == 0
        invariant
            k <= n,
            n == b@.len(),
            forall|j: int| 0 <= j < k ==> b@[j] == 0u8,
        decreases n - k,
    {
        k = k + 1;
    }
    proof {
        lemma_strip_zeros_skip(b@, k as int);
    }
    let r = copy_range(b, k, n - k);
    assert(r@ =~= b@.skip(k as int));
    r
}

/// Appends the encoding of the integer whose big-endian bytes are `be`.
pub fn encode_integer(be: &[u8], out: &mut Vec<u8>)
    ensures
        final(out)@ == old(out)@ + rlp_integer(be@),
{
    let s = strip_leading_zeros(be);
    encode_bytes(s.as_slice(), out);
}

/// Relies on alloy_rlp::Encodable for u128: zero as the empty string, a value
/// below 0x80 as itself, any other as a string of its big-endian bytes without
/// leading zeros.
#[verifier::external_body]
pub(crate) fn encode_u128(x: u128, out: &mut Vec<u8>)
    ensures
        final(out)@ == old(out)@ + rlp_u128(x as nat),
{
    alloy_rlp::Encodable::encode(&x, out)
}

/// Appends the encoding of the list whose encoded items make `payload`.
pub fn encode_list(payload: &[u8], out: &mut Vec<u8>)
    ensures
        final(out)@ == old(out)@ + rlp_list(payload@),
{
    encode_header(true, payload.len(), out);
    extend_bytes(out, payload);
    assert(final(out)@ =~= old(out)@ + rlp_list(payload@));
}

} // verus!
