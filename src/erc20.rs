//! Read-only calls of an ERC20 contract: the call request that a view function
//! needs, and the decoding of what the call returns.

use crate::bytes::{
    be_value, extend_bytes, lemma_be_value_bound, lemma_be_value_concat, lemma_be_value_nonzero, lemma_be_value_zeros, pow256,
    zeros,
};
use crate::errors::ConversionError;
use crate::limbs::U256;
use crate::transaction::Address;
use vstd::prelude::*;

verus! {

/// The gas ceiling of a read-only call.
pub const CALL_GAS: u64 = 1_000_000;

/// A call request against the source-chain state.
#[derive(Clone, Debug, PartialEq, Eq)]
pub struct CallRequest {
    pub from: Address,
    pub to: Address,
    pub gas: u64,
    pub gas_price: u64,
    pub value: U256,
    pub input: Vec<u8>,
}

/// The view functions of an ERC20 contract.
#[derive(Clone, Copy, Debug, PartialEq, Eq)]
pub enum Erc20Call {
    BalanceOf { account: Address },
    Allowance { owner: Address, spender: Address },
}

/// An address as one ABI word: twelve zero bytes, then the address.
pub open spec fn abi_address(a: Address) -> Seq<u8> {
    zeros(12) + a.bytes@
}

/// The ABI encoding of a call: the function's four-byte selector, then its arguments.
pub open spec fn erc20_calldata(c: Erc20Call) -> Seq<u8> {
    match c {
        Erc20Call::BalanceOf { account } => seq![0x70u8, 0xa0u8, 0x82u8, 0x31u8] + abi_address(account),
        Erc20Call::Allowance { owner, spender } => seq![0xddu8, 0x62u8, 0xedu8, 0x3eu8] + abi_address(owner)
            + abi_address(spender),
    }
}

/// A request that only reads: from the zero address, no gas price, no value, a
/// generous gas ceiling.
pub open spec fn is_read_request(r: CallRequest, to: Address, input: Seq<u8>) -> bool {
    &&& r.from.bytes@ == zeros(20)
    &&& r.to == to
    &&& r.gas == CALL_GAS
    &&& r.gas_price == 0
    &&& r.value.value() == 0
    &&& r.input@ == input
}

fn push_abi_address(out: &mut Vec<u8>, a: Address)
    ensures
        final(out)@ == old(out)@ + abi_address(a),
{
    let pad = [0u8; 12];
    extend_bytes(out, pad.as_slice());
    extend_bytes(out, a.bytes.as_slice());
    assert(pad@ =~= zeros(12));
    assert(final(out)@ =~= old(out)@ + abi_address(a));
}

impl Erc20Call {
    /// The calldata of this call.
    pub fn encode(&self) -> (r: Vec<u8>)
        ensures
            r@ == erc20_calldata(*self),
    {
        let mut out: Vec<u8> = Vec::new();
        match self {
            Erc20Call::BalanceOf { account } => {
                out.push(0x70u8);
                out.push(0xa0u8);
                out.push(0x82u8);
                out.push(0x31u8);
                push_abi_address(&mut out, *account);
            },
            Erc20Call::Allowance { owner, spender } => {
                out.push(0xddu8);
                out.push(0x62u8);
                out.push(0xedu8);
                out.push(0x3eu8);
                push_abi_address(&mut out, *owner);
                push_abi_address(&mut out, *spender);
            },
        }
        assert(out@ =~= erc20_calldata(*self));
        out
    }
}

/// Decodes a 256-bit unsigned return value: the whole return read as a
/// big-endian integer, which must be at least one word long and below 2^256.
pub fn decode_uint256(ret: &[u8]) -> (r: Result<U256, ConversionError>)
    ensures
        r is Err <==> (ret@.len() < 32 || be_value(ret@) >= pow256(32)),
        r matches Err(e) ==> e == ConversionError::UintConversion,
        r matches Ok(v) ==> v.value() == be_value(ret@),
{
    let n = ret.len();
    if n < 32 {
        return Err(ConversionError::UintConversion);
    }
    let k = n - 32;
    let ghost head = ret@.subrange(0, k as int);
    let ghost word = ret@.subrange(k as int, n as int);
    proof {
        assert(ret@ =~= head + word);
        lemma_be_value_concat(head, word);
        lemma_be_value_bound(word);
    }
    let mut i: usize = 0;
    while i < k
        invariant
            i <= k,
            k + 32 == n,
            n == ret@.len(),
            head == ret@.subrange(0, k as int),
            word.len() == 32,
            be_value(ret@) == be_value(head) * pow256(32) + be_value(word),
            forall|j: int| 0 <= j < i ==> ret@[j] == 0u8,
        decreases k - i,
    {
        if ret[i] != 0 {
            proof {
                assert(head[i as int] == ret@[i as int]);
                lemma_be_value_nonzero(head, i as int);
                assert(be_value(head) * pow256(32) >= pow256(32)) by (nonlinear_arith)
                    requires
                        be_value(head) >= 1,
                ;
            }
            return Err(ConversionError::UintConversion);
        }
        i = i + 1;
    }
    let mut bytes = [0u8; 32];
    let mut i: usize = 0;
    while i < 32
        invariant
            i <= 32,
            k + 32 == n,
            n == ret@.len(),
            bytes@.len() == 32,
            forall|j: int| 0 <= j < i ==> bytes@[j] == ret@[k + j],
        decreases 32 - i,
    {
        bytes[i] = ret[k + i];
        i = i + 1;
    }
    proof {
        assert(bytes@ =~= word);
        assert(head =~= zeros(k as nat));
        lemma_be_value_zeros(k as nat);
    }
    Ok(U256 { bytes })
}

/// An ERC20 contract on the source chain.
#[derive(Clone, Copy, Debug, PartialEq, Eq)]
pub struct EthereumErc20 {
    pub address: Address,
}

impl EthereumErc20 {
    pub fn new(address: Address) -> (r: EthereumErc20)
        ensures
            r.address == address,
    {
        EthereumErc20 { address }
    }

    /// The read-only request of a contract view function with calldata `input`.
    pub fn call_request(&self, input: Vec<u8>) -> (r: CallRequest)
        ensures
            is_read_request(r, self.address, input@),
    {
        let from = Address { bytes: [0u8; 20] };
        assert(from.bytes@ =~= zeros(20));
        let value = U256 { bytes: [0u8; 32] };
        proof {
            crate::bytes::lemma_be_value_zeros(32);
            assert(value.bytes@ =~= zeros(32));
        }
        CallRequest { from, to: self.address, gas: CALL_GAS, gas_price: 0, value, input }
    }

    /// The request that reads the balance of `evm_address`.
    pub fn balance_of_call(&self, evm_address: Address) -> (r: CallRequest)
        ensures
            is_read_request(r, self.address, erc20_calldata(Erc20Call::BalanceOf { account: evm_address })),
    {
        self.call_request(Erc20Call::BalanceOf { account: evm_address }.encode())
    }

    /// The request that reads how much `spender` may spend of `owner`'s tokens.
    pub fn allowance_call(&self, owner: Address, spender: Address) -> (r: CallRequest)
        ensures
            is_read_request(r, self.address, erc20_calldata(Erc20Call::Allowance { owner, spender })),
    {
        self.call_request(Erc20Call::Allowance { owner, spender }.encode())
    }

    /// The balance that the call of `balance_of_call` returned as `call_return`.
    pub fn balance_of(&self, call_return: &[u8]) -> (r: Result<U256, ConversionError>)
        ensures
            r is Err <==> (call_return@.len() < 32 || be_value(call_return@) >= pow256(32)),
            r matches Err(e) ==> e == ConversionError::UintConversion,
            r matches Ok(v) ==> v.value() == be_value(call_return@),
    {
        decode_uint256(call_return)
    }
}

} // verus!
