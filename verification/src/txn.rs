//! Transaction assembler: canonical unsigned transactions.
//!
//! The assembler only fixes fields that the flow fetched in order
//! (nonce, then gas estimate, then gas price); the RLP encodings
//! themselves come from an outside crate behind trusted wrappers, since
//! transaction encoding is a non-goal of this library.

use vstd::prelude::*;

use crate::address::Address;
use crate::amount::Uint256;

verus! {

/// An unsigned legacy transaction, all fields fixed.
#[derive(Debug)]
pub struct UnsignedTx {
    pub chain_id: u64,
    pub nonce: Uint256,
    pub gas_price: Uint256,
    pub gas_limit: Uint256,
    pub to: Address,
    pub value: Uint256,
    pub data: Vec<u8>,
}

impl UnsignedTx {
    pub open spec fn wf(&self) -> bool {
        &&& self.nonce.wf()
        &&& self.gas_price.wf()
        &&& self.gas_limit.wf()
        &&& self.to.wf()
        &&& self.value.wf()
        &&& self.data@.len() <= 0x00FF_FFFF
    }
}

/// The RLP encoding of an unsigned legacy transaction with the given
/// fields (256-bit fields as 32 big-endian bytes).
pub uninterp spec fn legacy_tx_rlp_of(
    chain_id: u64,
    nonce: Seq<u8>,
    gas_price: Seq<u8>,
    gas_limit: Seq<u8>,
    to: Seq<u8>,
    value: Seq<u8>,
    data: Seq<u8>,
) -> Seq<u8>;

/// The RLP encoding of the same transaction carrying a 65-byte
/// recoverable signature.
pub uninterp spec fn legacy_tx_rlp_signed_of(
    chain_id: u64,
    nonce: Seq<u8>,
    gas_price: Seq<u8>,
    gas_limit: Seq<u8>,
    to: Seq<u8>,
    value: Seq<u8>,
    data: Seq<u8>,
    sig: Seq<u8>,
) -> Seq<u8>;

#[verifier::external_type_specification]
#[verifier::external_body]
pub struct ExTypedTransaction(ethers::types::transaction::eip2718::TypedTransaction);

/// Relies on ethers-core: `TransactionRequest`'s builder methods store
/// exactly the given fields in a legacy typed transaction. The value is
/// opaque here; what its encodings are is said by `tx_rlp` and
/// `tx_rlp_signed`. `U256::from_big_endian` and `Address::from_slice`
/// panic on wrong lengths, which `tx.wf()` excludes.
#[verifier::external_body]
fn ethers_typed_tx(tx: &UnsignedTx) -> (r: ethers::types::transaction::eip2718::TypedTransaction)
    requires
        tx.wf(),
{
    let request = ethers::types::TransactionRequest::new()
        .chain_id(tx.chain_id)
        .nonce(ethers::types::U256::from_big_endian(&tx.nonce.bytes))
        .gas_price(ethers::types::U256::from_big_endian(&tx.gas_price.bytes))
        .gas(ethers::types::U256::from_big_endian(&tx.gas_limit.bytes))
        .to(ethers::types::Address::from_slice(&tx.to.bytes))
        .value(ethers::types::U256::from_big_endian(&tx.value.bytes))
        .data(tx.data.clone());
    ethers::types::transaction::eip2718::TypedTransaction::Legacy(request)
}

/// Relies on ethers-core: `TypedTransaction::rlp` is a pure function of
/// the stored fields, which `ethers_typed_tx` takes from `tx`.
#[verifier::external_body]
pub fn tx_rlp(tx: &UnsignedTx) -> (r: Vec<u8>)
    requires
        tx.wf(),
    ensures
        r@ == legacy_tx_rlp_of(
            tx.chain_id,
            tx.nonce.bytes@,
            tx.gas_price.bytes@,
            tx.gas_limit.bytes@,
            tx.to.bytes@,
            tx.value.bytes@,
            tx.data@,
        ),
{
    ethers_typed_tx(tx).rlp().to_vec()
}

/// Relies on ethers-core: `TypedTransaction::rlp_signed` is a pure
/// function of the stored fields and the signature. The signature's
/// `wf()` excludes the length panics of the field conversions.
#[verifier::external_body]
pub fn tx_rlp_signed(tx: &UnsignedTx, sig: &crate::registry::Signature65) -> (r: Vec<u8>)
    requires
        tx.wf(),
        sig.wf(),
    ensures
        r@ == legacy_tx_rlp_signed_of(
            tx.chain_id,
            tx.nonce.bytes@,
            tx.gas_price.bytes@,
            tx.gas_limit.bytes@,
            tx.to.bytes@,
            tx.value.bytes@,
            tx.data@,
            sig.bytes_of(),
        ),
{
    let typed = ethers_typed_tx(tx);
    let signature = ethers::types::Signature {
        r: ethers::types::U256::from_big_endian(&sig.r),
        s: ethers::types::U256::from_big_endian(&sig.s),
        v: sig.v as u64,
    };
    typed.rlp_signed(&signature).to_vec()
}

/// The call data of an ERC-20 `transfer(address,uint256)`: the fixed
/// four-byte selector, the recipient left-padded to 32 bytes, then the
/// 32-byte amount.
pub open spec fn erc20_transfer_calldata_of(to: Seq<u8>, amount: Seq<u8>) -> Seq<u8> {
    seq![0xa9u8, 0x05u8, 0x9cu8, 0xbbu8] + Seq::new(12, |i: int| 0u8) + to + amount
}

/// Builds the `transfer` call data for a token recipient and amount.
pub fn erc20_transfer_calldata(to: &Address, amount: &Uint256) -> (r: Vec<u8>)
    requires
        to.wf(),
        amount.wf(),
    ensures
        r@ == erc20_transfer_calldata_of(to.bytes@, amount.bytes@),
        r@.len() == 68,
{
    let mut out: Vec<u8> = Vec::new();
    out.push(0xa9);
    out.push(0x05);
    out.push(0x9c);
    out.push(0xbb);
    let mut i: usize = 0;
    while i < 12
        invariant
            i <= 12,
            out@.len() == 4 + i,
            out@.subrange(0, 4) =~= seq![0xa9u8, 0x05u8, 0x9cu8, 0xbbu8],
            forall|j: int| 4 <= j < out@.len() ==> out@[j] == 0,
        decreases 12 - i,
    {
        out.push(0);
        i = i + 1;
    }
    let mut piece = vstd::slice::slice_to_vec(to.bytes.as_slice());
    out.append(&mut piece);
    let mut piece = vstd::slice::slice_to_vec(amount.bytes.as_slice());
    out.append(&mut piece);
    proof {
        assert(out@ =~= erc20_transfer_calldata_of(to.bytes@, amount.bytes@));
    }
    out
}

/// Fixes the fields of a native transfer into an unsigned transaction.
/// Call data stays empty: a native transfer carries only value.
pub fn build_native_transfer_tx(
    chain_id: u64,
    nonce: Uint256,
    gas_price: Uint256,
    gas_limit: Uint256,
    to: Address,
    value: Uint256,
) -> (r: UnsignedTx)
    requires
        nonce.wf(),
        gas_price.wf(),
        gas_limit.wf(),
        to.wf(),
        value.wf(),
    ensures
        r.wf(),
        r.chain_id == chain_id,
        r.nonce == nonce,
        r.gas_price == gas_price,
        r.gas_limit == gas_limit,
        r.to == to,
        r.value == value,
        r.data@ == Seq::<u8>::empty(),
{
    let data: Vec<u8> = Vec::new();
    proof {
        assert(data@ =~= Seq::<u8>::empty());
    }
    UnsignedTx { chain_id, nonce, gas_price, gas_limit, to, value, data }
}

/// Fixes the fields of a token transfer: the transaction is addressed
/// to the token contract, carries no native value, and its data is the
/// `transfer` call for the recipient and amount.
pub fn build_erc20_transfer_tx(
    chain_id: u64,
    nonce: Uint256,
    gas_price: Uint256,
    gas_limit: Uint256,
    token: Address,
    recipient: &Address,
    amount: &Uint256,
) -> (r: UnsignedTx)
    requires
        nonce.wf(),
        gas_price.wf(),
        gas_limit.wf(),
        token.wf(),
        recipient.wf(),
        amount.wf(),
    ensures
        r.wf(),
        r.chain_id == chain_id,
        r.nonce == nonce,
        r.gas_price == gas_price,
        r.gas_limit == gas_limit,
        r.to == token,
        r.value.value() == 0,
        r.data@ == erc20_transfer_calldata_of(recipient.bytes@, amount.bytes@),
{
    let data = erc20_transfer_calldata(recipient, amount);
    let value = Uint256::zero();
    UnsignedTx { chain_id, nonce, gas_price, gas_limit, to: token, value, data }
}

} // verus!
