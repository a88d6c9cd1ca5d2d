//! Transfer flows: fixed-order chain queries driving one operation.
//!
//! Chain I/O is a black-box service; the flow is a state machine whose
//! transitions consume the current state and one fetched value, and name
//! the next query. The order is fixed and proved: nonce before gas
//! estimate, gas estimate before gas price, gas fields fixed only then,
//! confirmation before signing, signature before broadcast. A retry
//! starts a fresh flow, so no stale nonce or gas value is ever reused.

use vstd::prelude::*;

use crate::address::Address;
use crate::amount::amount_grammar_ok;
use crate::amount::amount_value_of;
use crate::amount::parse_amount;
use crate::amount::Uint256;
use crate::errors::InputValidationError;
use crate::errors::SessionError;
use crate::registry::SignDataType;
use crate::registry::Signature65;
use crate::registry::SignRequestPayload;
use crate::txn::build_erc20_transfer_tx;
use crate::txn::build_native_transfer_tx;
use crate::txn::erc20_transfer_calldata_of;
use crate::txn::legacy_tx_rlp_of;
use crate::txn::legacy_tx_rlp_signed_of;
use crate::txn::tx_rlp;
use crate::txn::tx_rlp_signed;
use crate::txn::UnsignedTx;

verus! {

/// The next thing the caller must do for the flow. The data each query
/// needs sits in the flow state the caller holds.
#[derive(Debug, Clone, Copy, PartialEq, Eq, Structural)]
pub enum ChainAction {
    FetchChainId,
    FetchBalance,
    FetchNonce,
    EstimateGas,
    FetchGasPrice,
    AskConfirmation,
    FetchTokenBalance,
    FetchTokenDecimals,
    FetchTokenSymbol,
    DryRunTransfer,
    RunSigning,
    Broadcast,
    AwaitReceipt,
}

/// One answer from the chain service or the operator.
pub enum ChainEvent {
    ChainId(u64),
    Balance(Uint256),
    Nonce(Uint256),
    GasLimit(Uint256),
    GasPrice(Uint256),
    Confirmation(bool),
    TokenBalance(Uint256),
    TokenDecimals(u8),
    TokenSymbol(Vec<u8>),
    DryRunResult(bool),
    SignatureReady(Signature65),
    BroadcastHash(Vec<u8>),
    Receipt(Option<Vec<u8>>),
}

pub open spec fn event_wf(e: ChainEvent) -> bool {
    match e {
        ChainEvent::Balance(v) => v.wf(),
        ChainEvent::Nonce(v) => v.wf(),
        ChainEvent::GasLimit(v) => v.wf(),
        ChainEvent::GasPrice(v) => v.wf(),
        ChainEvent::TokenBalance(v) => v.wf(),
        ChainEvent::SignatureReady(sig) => sig.wf(),
        _ => true,
    }
}

/// What a native transfer was asked to do.
#[derive(Debug)]
pub struct NativeTransferParams {
    pub from: Address,
    pub to: Address,
    pub amount: Uint256,
    pub path_index: u32,
}

impl NativeTransferParams {
    pub open spec fn wf(&self) -> bool {
        self.from.wf() && self.to.wf() && self.amount.wf()
    }
}

/// States of a native transfer, in the only order they can be visited.
pub enum NativeFlow {
    FetchingChainId { params: NativeTransferParams },
    FetchingBalance { params: NativeTransferParams, chain_id: u64 },
    FetchingNonce { params: NativeTransferParams, chain_id: u64 },
    EstimatingGas { params: NativeTransferParams, draft: UnsignedTx },
    FetchingGasPrice { params: NativeTransferParams, draft: UnsignedTx, gas_limit: Uint256 },
    Confirming { params: NativeTransferParams, tx: UnsignedTx },
    Signing { params: NativeTransferParams, tx: UnsignedTx, request: SignRequestPayload },
    AwaitingBroadcast { raw: Vec<u8> },
    AwaitingReceipt,
    Done { mined: Option<Vec<u8>> },
}

pub open spec fn native_flow_wf(f: NativeFlow) -> bool {
    match f {
        NativeFlow::FetchingChainId { params } => params.wf(),
        NativeFlow::FetchingBalance { params, .. } => params.wf(),
        NativeFlow::FetchingNonce { params, .. } => params.wf(),
        NativeFlow::EstimatingGas { params, draft } => params.wf() && draft.wf(),
        NativeFlow::FetchingGasPrice { params, draft, gas_limit } => params.wf() && draft.wf()
            && gas_limit.wf(),
        NativeFlow::Confirming { params, tx } => params.wf() && tx.wf(),
        NativeFlow::Signing { params, tx, request } => params.wf() && tx.wf() && request.wf(),
        _ => true,
    }
}

/// Opens a native transfer flow: the chain id is fetched first.
pub fn native_start(params: NativeTransferParams) -> (r: (NativeFlow, ChainAction))
    requires
        params.wf(),
    ensures
        r.0 == (NativeFlow::FetchingChainId { params }),
        native_flow_wf(r.0),
        r.1 == ChainAction::FetchChainId,
{
    (NativeFlow::FetchingChainId { params }, ChainAction::FetchChainId)
}

/// Advances a native transfer by one fetched value.
///
/// Each state accepts exactly one event; anything else is a caller
/// error. Declining the confirmation aborts: nothing is ever broadcast
/// without it. A missing receipt ends the flow as `Done { mined: None }`
/// ("not yet mined"), which is an outcome, not an error.
pub fn native_step(flow: NativeFlow, event: ChainEvent) -> (r: Result<
    (NativeFlow, Option<ChainAction>),
    SessionError,
>)
    requires
        native_flow_wf(flow),
        event_wf(event),
    ensures
        r is Ok ==> native_flow_wf(r->Ok_0.0),
        (match (flow, event) {
            (NativeFlow::FetchingChainId { params }, ChainEvent::ChainId(chain_id)) => r
                matches Ok((f2, a)) && f2 == (NativeFlow::FetchingBalance { params, chain_id })
                && a == Some(ChainAction::FetchBalance),
            (NativeFlow::FetchingBalance { params, chain_id }, ChainEvent::Balance(_)) => r
                matches Ok((f2, a)) && f2 == (NativeFlow::FetchingNonce { params, chain_id }) && a
                == Some(ChainAction::FetchNonce),
            (NativeFlow::FetchingNonce { params, chain_id }, ChainEvent::Nonce(nonce)) => r
                matches Ok((f2, a)) && a == Some(ChainAction::EstimateGas) && (f2
                matches NativeFlow::EstimatingGas { params: p2, draft } && p2 == params && {
                    &&& draft.chain_id == chain_id
                    &&& draft.nonce == nonce
                    &&& draft.to.bytes@ == params.to.bytes@
                    &&& draft.value.bytes@ == params.amount.bytes@
                    &&& draft.gas_price.value() == 0
                    &&& draft.gas_limit.value() == 0
                    &&& draft.data@ == Seq::<u8>::empty()
                }),
            (NativeFlow::EstimatingGas { params, draft }, ChainEvent::GasLimit(gas_limit)) => r
                matches Ok((f2, a)) && f2 == (NativeFlow::FetchingGasPrice {
                params,
                draft,
                gas_limit,
            }) && a == Some(ChainAction::FetchGasPrice),
            (
                NativeFlow::FetchingGasPrice { params, draft, gas_limit },
                ChainEvent::GasPrice(gas_price),
            ) => r matches Ok((f2, a)) && a == Some(ChainAction::AskConfirmation) && (f2
                matches NativeFlow::Confirming { params: p2, tx } && p2 == params && {
                    &&& tx.chain_id == draft.chain_id
                    &&& tx.nonce == draft.nonce
                    &&& tx.gas_price == gas_price
                    &&& tx.gas_limit == gas_limit
                    &&& tx.to == draft.to
                    &&& tx.value == draft.value
                    &&& tx.data@ == Seq::<u8>::empty()
                }),
            (NativeFlow::Confirming { params, tx }, ChainEvent::Confirmation(yes)) => if yes {
                let rlp = legacy_tx_rlp_of(
                    tx.chain_id,
                    tx.nonce.bytes@,
                    tx.gas_price.bytes@,
                    tx.gas_limit.bytes@,
                    tx.to.bytes@,
                    tx.value.bytes@,
                    tx.data@,
                );
                if rlp.len() > 0x00FF_FFFF {
                    r == Err::<(NativeFlow, Option<ChainAction>), SessionError>(
                        SessionError::ProtocolViolation,
                    )
                } else {
                    r matches Ok((f2, a)) && a == Some(ChainAction::RunSigning) && (f2
                        matches NativeFlow::Signing { params: p2, tx: tx2, request } && p2 == params
                        && tx2 == tx && {
                        &&& request.sign_data@ == rlp
                        &&& request.data_type == SignDataType::TypedTransaction
                        &&& request.path_index == params.path_index
                        &&& request.address.bytes@ == params.from.bytes@
                        &&& request.request_id@ == Seq::<u8>::empty()
                    })
                }
            } else {
                r == Err::<(NativeFlow, Option<ChainAction>), SessionError>(SessionError::UserAbort)
            },
            (NativeFlow::Signing { params, tx, request }, ChainEvent::SignatureReady(sig)) => r
                matches Ok((f2, a)) && a == Some(ChainAction::Broadcast) && (f2
                matches NativeFlow::AwaitingBroadcast { raw } && raw@ == legacy_tx_rlp_signed_of(
                tx.chain_id,
                tx.nonce.bytes@,
                tx.gas_price.bytes@,
                tx.gas_limit.bytes@,
                tx.to.bytes@,
                tx.value.bytes@,
                tx.data@,
                sig.bytes_of(),
            )),
            (NativeFlow::AwaitingBroadcast { .. }, ChainEvent::BroadcastHash(_)) => r matches Ok(
                (f2, a),
            ) && f2 is AwaitingReceipt && a == Some(ChainAction::AwaitReceipt),
            (NativeFlow::AwaitingReceipt, ChainEvent::Receipt(mined)) => r matches Ok((f2, a)) && f2
                == (NativeFlow::Done { mined }) && a is None,
            _ => r == Err::<(NativeFlow, Option<ChainAction>), SessionError>(
                SessionError::ProtocolViolation,
            ),
        }),
{
    match (flow, event) {
        (NativeFlow::FetchingChainId { params }, ChainEvent::ChainId(chain_id)) => {
            Ok((NativeFlow::FetchingBalance { params, chain_id }, Some(ChainAction::FetchBalance)))
        },
        (NativeFlow::FetchingBalance { params, chain_id }, ChainEvent::Balance(_)) => {
            Ok((NativeFlow::FetchingNonce { params, chain_id }, Some(ChainAction::FetchNonce)))
        },
        (NativeFlow::FetchingNonce { params, chain_id }, ChainEvent::Nonce(nonce)) => {
            let to = params.to.dup();
            let value = params.amount.dup();
            let draft = build_native_transfer_tx(
                chain_id,
                nonce,
                Uint256::zero(),
                Uint256::zero(),
                to,
                value,
            );
            Ok((NativeFlow::EstimatingGas { params, draft }, Some(ChainAction::EstimateGas)))
        },
        (NativeFlow::EstimatingGas { params, draft }, ChainEvent::GasLimit(gas_limit)) => {
            Ok((
                NativeFlow::FetchingGasPrice { params, draft, gas_limit },
                Some(ChainAction::FetchGasPrice),
            ))
        },
        (
            NativeFlow::FetchingGasPrice { params, draft, gas_limit },
            ChainEvent::GasPrice(gas_price),
        ) => {
            let UnsignedTx { chain_id, nonce, to, value, .. } = draft;
            let tx = build_native_transfer_tx(chain_id, nonce, gas_price, gas_limit, to, value);
            Ok((NativeFlow::Confirming { params, tx }, Some(ChainAction::AskConfirmation)))
        },
        (NativeFlow::Confirming { params, tx }, ChainEvent::Confirmation(yes)) => {
            if !yes {
                return Err(SessionError::UserAbort);
            }
            let sign_data = tx_rlp(&tx);
            let request = SignRequestPayload {
                request_id: Vec::new(),
                sign_data,
                data_type: SignDataType::TypedTransaction,
                path_index: params.path_index,
                address: params.from.dup(),
            };
            if request.sign_data.len() > 0x00FF_FFFF {
                // An RLP encoding beyond the transport bound cannot be
                // displayed; a native transfer never produces one, but the
                // trusted encoder's contract does not say so.
                return Err(SessionError::ProtocolViolation);
            }
            proof {
                assert(request.request_id@ =~= Seq::<u8>::empty());
            }
            Ok((NativeFlow::Signing { params, tx, request }, Some(ChainAction::RunSigning)))
        },
        (NativeFlow::Signing { params: _, tx, request: _ }, ChainEvent::SignatureReady(sig)) => {
            let raw = tx_rlp_signed(&tx, &sig);
            Ok((NativeFlow::AwaitingBroadcast { raw }, Some(ChainAction::Broadcast)))
        },
        (NativeFlow::AwaitingBroadcast { raw: _ }, ChainEvent::BroadcastHash(_)) => {
            Ok((NativeFlow::AwaitingReceipt, Some(ChainAction::AwaitReceipt)))
        },
        (NativeFlow::AwaitingReceipt, ChainEvent::Receipt(mined)) => {
            Ok((NativeFlow::Done { mined }, None))
        },
        _ => Err(SessionError::ProtocolViolation),
    }
}

/// What a token transfer was asked to do. The human amount stays text
/// until the token's decimal count arrives from the chain.
#[derive(Debug)]
pub struct Erc20TransferParams {
    pub from: Address,
    pub token: Address,
    pub to: Address,
    pub amount_text: Vec<u8>,
    pub path_index: u32,
}

impl Erc20TransferParams {
    pub open spec fn wf(&self) -> bool {
        self.from.wf() && self.token.wf() && self.to.wf()
    }
}

/// States of a token transfer, in the only order they can be visited.
pub enum Erc20Flow {
    FetchingChainId { params: Erc20TransferParams },
    FetchingTokenBalance { params: Erc20TransferParams, chain_id: u64 },
    FetchingDecimals { params: Erc20TransferParams, chain_id: u64 },
    FetchingSymbol { params: Erc20TransferParams, chain_id: u64, amount: Uint256 },
    FetchingNonce { params: Erc20TransferParams, chain_id: u64, amount: Uint256 },
    EstimatingGas { params: Erc20TransferParams, draft: UnsignedTx },
    FetchingGasPrice { params: Erc20TransferParams, draft: UnsignedTx, gas_limit: Uint256 },
    DryRunning { params: Erc20TransferParams, tx: UnsignedTx },
    Signing {
        params: Erc20TransferParams,
        tx: UnsignedTx,
        request: SignRequestPayload,
        dry_run_ok: bool,
    },
    AwaitingBroadcast { raw: Vec<u8> },
    AwaitingReceipt,
    Done { mined: Option<Vec<u8>> },
}

pub open spec fn erc20_flow_wf(f: Erc20Flow) -> bool {
    match f {
        Erc20Flow::FetchingChainId { params } => params.wf(),
        Erc20Flow::FetchingTokenBalance { params, .. } => params.wf(),
        Erc20Flow::FetchingDecimals { params, .. } => params.wf(),
        Erc20Flow::FetchingSymbol { params, amount, .. } => params.wf() && amount.wf(),
        Erc20Flow::FetchingNonce { params, amount, .. } => params.wf() && amount.wf(),
        Erc20Flow::EstimatingGas { params, draft } => params.wf() && draft.wf(),
        Erc20Flow::FetchingGasPrice { params, draft, gas_limit } => params.wf() && draft.wf()
            && gas_limit.wf(),
        Erc20Flow::DryRunning { params, tx } => params.wf() && tx.wf(),
        Erc20Flow::Signing { params, tx, request, .. } => params.wf() && tx.wf() && request.wf(),
        _ => true,
    }
}

/// Opens a token transfer flow.
pub fn erc20_start(params: Erc20TransferParams) -> (r: (Erc20Flow, ChainAction))
    requires
        params.wf(),
    ensures
        r.0 == (Erc20Flow::FetchingChainId { params }),
        erc20_flow_wf(r.0),
        r.1 == ChainAction::FetchChainId,
{
    (Erc20Flow::FetchingChainId { params }, ChainAction::FetchChainId)
}

/// Advances a token transfer by one fetched value.
///
/// The human amount is parsed only once the token's decimal count is
/// known, and rejected exactly when it fails the amount grammar or
/// overflows. The dry run result never blocks the flow: it is carried
/// into the signing state as a warning flag.
pub fn erc20_step(flow: Erc20Flow, event: ChainEvent) -> (r: Result<
    (Erc20Flow, Option<ChainAction>),
    SessionError,
>)
    requires
        erc20_flow_wf(flow),
        event_wf(event),
    ensures
        r is Ok ==> erc20_flow_wf(r->Ok_0.0),
        (match (flow, event) {
            (Erc20Flow::FetchingChainId { params }, ChainEvent::ChainId(chain_id)) => r matches Ok(
                (f2, a),
            ) && f2 == (Erc20Flow::FetchingTokenBalance { params, chain_id }) && a == Some(
                ChainAction::FetchTokenBalance,
            ),
            (Erc20Flow::FetchingTokenBalance { params, chain_id }, ChainEvent::TokenBalance(_)) => r
                matches Ok((f2, a)) && f2 == (Erc20Flow::FetchingDecimals { params, chain_id }) && a
                == Some(ChainAction::FetchTokenDecimals),
            (Erc20Flow::FetchingDecimals { params, chain_id }, ChainEvent::TokenDecimals(d)) => if d
                <= 38 && amount_grammar_ok(params.amount_text@, d as nat) && amount_value_of(
                params.amount_text@,
                d as nat,
            ) <= u128::MAX {
                r matches Ok((f2, a)) && a == Some(ChainAction::FetchTokenSymbol) && (f2
                    matches Erc20Flow::FetchingSymbol { params: p2, chain_id: c2, amount } && p2
                    == params && c2 == chain_id && amount.wf() && amount.value() == amount_value_of(
                    params.amount_text@,
                    d as nat,
                ))
            } else {
                r == Err::<(Erc20Flow, Option<ChainAction>), SessionError>(
                    SessionError::InputValidation(InputValidationError::BadAmount),
                )
            },
            (
                Erc20Flow::FetchingSymbol { params, chain_id, amount },
                ChainEvent::TokenSymbol(_),
            ) => r matches Ok((f2, a)) && f2 == (Erc20Flow::FetchingNonce {
                params,
                chain_id,
                amount,
            }) && a == Some(ChainAction::FetchNonce),
            (
                Erc20Flow::FetchingNonce { params, chain_id, amount },
                ChainEvent::Nonce(nonce),
            ) => r matches Ok((f2, a)) && a == Some(ChainAction::EstimateGas) && (f2
                matches Erc20Flow::EstimatingGas { params: p2, draft } && p2 == params && {
                    &&& draft.chain_id == chain_id
                    &&& draft.nonce == nonce
                    &&& draft.to.bytes@ == params.token.bytes@
                    &&& draft.value.value() == 0
                    &&& draft.gas_price.value() == 0
                    &&& draft.gas_limit.value() == 0
                    &&& draft.data@ == erc20_transfer_calldata_of(
                        params.to.bytes@,
                        amount.bytes@,
                    )
                }),
            (Erc20Flow::EstimatingGas { params, draft }, ChainEvent::GasLimit(gas_limit)) => r
                matches Ok((f2, a)) && f2 == (Erc20Flow::FetchingGasPrice {
                params,
                draft,
                gas_limit,
            }) && a == Some(ChainAction::FetchGasPrice),
            (
                Erc20Flow::FetchingGasPrice { params, draft, gas_limit },
                ChainEvent::GasPrice(gas_price),
            ) => r matches Ok((f2, a)) && a == Some(ChainAction::DryRunTransfer) && (f2
                matches Erc20Flow::DryRunning { params: p2, tx } && p2 == params && {
                    &&& tx.chain_id == draft.chain_id
                    &&& tx.nonce == draft.nonce
                    &&& tx.gas_price == gas_price
                    &&& tx.gas_limit == gas_limit
                    &&& tx.to == draft.to
                    &&& tx.value == draft.value
                    &&& tx.data@ == draft.data@
                }),
            (Erc20Flow::DryRunning { params, tx }, ChainEvent::DryRunResult(ok)) => {
                let rlp = legacy_tx_rlp_of(
                    tx.chain_id,
                    tx.nonce.bytes@,
                    tx.gas_price.bytes@,
                    tx.gas_limit.bytes@,
                    tx.to.bytes@,
                    tx.value.bytes@,
                    tx.data@,
                );
                if rlp.len() > 0x00FF_FFFF {
                    r == Err::<(Erc20Flow, Option<ChainAction>), SessionError>(
                        SessionError::ProtocolViolation,
                    )
                } else {
                    r matches Ok((f2, a)) && a == Some(ChainAction::RunSigning) && (f2
                        matches Erc20Flow::Signing { params: p2, tx: tx2, request, dry_run_ok }
                        && p2 == params && tx2 == tx && dry_run_ok == ok && {
                        &&& request.sign_data@ == rlp
                        &&& request.data_type == SignDataType::TypedTransaction
                        &&& request.path_index == params.path_index
                        &&& request.address.bytes@ == params.from.bytes@
                        &&& request.request_id@ == Seq::<u8>::empty()
                    })
                }
            },
            (Erc20Flow::Signing { params, tx, .. }, ChainEvent::SignatureReady(sig)) => r
                matches Ok((f2, a)) && a == Some(ChainAction::Broadcast) && (f2
                matches Erc20Flow::AwaitingBroadcast { raw } && raw@ == legacy_tx_rlp_signed_of(
                tx.chain_id,
                tx.nonce.bytes@,
                tx.gas_price.bytes@,
                tx.gas_limit.bytes@,
                tx.to.bytes@,
                tx.value.bytes@,
                tx.data@,
                sig.bytes_of(),
            )),
            (Erc20Flow::AwaitingBroadcast { .. }, ChainEvent::BroadcastHash(_)) => r matches Ok(
                (f2, a),
            ) && f2 is AwaitingReceipt && a == Some(ChainAction::AwaitReceipt),
            (Erc20Flow::AwaitingReceipt, ChainEvent::Receipt(mined)) => r matches Ok((f2, a)) && f2
                == (Erc20Flow::Done { mined }) && a is None,
            _ => r == Err::<(Erc20Flow, Option<ChainAction>), SessionError>(
                SessionError::ProtocolViolation,
            ),
        }),
{
    match (flow, event) {
        (Erc20Flow::FetchingChainId { params }, ChainEvent::ChainId(chain_id)) => {
            Ok((
                Erc20Flow::FetchingTokenBalance { params, chain_id },
                Some(ChainAction::FetchTokenBalance),
            ))
        },
        (Erc20Flow::FetchingTokenBalance { params, chain_id }, ChainEvent::TokenBalance(_)) => {
            Ok((
                Erc20Flow::FetchingDecimals { params, chain_id },
                Some(ChainAction::FetchTokenDecimals),
            ))
        },
        (Erc20Flow::FetchingDecimals { params, chain_id }, ChainEvent::TokenDecimals(d)) => {
            if d > 38 {
                return Err(SessionError::InputValidation(InputValidationError::BadAmount));
            }
            let units = match parse_amount(&params.amount_text, d as u32) {
                Some(u) => u,
                None => {
                    return Err(SessionError::InputValidation(InputValidationError::BadAmount));
                },
            };
            let amount = Uint256::from_u128(units);
            Ok((
                Erc20Flow::FetchingSymbol { params, chain_id, amount },
                Some(ChainAction::FetchTokenSymbol),
            ))
        },
        (Erc20Flow::FetchingSymbol { params, chain_id, amount }, ChainEvent::TokenSymbol(_)) => {
            Ok((
                Erc20Flow::FetchingNonce { params, chain_id, amount },
                Some(ChainAction::FetchNonce),
            ))
        },
        (Erc20Flow::FetchingNonce { params, chain_id, amount }, ChainEvent::Nonce(nonce)) => {
            let token = params.token.dup();
            let draft = build_erc20_transfer_tx(
                chain_id,
                nonce,
                Uint256::zero(),
                Uint256::zero(),
                token,
                &params.to,
                &amount,
            );
            Ok((Erc20Flow::EstimatingGas { params, draft }, Some(ChainAction::EstimateGas)))
        },
        (Erc20Flow::EstimatingGas { params, draft }, ChainEvent::GasLimit(gas_limit)) => {
            Ok((
                Erc20Flow::FetchingGasPrice { params, draft, gas_limit },
                Some(ChainAction::FetchGasPrice),
            ))
        },
        (
            Erc20Flow::FetchingGasPrice { params, draft, gas_limit },
            ChainEvent::GasPrice(gas_price),
        ) => {
            let UnsignedTx { chain_id, nonce, to, value, data, .. } = draft;
            let tx = UnsignedTx { chain_id, nonce, gas_price, gas_limit, to, value, data };
            Ok((Erc20Flow::DryRunning { params, tx }, Some(ChainAction::DryRunTransfer)))
        },
        (Erc20Flow::DryRunning { params, tx }, ChainEvent::DryRunResult(ok)) => {
            let sign_data = tx_rlp(&tx);
            let request = SignRequestPayload {
                request_id: Vec::new(),
                sign_data,
                data_type: SignDataType::TypedTransaction,
                path_index: params.path_index,
                address: params.from.dup(),
            };
            if request.sign_data.len() > 0x00FF_FFFF {
                // see the native flow: excluded by every real encoding,
                // but not by the trusted encoder's contract.
                return Err(SessionError::ProtocolViolation);
            }
            proof {
                assert(request.request_id@ =~= Seq::<u8>::empty());
            }
            Ok((
                Erc20Flow::Signing { params, tx, request, dry_run_ok: ok },
                Some(ChainAction::RunSigning),
            ))
        },
        (Erc20Flow::Signing { params: _, tx, request: _, dry_run_ok: _ }, ChainEvent::SignatureReady(
            sig,
        )) => {
            let raw = tx_rlp_signed(&tx, &sig);
            Ok((Erc20Flow::AwaitingBroadcast { raw }, Some(ChainAction::Broadcast)))
        },
        (Erc20Flow::AwaitingBroadcast { raw: _ }, ChainEvent::BroadcastHash(_)) => {
            Ok((Erc20Flow::AwaitingReceipt, Some(ChainAction::AwaitReceipt)))
        },
        (Erc20Flow::AwaitingReceipt, ChainEvent::Receipt(mined)) => {
            Ok((Erc20Flow::Done { mined }, None))
        },
        _ => Err(SessionError::ProtocolViolation),
    }
}

} // verus!
