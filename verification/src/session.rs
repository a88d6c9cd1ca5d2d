//! Session state machine: the forward-only progression from network
//! selection through account import and operation choice to execution.
//!
//! Each transition consumes the previous state and produces the next;
//! there is no way back and no transition out of order. The session
//! never holds a private key: the account is watch-only, fixed by the
//! scanned extended public key and the selected derivation ordinal.

use vstd::prelude::*;

use crate::address::parse_address_spec;
use crate::address::Address;
use crate::amount::amount_grammar_ok;
use crate::amount::amount_value_of;
use crate::amount::parse_amount;
use crate::amount::Uint256;
use crate::config::network_eq;
use crate::config::Config;
use crate::config::Network;
use crate::errors::InputValidationError;
use crate::errors::SessionError;
use crate::flows::erc20_start;
use crate::flows::native_start;
use crate::flows::ChainAction;
use crate::flows::Erc20Flow;
use crate::flows::Erc20TransferParams;
use crate::flows::NativeFlow;
use crate::flows::NativeTransferParams;
use crate::hexutil::find_byte;
use crate::hexutil::first_index_of;
use crate::keys::derive_account_address;
use crate::keys::derive_candidate_addresses;
use crate::keys::spec_child_address;
use crate::keys::AccountCandidate;
use crate::keys::KeyPath;
use crate::registry::decode_key_export;
use crate::registry::parse_key_export;
use crate::registry::PublicKeyExportPayload;
use crate::registry::SignDataType;
use crate::registry::SignRequestPayload;

verus! {

/// How many candidate accounts are derived for selection.
pub const CANDIDATE_COUNT: u32 = 5;

/// The number of decimals of the native currency.
pub const NATIVE_DECIMALS: u32 = 18;

/// The session; `S` is the stage reached so far.
pub struct AppState<S> {
    pub config: Config,
    pub inner: S,
}

/// Nothing chosen yet.
pub struct WithIntial;

/// A network is fixed for the session.
pub struct WithNetwork {
    pub network: Network,
}

/// A watch-only account is imported: its address and the derivation
/// path ordinal that produced it.
pub struct WithAccount {
    pub network: Network,
    pub address: Address,
    pub path: KeyPath,
}

impl WithAccount {
    pub open spec fn wf(&self) -> bool {
        self.address.wf()
    }
}

/// A message-signing operation, ready to execute.
pub struct SignMessageOp {
    pub message: Vec<u8>,
    pub address: Address,
    pub path: KeyPath,
}

impl SignMessageOp {
    pub open spec fn wf(&self) -> bool {
        self.address.wf() && self.message@.len() <= 0x00FF_FFFF
    }
}

/// A native transfer, validated and ready to execute.
pub struct NativeTransferOp {
    pub path: KeyPath,
    pub to: Address,
    pub from: Address,
    pub amount: Uint256,
}

impl NativeTransferOp {
    pub open spec fn wf(&self) -> bool {
        self.to.wf() && self.from.wf() && self.amount.wf()
    }
}

/// A token transfer, validated except for the amount, whose decimal
/// count only the token contract knows.
pub struct Erc20TransferOp {
    pub path: KeyPath,
    pub erc20_token: Address,
    pub to: Address,
    pub from: Address,
    pub amount_text: Vec<u8>,
}

impl Erc20TransferOp {
    pub open spec fn wf(&self) -> bool {
        self.erc20_token.wf() && self.to.wf() && self.from.wf()
    }
}

/// The chosen operation.
pub enum WithOperation {
    SignMessage(SignMessageOp),
    NativeTransfer(NativeTransferOp),
    Erc20Transfer(Erc20TransferOp),
}

pub open spec fn operation_wf(op: WithOperation) -> bool {
    match op {
        WithOperation::SignMessage(o) => o.wf(),
        WithOperation::NativeTransfer(o) => o.wf(),
        WithOperation::Erc20Transfer(o) => o.wf(),
    }
}

/// Position of the first network with the given name, if any.
pub open spec fn first_network_named(ns: Seq<crate::config::NamedNetwork>, name: Seq<u8>) -> Option<
    int,
>
    decreases ns.len(),
{
    if ns.len() == 0 {
        None
    } else if first_network_named(ns.drop_last(), name) is Some {
        first_network_named(ns.drop_last(), name)
    } else if ns.last().name@ == name {
        Some(ns.len() - 1)
    } else {
        None
    }
}

proof fn lemma_first_network_at(ns: Seq<crate::config::NamedNetwork>, name: Seq<u8>, k: int)
    requires
        0 <= k < ns.len(),
        ns[k].name@ == name,
        forall|j: int| 0 <= j < k ==> (#[trigger] ns[j]).name@ != name,
    ensures
        first_network_named(ns, name) == Some(k),
    decreases ns.len(),
{
    if k == ns.len() - 1 {
        lemma_first_network_none(ns.drop_last(), name);
    } else {
        lemma_first_network_at(ns.drop_last(), name, k);
    }
}

proof fn lemma_first_network_none(ns: Seq<crate::config::NamedNetwork>, name: Seq<u8>)
    requires
        forall|j: int| 0 <= j < ns.len() ==> (#[trigger] ns[j]).name@ != name,
    ensures
        first_network_named(ns, name) is None,
    decreases ns.len(),
{
    if ns.len() > 0 {
        lemma_first_network_none(ns.drop_last(), name);
    }
}

impl AppState<WithIntial> {
    /// Opens a session over a configuration.
    pub fn new(config: Config) -> (r: AppState<WithIntial>)
        ensures
            r.config == config,
    {
        AppState { config, inner: WithIntial }
    }

    /// Fixes the network whose configured name is `choice`; fails
    /// exactly when no network has that name. The configuration is
    /// kept unchanged for the rest of the session.
    pub fn select_network(self, choice: &Vec<u8>) -> (r: Result<
        AppState<WithNetwork>,
        SessionError,
    >)
        ensures
            (match r {
                Ok(next) => first_network_named(self.config.networks@, choice@) matches Some(k)
                    && network_eq(next.inner.network, self.config.networks@[k].network)
                    && next.config == self.config,
                Err(e) => first_network_named(self.config.networks@, choice@) is None && e
                    == SessionError::UnknownNetwork,
            }),
    {
        let ghost ns = self.config.networks@;
        let mut i: usize = 0;
        while i < self.config.networks.len()
            invariant
                ns == self.config.networks@,
                i <= ns.len(),
                forall|j: int| 0 <= j < i ==> (#[trigger] ns[j]).name@ != choice@,
            decreases ns.len() - i,
        {
            if bytes_equal(&self.config.networks[i].name, choice) {
                proof {
                    lemma_first_network_at(ns, choice@, i as int);
                }
                let network = self.config.networks[i].network.dup();
                return Ok(AppState { config: self.config, inner: WithNetwork { network } });
            }
            i = i + 1;
        }
        proof {
            lemma_first_network_none(ns, choice@);
        }
        Err(SessionError::UnknownNetwork)
    }
}

/// Whether two byte strings are equal.
pub fn bytes_equal(a: &Vec<u8>, b: &Vec<u8>) -> (r: bool)
    ensures
        r == (a@ == b@),
{
    if a.len() != b.len() {
        proof {
            assert(a@ != b@);
        }
        return false;
    }
    let mut i: usize = 0;
    while i < a.len()
        invariant
            i <= a@.len() == b@.len(),
            forall|j: int| 0 <= j < i ==> a@[j] == b@[j],
        decreases a@.len() - i,
    {
        if a[i] != b[i] {
            proof {
                assert(a@[i as int] != b@[i as int]);
            }
            return false;
        }
        i = i + 1;
    }
    proof {
        assert(a@ =~= b@);
    }
    true
}

/// Decodes a scanned public-key export payload and derives the
/// candidate accounts offered for selection.
pub fn candidate_accounts(payload: &Vec<u8>) -> (r: Result<
    (PublicKeyExportPayload, Vec<AccountCandidate>),
    SessionError,
>)
    ensures
        (match r {
            Ok((export, candidates)) => {
                &&& parse_key_export(payload@) == Some((export.xpub@, export.name@))
                &&& candidates@.len() == CANDIDATE_COUNT
                &&& (forall|i: int|
                    0 <= i < candidates@.len() ==> {
                        let c = #[trigger] candidates@[i];
                        &&& c.index == i
                        &&& c.address.wf()
                        &&& c.address.bytes@ == spec_child_address(export.xpub@, i as u32)->0
                    })
            },
            Err(e) => (match e {
                SessionError::Transport(te) => parse_key_export(payload@) is None && te
                    == crate::errors::TransportError::Malformed,
                SessionError::KeyDerivation(_) => parse_key_export(payload@) is Some,
                _ => false,
            }),
        }),
{
    let export = match decode_key_export(payload) {
        Ok(e) => e,
        Err(te) => {
            return Err(SessionError::Transport(te));
        },
    };
    let candidates = match derive_candidate_addresses(&export.xpub, CANDIDATE_COUNT) {
        Ok(cs) => cs,
        Err(ke) => {
            return Err(SessionError::KeyDerivation(ke));
        },
    };
    Ok((export, candidates))
}

impl AppState<WithNetwork> {
    /// Fixes the account at the selected ordinal: its address is
    /// re-derived from the extended public key, and the session's
    /// derivation path becomes `m/44'/60'/0'/0/selected`. Fails exactly
    /// when that child cannot be derived.
    pub fn import_account(self, xpub: &Vec<u8>, selected: u32) -> (r: Result<
        AppState<WithAccount>,
        SessionError,
    >)
        ensures
            (match r {
                Ok(next) => {
                    &&& spec_child_address(xpub@, selected) is Some
                    &&& next.inner.address.wf()
                    &&& next.inner.address.bytes@ == spec_child_address(xpub@, selected)->0
                    &&& next.inner.path.index == selected
                    &&& next.inner.network == self.inner.network
                    &&& next.config == self.config
                },
                Err(e) => spec_child_address(xpub@, selected) is None && (e
                    matches SessionError::KeyDerivation(_)),
            }),
    {
        let address = match derive_account_address(xpub, selected) {
            Ok(a) => a,
            Err(ke) => {
                return Err(SessionError::KeyDerivation(ke));
            },
        };
        Ok(
            AppState {
                config: self.config,
                inner: WithAccount {
                    network: self.inner.network,
                    address,
                    path: KeyPath { index: selected },
                },
            },
        )
    }
}

/// The operator's raw inputs for one operation.
pub enum OperationInput {
    SignMessage { message: Vec<u8> },
    NativeTransfer { amount_text: Vec<u8>, recipient_text: Vec<u8> },
    Erc20Transfer { token_text: Vec<u8>, amount_text: Vec<u8>, recipient_text: Vec<u8> },
}

pub open spec fn operation_input_wf(input: OperationInput) -> bool {
    match input {
        OperationInput::SignMessage { message } => message@.len() <= 0x00FF_FFFF,
        _ => true,
    }
}

/// The text an address is parsed from: either the input itself when it
/// starts with `0x` or has no space, or its second space-separated
/// token (a contact or token suggestion reads "name 0x...").
pub open spec fn address_token_of(s: Seq<u8>) -> Seq<u8> {
    if s.len() >= 2 && s[0] == 0x30 && s[1] == 0x78 {
        s
    } else {
        let sp = first_index_of(s, 0x20);
        if sp == s.len() {
            s
        } else {
            let rest = s.skip(sp + 1);
            rest.take(first_index_of(rest, 0x20))
        }
    }
}

/// The address bytes an operator input denotes, if any.
pub open spec fn resolved_address(s: Seq<u8>) -> Option<Seq<u8>> {
    parse_address_spec(address_token_of(s))
}

/// Resolves an operator-supplied recipient or token: a hex address, or
/// the address inside a "name 0x..." suggestion. Fails exactly when
/// neither form denotes 20 bytes of hex.
pub fn resolve_address_input(v: &Vec<u8>) -> (r: Result<Address, InputValidationError>)
    ensures
        (match r {
            Ok(a) => resolved_address(v@) == Some(a.bytes@) && a.wf(),
            Err(e) => resolved_address(v@) is None && e == InputValidationError::BadAddress,
        }),
{
    if v.len() >= 2 && v[0] == 0x30 && v[1] == 0x78 {
        return Address::from_text(v);
    }
    let sp = find_byte(v, 0x20);
    if sp == v.len() {
        return Address::from_text(v);
    }
    let rest = vstd::slice::slice_to_vec(vstd::slice::slice_subrange(v.as_slice(), sp + 1, v.len()));
    proof {
        assert(rest@ =~= v@.skip(sp + 1));
    }
    let sp2 = find_byte(&rest, 0x20);
    let token = vstd::slice::slice_to_vec(vstd::slice::slice_subrange(rest.as_slice(), 0, sp2));
    proof {
        assert(token@ =~= rest@.take(sp2 as int));
    }
    Address::from_text(&token)
}

impl AppState<WithAccount> {
    /// Accepts one operation after validating its inputs: addresses
    /// must resolve, and a native amount must fit the decimal grammar
    /// of the native currency. Inputs are checked in the order they
    /// are asked for, and the first failure is reported.
    pub fn ask_for_operation(self, input: OperationInput) -> (r: Result<
        AppState<WithOperation>,
        SessionError,
    >)
        requires
            self.inner.wf(),
            operation_input_wf(input),
        ensures
            r is Ok ==> operation_wf(r->Ok_0.inner) && r->Ok_0.config == self.config,
            (match input {
                OperationInput::SignMessage { message } => r matches Ok(next) && (next.inner
                    matches WithOperation::SignMessage(op) && op.message@ == message@
                    && op.address.bytes@ == self.inner.address.bytes@ && op.path.index
                    == self.inner.path.index),
                OperationInput::NativeTransfer { amount_text, recipient_text } => {
                    if !(amount_grammar_ok(amount_text@, NATIVE_DECIMALS as nat) && amount_value_of(
                        amount_text@,
                        NATIVE_DECIMALS as nat,
                    ) <= u128::MAX) {
                        r == Err::<AppState<WithOperation>, SessionError>(
                            SessionError::InputValidation(InputValidationError::BadAmount),
                        )
                    } else if resolved_address(recipient_text@) is None {
                        r == Err::<AppState<WithOperation>, SessionError>(
                            SessionError::InputValidation(InputValidationError::BadAddress),
                        )
                    } else {
                        r matches Ok(next) && (next.inner matches WithOperation::NativeTransfer(op)
                            && {
                            &&& op.amount.wf()
                            &&& op.amount.value() == amount_value_of(
                                amount_text@,
                                NATIVE_DECIMALS as nat,
                            )
                            &&& Some(op.to.bytes@) == resolved_address(recipient_text@)
                            &&& op.from.bytes@ == self.inner.address.bytes@
                            &&& op.path.index == self.inner.path.index
                        })
                    }
                },
                OperationInput::Erc20Transfer { token_text, amount_text, recipient_text } => {
                    if resolved_address(token_text@) is None {
                        r == Err::<AppState<WithOperation>, SessionError>(
                            SessionError::InputValidation(InputValidationError::BadAddress),
                        )
                    } else if !(amount_grammar_ok(amount_text@, NATIVE_DECIMALS as nat)
                        && amount_value_of(amount_text@, NATIVE_DECIMALS as nat) <= u128::MAX) {
                        r == Err::<AppState<WithOperation>, SessionError>(
                            SessionError::InputValidation(InputValidationError::BadAmount),
                        )
                    } else if resolved_address(recipient_text@) is None {
                        r == Err::<AppState<WithOperation>, SessionError>(
                            SessionError::InputValidation(InputValidationError::BadAddress),
                        )
                    } else {
                        r matches Ok(next) && (next.inner matches WithOperation::Erc20Transfer(op)
                            && {
                            &&& Some(op.erc20_token.bytes@) == resolved_address(token_text@)
                            &&& Some(op.to.bytes@) == resolved_address(recipient_text@)
                            &&& op.amount_text@ == amount_text@
                            &&& op.from.bytes@ == self.inner.address.bytes@
                            &&& op.path.index == self.inner.path.index
                        })
                    }
                },
            }),
    {
        match input {
            OperationInput::SignMessage { message } => {
                let op = SignMessageOp {
                    message,
                    address: self.inner.address.dup(),
                    path: KeyPath { index: self.inner.path.index },
                };
                Ok(AppState { config: self.config, inner: WithOperation::SignMessage(op) })
            },
            OperationInput::NativeTransfer { amount_text, recipient_text } => {
                let units = match parse_amount(&amount_text, NATIVE_DECIMALS) {
                    Some(u) => u,
                    None => {
                        return Err(
                            SessionError::InputValidation(InputValidationError::BadAmount),
                        );
                    },
                };
                let to = match resolve_address_input(&recipient_text) {
                    Ok(a) => a,
                    Err(e) => {
                        return Err(SessionError::InputValidation(e));
                    },
                };
                let op = NativeTransferOp {
                    path: KeyPath { index: self.inner.path.index },
                    to,
                    from: self.inner.address.dup(),
                    amount: Uint256::from_u128(units),
                };
                Ok(AppState { config: self.config, inner: WithOperation::NativeTransfer(op) })
            },
            OperationInput::Erc20Transfer { token_text, amount_text, recipient_text } => {
                let erc20_token = match resolve_address_input(&token_text) {
                    Ok(a) => a,
                    Err(e) => {
                        return Err(SessionError::InputValidation(e));
                    },
                };
                match parse_amount(&amount_text, NATIVE_DECIMALS) {
                    Some(_) => {},
                    None => {
                        return Err(
                            SessionError::InputValidation(InputValidationError::BadAmount),
                        );
                    },
                };
                let to = match resolve_address_input(&recipient_text) {
                    Ok(a) => a,
                    Err(e) => {
                        return Err(SessionError::InputValidation(e));
                    },
                };
                let op = Erc20TransferOp {
                    path: KeyPath { index: self.inner.path.index },
                    erc20_token,
                    to,
                    from: self.inner.address.dup(),
                    amount_text,
                };
                Ok(AppState { config: self.config, inner: WithOperation::Erc20Transfer(op) })
            },
        }
    }
}

/// What `execute` hands back to the caller: the signing request of a
/// message operation, or an opened transfer flow with its first query.
pub enum ExecutionStart {
    SignMessage { request: SignRequestPayload },
    NativeTransfer { flow: NativeFlow, action: ChainAction },
    Erc20Transfer { flow: Erc20Flow, action: ChainAction },
}

impl AppState<WithOperation> {
    /// Begins execution of the chosen operation. A message signing
    /// needs no chain state and yields its signing request at once; a
    /// transfer opens its flow, whose first action is the chain-id
    /// query.
    pub fn execute(self) -> (r: ExecutionStart)
        requires
            operation_wf(self.inner),
        ensures
            (match self.inner {
                WithOperation::SignMessage(op) => r matches ExecutionStart::SignMessage { request }
                    && {
                    &&& request.wf()
                    &&& request.sign_data@ == op.message@
                    &&& request.data_type == SignDataType::PersonalMessage
                    &&& request.path_index == op.path.index
                    &&& request.address.bytes@ == op.address.bytes@
                    &&& request.request_id@ == Seq::<u8>::empty()
                },
                WithOperation::NativeTransfer(op) => r matches ExecutionStart::NativeTransfer {
                    flow,
                    action,
                } && action == ChainAction::FetchChainId && (flow
                    matches NativeFlow::FetchingChainId { params } && {
                    &&& params.from.bytes@ == op.from.bytes@
                    &&& params.to == op.to
                    &&& params.amount == op.amount
                    &&& params.path_index == op.path.index
                }),
                WithOperation::Erc20Transfer(op) => r matches ExecutionStart::Erc20Transfer {
                    flow,
                    action,
                } && action == ChainAction::FetchChainId && (flow
                    matches Erc20Flow::FetchingChainId { params } && {
                    &&& params.from.bytes@ == op.from.bytes@
                    &&& params.token == op.erc20_token
                    &&& params.to == op.to
                    &&& params.amount_text@ == op.amount_text@
                    &&& params.path_index == op.path.index
                }),
            }),
    {
        match self.inner {
            WithOperation::SignMessage(op) => {
                let request = SignRequestPayload {
                    request_id: Vec::new(),
                    sign_data: op.message,
                    data_type: SignDataType::PersonalMessage,
                    path_index: op.path.index,
                    address: op.address,
                };
                proof {
                    assert(request.request_id@ =~= Seq::<u8>::empty());
                }
                ExecutionStart::SignMessage { request }
            },
            WithOperation::NativeTransfer(op) => {
                let params = NativeTransferParams {
                    from: op.from,
                    to: op.to,
                    amount: op.amount,
                    path_index: op.path.index,
                };
                let (flow, action) = native_start(params);
                ExecutionStart::NativeTransfer { flow, action }
            },
            WithOperation::Erc20Transfer(op) => {
                let params = Erc20TransferParams {
                    from: op.from,
                    token: op.erc20_token,
                    to: op.to,
                    amount_text: op.amount_text,
                    path_index: op.path.index,
                };
                let (flow, action) = erc20_start(params);
                ExecutionStart::Erc20Transfer { flow, action }
            },
        }
    }
}

} // verus!
