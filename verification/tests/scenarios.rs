use shekozwallet::amount::Uint256;
use shekozwallet::config::Config;
use shekozwallet::errors::SessionError;
use shekozwallet::errors::TransportError;
use shekozwallet::flows::erc20_step;
use shekozwallet::flows::native_step;
use shekozwallet::flows::ChainAction;
use shekozwallet::flows::ChainEvent;
use shekozwallet::flows::Erc20Flow;
use shekozwallet::flows::NativeFlow;
use shekozwallet::keys::derive_account_address;
use shekozwallet::protocol::device_ready;
use shekozwallet::protocol::scan_reply;
use shekozwallet::protocol::start_signing;
use shekozwallet::protocol::SigningStep;
use shekozwallet::registry::encode_key_export;
use shekozwallet::registry::PublicKeyExportPayload;
use shekozwallet::registry::SignDataType;
use shekozwallet::registry::Signature65;
use shekozwallet::session::candidate_accounts;
use shekozwallet::session::AppState;
use shekozwallet::session::ExecutionStart;
use shekozwallet::session::OperationInput;
use shekozwallet::transport::encode;
use shekozwallet::transport::frame_to_text;
use shekozwallet::transport::TypeTag;

// The public master key of the first BIP32 test vector; it carries no
// secret and derives the non-hardened children `0/i`.
const XPUB: &[u8] =
    b"xpub661MyMwAqRbcFtXgS5sYJABqqG9YLmC4Q1Rdap9gSE8NqtwybGhePY2gZ29ESFjqJoCu1Rupje8YtGqsefD265TMg7usUDFdp6W1EGMcet8";

fn sample_signature_payload() -> Vec<u8> {
    let mut sig = vec![0x11u8; 32];
    sig.extend(vec![0x22u8; 32]);
    sig.push(27);
    sig
}

/// Scanned reply frames for a payload under a tag, as display texts.
fn reply_texts(payload: &Vec<u8>, tag: TypeTag) -> Vec<Vec<u8>> {
    encode(payload, tag).iter().map(frame_to_text).collect()
}

#[test]
fn rederiving_a_child_is_deterministic() {
    let xpub = XPUB.to_vec();
    let first = derive_account_address(&xpub, 3).unwrap();
    let second = derive_account_address(&xpub, 3).unwrap();
    assert_eq!(first.bytes, second.bytes);
    // a different ordinal gives a different account
    let other = derive_account_address(&xpub, 4).unwrap();
    assert_ne!(first.bytes, other.bytes);
}

#[test]
fn bad_key_material_fails_closed() {
    let garbage = b"xpub-not-really".to_vec();
    assert!(derive_account_address(&garbage, 0).is_err());
}

// The full happy path of a message signing: mainnet, import of the
// third candidate account, a "hello" request tagged as a personal
// message, and a scanned 65-byte signature reply.
#[test]
fn message_signing_session() {
    let state = AppState::new(Config::default());
    let state = state.select_network(&b"mainnet".to_vec()).unwrap();
    assert_eq!(state.inner.network.chain_id, 1);

    // scan of the device's public-key export
    let export = PublicKeyExportPayload {
        xpub: XPUB.to_vec(),
        name: b"vault".to_vec(),
    };
    let payload = encode_key_export(&export);
    let (export_back, candidates) = candidate_accounts(&payload).unwrap();
    assert_eq!(export_back.xpub, XPUB.to_vec());
    assert_eq!(candidates.len(), 5);

    // selecting index 2 fixes the path m/44'/60'/0'/0/2
    let state = state.import_account(&XPUB.to_vec(), 2).unwrap();
    assert_eq!(state.inner.path.text(), b"m/44'/60'/0'/0/2".to_vec());
    assert_eq!(state.inner.address.bytes, candidates[2].address.bytes);

    let state = state
        .ask_for_operation(OperationInput::SignMessage {
            message: b"hello".to_vec(),
        })
        .unwrap();
    let request = match state.execute() {
        ExecutionStart::SignMessage { request } => request,
        _ => panic!("a message operation must yield a signing request"),
    };
    assert!(matches!(request.data_type, SignDataType::PersonalMessage));
    assert_eq!(request.sign_data, b"hello".to_vec());
    assert_eq!(request.path_index, 2);

    // encode and display, confirm the device, scan the reply
    let (step, texts) = start_signing(&request);
    assert!(!texts.is_empty());
    let step = device_ready(step, true).unwrap();
    let sig_payload = sample_signature_payload();
    let mut step = step;
    for text in reply_texts(&sig_payload, TypeTag::Signature) {
        let (next, reported) = scan_reply(step, &text).unwrap();
        assert!(reported.is_none());
        step = next;
    }
    match step {
        SigningStep::Signed(sig) => {
            assert_eq!(sig.r, vec![0x11u8; 32]);
            assert_eq!(sig.s, vec![0x22u8; 32]);
            assert_eq!(sig.v, 27);
        }
        _ => panic!("the reply must end the attempt as signed"),
    }
}

// A reply tagged as a public-key export while a signature is expected
// is rejected and scanning continues; the correct reply then succeeds.
#[test]
fn wrong_typed_reply_keeps_scanning() {
    let request = {
        let state = AppState::new(Config::default());
        let state = state.select_network(&b"mainnet".to_vec()).unwrap();
        let state = state.import_account(&XPUB.to_vec(), 0).unwrap();
        let state = state
            .ask_for_operation(OperationInput::SignMessage {
                message: b"hi".to_vec(),
            })
            .unwrap();
        match state.execute() {
            ExecutionStart::SignMessage { request } => request,
            _ => unreachable!(),
        }
    };
    let (step, _texts) = start_signing(&request);
    let step = device_ready(step, true).unwrap();

    // the device shows its key export again instead of a signature
    let wrong = reply_texts(&b"some export".to_vec(), TypeTag::PublicKeyExport);
    let (step, reported) = scan_reply(step, &wrong[0]).unwrap();
    assert_eq!(reported, Some(TransportError::UnexpectedType));
    assert!(matches!(step, SigningStep::AwaitingScan(_)));

    // scanning goes on and the real reply is still accepted
    let sig_payload = sample_signature_payload();
    let right = reply_texts(&sig_payload, TypeTag::Signature);
    let (step, reported) = scan_reply(step, &right[0]).unwrap();
    assert!(reported.is_none());
    assert!(matches!(step, SigningStep::Signed(_)));
}

// A native transfer of one unit: gas estimation completes although the
// balance is far smaller than the amount, and a broadcast without a
// receipt in the polling window ends as "not mined", not as an error.
#[test]
fn native_transfer_without_receipt_reports_not_mined() {
    let state = AppState::new(Config::default());
    let state = state.select_network(&b"mainnet".to_vec()).unwrap();
    let state = state.import_account(&XPUB.to_vec(), 0).unwrap();
    let state = state
        .ask_for_operation(OperationInput::NativeTransfer {
            amount_text: b"1".to_vec(),
            recipient_text: b"0x2791bca1f2de4661ed88a30c99a7a9449aa84174".to_vec(),
        })
        .unwrap();
    let (flow, action) = match state.execute() {
        ExecutionStart::NativeTransfer { flow, action } => (flow, action),
        _ => panic!("a native transfer must open its flow"),
    };
    assert_eq!(action, ChainAction::FetchChainId);

    let (flow, action) = native_step(flow, ChainEvent::ChainId(1)).unwrap();
    assert_eq!(action, Some(ChainAction::FetchBalance));
    // insufficient balance: 10 wei against a transfer of 10^18
    let (flow, action) =
        native_step(flow, ChainEvent::Balance(Uint256::from_u128(10))).unwrap();
    assert_eq!(action, Some(ChainAction::FetchNonce));
    let (flow, action) = native_step(flow, ChainEvent::Nonce(Uint256::from_u128(7))).unwrap();
    // gas estimation still runs on the draft transaction
    assert_eq!(action, Some(ChainAction::EstimateGas));
    match &flow {
        NativeFlow::EstimatingGas { draft, .. } => {
            assert_eq!(draft.chain_id, 1);
            assert_eq!(
                draft.value.bytes,
                Uint256::from_u128(1_000_000_000_000_000_000).bytes
            );
        }
        _ => panic!("estimation must see the draft"),
    }
    let (flow, action) =
        native_step(flow, ChainEvent::GasLimit(Uint256::from_u128(21_000))).unwrap();
    assert_eq!(action, Some(ChainAction::FetchGasPrice));
    let (flow, action) =
        native_step(flow, ChainEvent::GasPrice(Uint256::from_u128(30_000_000_000))).unwrap();
    assert_eq!(action, Some(ChainAction::AskConfirmation));
    let (flow, action) = native_step(flow, ChainEvent::Confirmation(true)).unwrap();
    assert_eq!(action, Some(ChainAction::RunSigning));
    let request = match &flow {
        NativeFlow::Signing { request, .. } => {
            assert!(matches!(
                request.data_type,
                SignDataType::TypedTransaction
            ));
            assert!(!request.sign_data.is_empty());
            request
        }
        _ => panic!("confirmation must lead to signing"),
    };
    assert_eq!(request.path_index, 0);
    let sig = Signature65::from_bytes(&sample_signature_payload()).unwrap();
    let (flow, action) = native_step(flow, ChainEvent::SignatureReady(sig)).unwrap();
    assert_eq!(action, Some(ChainAction::Broadcast));
    match &flow {
        NativeFlow::AwaitingBroadcast { raw } => assert!(!raw.is_empty()),
        _ => panic!("a signature must lead to broadcast"),
    }
    let (flow, action) =
        native_step(flow, ChainEvent::BroadcastHash(vec![0xabu8; 32])).unwrap();
    assert_eq!(action, Some(ChainAction::AwaitReceipt));
    // no receipt within the polling window
    let (flow, action) = native_step(flow, ChainEvent::Receipt(None)).unwrap();
    assert_eq!(action, None);
    match flow {
        NativeFlow::Done { mined } => assert!(mined.is_none()),
        _ => panic!("a missing receipt still ends the flow"),
    }
}

#[test]
fn declined_confirmation_aborts() {
    let state = AppState::new(Config::default());
    let state = state.select_network(&b"mainnet".to_vec()).unwrap();
    let state = state.import_account(&XPUB.to_vec(), 0).unwrap();
    let state = state
        .ask_for_operation(OperationInput::NativeTransfer {
            amount_text: b"0.5".to_vec(),
            recipient_text: b"0x2791bca1f2de4661ed88a30c99a7a9449aa84174".to_vec(),
        })
        .unwrap();
    let (flow, _) = match state.execute() {
        ExecutionStart::NativeTransfer { flow, action } => (flow, action),
        _ => unreachable!(),
    };
    let (flow, _) = native_step(flow, ChainEvent::ChainId(1)).unwrap();
    let (flow, _) = native_step(flow, ChainEvent::Balance(Uint256::from_u128(0))).unwrap();
    let (flow, _) = native_step(flow, ChainEvent::Nonce(Uint256::from_u128(0))).unwrap();
    let (flow, _) =
        native_step(flow, ChainEvent::GasLimit(Uint256::from_u128(21_000))).unwrap();
    let (flow, _) =
        native_step(flow, ChainEvent::GasPrice(Uint256::from_u128(1_000))).unwrap();
    let refused = native_step(flow, ChainEvent::Confirmation(false));
    assert!(matches!(refused, Err(SessionError::UserAbort)));
}

#[test]
fn out_of_order_event_is_a_caller_error() {
    let state = AppState::new(Config::default());
    let state = state.select_network(&b"mainnet".to_vec()).unwrap();
    let state = state.import_account(&XPUB.to_vec(), 0).unwrap();
    let state = state
        .ask_for_operation(OperationInput::NativeTransfer {
            amount_text: b"1".to_vec(),
            recipient_text: b"0x2791bca1f2de4661ed88a30c99a7a9449aa84174".to_vec(),
        })
        .unwrap();
    let (flow, _) = match state.execute() {
        ExecutionStart::NativeTransfer { flow, action } => (flow, action),
        _ => unreachable!(),
    };
    // the flow asked for the chain id, not for a gas price
    let wrong = native_step(flow, ChainEvent::GasPrice(Uint256::from_u128(1)));
    assert!(matches!(wrong, Err(SessionError::ProtocolViolation)));
}

// A token transfer parses its amount only once the token's decimal
// count arrives, builds the transfer call data, and carries a failed
// dry run as a warning instead of stopping.
#[test]
fn erc20_transfer_flow() {
    let state = AppState::new(Config::default());
    let state = state.select_network(&b"polygon".to_vec()).unwrap();
    assert_eq!(state.inner.network.chain_id, 137);
    let state = state.import_account(&XPUB.to_vec(), 1).unwrap();
    let state = state
        .ask_for_operation(OperationInput::Erc20Transfer {
            token_text: b"0x2791bca1f2de4661ed88a30c99a7a9449aa84174".to_vec(),
            amount_text: b"12.25".to_vec(),
            recipient_text: b"0x9c9e5fd8bbc25984b178fdce6117defa39d2db39".to_vec(),
        })
        .unwrap();
    let (flow, action) = match state.execute() {
        ExecutionStart::Erc20Transfer { flow, action } => (flow, action),
        _ => panic!("a token transfer must open its flow"),
    };
    assert_eq!(action, ChainAction::FetchChainId);
    let (flow, _) = erc20_step(flow, ChainEvent::ChainId(137)).unwrap();
    let (flow, _) =
        erc20_step(flow, ChainEvent::TokenBalance(Uint256::from_u128(50_000_000))).unwrap();
    // six decimals: 12.25 becomes 12,250,000 smallest units
    let (flow, action) = erc20_step(flow, ChainEvent::TokenDecimals(6)).unwrap();
    assert_eq!(action, Some(ChainAction::FetchTokenSymbol));
    match &flow {
        Erc20Flow::FetchingSymbol { amount, .. } => {
            assert_eq!(amount.bytes, Uint256::from_u128(12_250_000).bytes);
        }
        _ => panic!("the amount must be fixed by the decimals"),
    }
    let (flow, _) = erc20_step(flow, ChainEvent::TokenSymbol(b"USDC".to_vec())).unwrap();
    let (flow, _) = erc20_step(flow, ChainEvent::Nonce(Uint256::from_u128(3))).unwrap();
    match &flow {
        Erc20Flow::EstimatingGas { draft, .. } => {
            assert_eq!(&draft.data[0..4], &[0xa9, 0x05, 0x9c, 0xbb]);
            assert_eq!(draft.data.len(), 68);
        }
        _ => panic!("estimation must see the transfer call data"),
    }
    let (flow, _) = erc20_step(flow, ChainEvent::GasLimit(Uint256::from_u128(60_000))).unwrap();
    let (flow, action) =
        erc20_step(flow, ChainEvent::GasPrice(Uint256::from_u128(40_000_000_000))).unwrap();
    assert_eq!(action, Some(ChainAction::DryRunTransfer));
    // the dry run fails; the flow warns and continues to signing
    let (flow, action) = erc20_step(flow, ChainEvent::DryRunResult(false)).unwrap();
    assert_eq!(action, Some(ChainAction::RunSigning));
    match &flow {
        Erc20Flow::Signing { dry_run_ok, .. } => assert!(!*dry_run_ok),
        _ => panic!("the dry run must not block the flow"),
    }
    let sig = Signature65::from_bytes(&sample_signature_payload()).unwrap();
    let (flow, _) = erc20_step(flow, ChainEvent::SignatureReady(sig)).unwrap();
    let (flow, _) = erc20_step(flow, ChainEvent::BroadcastHash(vec![0x01u8; 32])).unwrap();
    let (flow, _) = erc20_step(flow, ChainEvent::Receipt(Some(vec![0x02u8; 32]))).unwrap();
    match flow {
        Erc20Flow::Done { mined } => assert_eq!(mined, Some(vec![0x02u8; 32])),
        _ => panic!("a receipt ends the flow as mined"),
    }
}

#[test]
fn bad_token_amount_is_rejected_by_decimals() {
    let state = AppState::new(Config::default());
    let state = state.select_network(&b"polygon".to_vec()).unwrap();
    let state = state.import_account(&XPUB.to_vec(), 0).unwrap();
    let state = state
        .ask_for_operation(OperationInput::Erc20Transfer {
            token_text: b"0x2791bca1f2de4661ed88a30c99a7a9449aa84174".to_vec(),
            amount_text: b"12.25".to_vec(),
            recipient_text: b"0x9c9e5fd8bbc25984b178fdce6117defa39d2db39".to_vec(),
        })
        .unwrap();
    let (flow, _) = match state.execute() {
        ExecutionStart::Erc20Transfer { flow, action } => (flow, action),
        _ => unreachable!(),
    };
    let (flow, _) = erc20_step(flow, ChainEvent::ChainId(137)).unwrap();
    let (flow, _) = erc20_step(flow, ChainEvent::TokenBalance(Uint256::from_u128(1))).unwrap();
    // a token with no decimals cannot take "12.25"
    let refused = erc20_step(flow, ChainEvent::TokenDecimals(0));
    assert!(matches!(
        refused,
        Err(SessionError::InputValidation(_))
    ));
}

#[test]
fn unknown_network_is_refused() {
    let state = AppState::new(Config::default());
    let refused = state.select_network(&b"testnet".to_vec());
    assert!(matches!(refused, Err(SessionError::UnknownNetwork)));
}
