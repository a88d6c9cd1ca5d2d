use shekozwallet::address::Address;
use shekozwallet::errors::TransportError;
use shekozwallet::registry::decode_key_export;
use shekozwallet::registry::decode_sign_request;
use shekozwallet::registry::encode_key_export;
use shekozwallet::registry::encode_sign_request;
use shekozwallet::registry::PublicKeyExportPayload;
use shekozwallet::registry::SignDataType;
use shekozwallet::registry::Signature65;
use shekozwallet::registry::SignRequestPayload;

fn sample_address() -> Address {
    Address::from_text(&b"0x2791bca1f2de4661ed88a30c99a7a9449aa84174".to_vec()).unwrap()
}

#[test]
fn sign_request_round_trips() {
    let request = SignRequestPayload {
        request_id: vec![9, 9, 9],
        sign_data: b"payload bytes".to_vec(),
        data_type: SignDataType::TypedTransaction,
        path_index: 4,
        address: sample_address(),
    };
    let bytes = encode_sign_request(&request);
    let back = decode_sign_request(&bytes).unwrap();
    assert_eq!(back.request_id, vec![9, 9, 9]);
    assert_eq!(back.sign_data, b"payload bytes".to_vec());
    assert!(matches!(back.data_type, SignDataType::TypedTransaction));
    assert_eq!(back.path_index, 4);
    assert_eq!(back.address.bytes, request.address.bytes);
}

#[test]
fn truncated_sign_request_is_malformed() {
    let request = SignRequestPayload {
        request_id: Vec::new(),
        sign_data: b"x".to_vec(),
        data_type: SignDataType::PersonalMessage,
        path_index: 0,
        address: sample_address(),
    };
    let mut bytes = encode_sign_request(&request);
    bytes.pop();
    assert!(matches!(
        decode_sign_request(&bytes),
        Err(TransportError::Malformed)
    ));
    // an unknown kind byte is rejected too
    let mut wrong_kind = encode_sign_request(&request);
    wrong_kind[0] = 0x7f;
    assert!(matches!(
        decode_sign_request(&wrong_kind),
        Err(TransportError::Malformed)
    ));
}

#[test]
fn signature_wire_form_round_trips() {
    let mut wire = vec![0xaau8; 32];
    wire.extend(vec![0xbbu8; 32]);
    wire.push(28);
    let sig = Signature65::from_bytes(&wire).unwrap();
    assert_eq!(sig.r, vec![0xaau8; 32]);
    assert_eq!(sig.s, vec![0xbbu8; 32]);
    assert_eq!(sig.v, 28);
    assert_eq!(sig.to_bytes(), wire);
    // only exactly 65 bytes are accepted
    assert!(matches!(
        Signature65::from_bytes(&vec![0u8; 64]),
        Err(TransportError::Malformed)
    ));
    assert!(matches!(
        Signature65::from_bytes(&vec![0u8; 66]),
        Err(TransportError::Malformed)
    ));
}

#[test]
fn key_export_round_trips() {
    let export = PublicKeyExportPayload {
        xpub: b"xpub-encoded-key-text".to_vec(),
        name: b"cold vault".to_vec(),
    };
    let bytes = encode_key_export(&export);
    let back = decode_key_export(&bytes).unwrap();
    assert_eq!(back.xpub, export.xpub);
    assert_eq!(back.name, export.name);
    // a declared key length beyond the payload is rejected
    let short = vec![0xffu8, 0xff, 0xff, 0xff, 1, 2];
    assert!(matches!(
        decode_key_export(&short),
        Err(TransportError::Malformed)
    ));
}
