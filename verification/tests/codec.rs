use shekozwallet::errors::TransportError;
use shekozwallet::transport::decode;
use shekozwallet::transport::encode;
use shekozwallet::transport::frame_from_text;
use shekozwallet::transport::frame_to_text;
use shekozwallet::transport::Reassembler;
use shekozwallet::transport::TransportFrame;
use shekozwallet::transport::TypeTag;
use shekozwallet::transport::FRAME_CAPACITY;

fn sample_payload(len: usize) -> Vec<u8> {
    (0..len).map(|i| (i % 251) as u8).collect()
}

#[test]
fn single_frame_round_trip() {
    let payload = sample_payload(40);
    let frames = encode(&payload, TypeTag::SignRequest);
    assert_eq!(frames.len(), 1);
    assert_eq!(frames[0].index, 0);
    assert_eq!(frames[0].total, 1);
    let out = decode(&frames, TypeTag::SignRequest).unwrap();
    assert_eq!(out, payload);
}

#[test]
fn multi_frame_round_trip() {
    let payload = sample_payload(3 * FRAME_CAPACITY + 17);
    let frames = encode(&payload, TypeTag::Signature);
    assert_eq!(frames.len(), 4);
    let out = decode(&frames, TypeTag::Signature).unwrap();
    assert_eq!(out, payload);
}

#[test]
fn empty_payload_round_trip() {
    let payload: Vec<u8> = Vec::new();
    let frames = encode(&payload, TypeTag::PublicKeyExport);
    assert_eq!(frames.len(), 1);
    let out = decode(&frames, TypeTag::PublicKeyExport).unwrap();
    assert!(out.is_empty());
}

#[test]
fn out_of_order_frames_reassemble() {
    let payload = sample_payload(2 * FRAME_CAPACITY + 5);
    let mut frames = encode(&payload, TypeTag::SignRequest);
    frames.reverse();
    let out = decode(&frames, TypeTag::SignRequest).unwrap();
    assert_eq!(out, payload);
}

#[test]
fn tampered_checksum_is_malformed() {
    let payload = sample_payload(2 * FRAME_CAPACITY + 50);
    let mut frames = encode(&payload, TypeTag::SignRequest);
    frames[1].checksum ^= 1;
    assert_eq!(
        decode(&frames, TypeTag::SignRequest),
        Err(TransportError::Malformed)
    );
}

#[test]
fn tampered_single_frame_checksum_is_malformed() {
    let payload = sample_payload(10);
    let mut frames = encode(&payload, TypeTag::SignRequest);
    frames[0].checksum = frames[0].checksum.wrapping_add(7);
    assert_eq!(
        decode(&frames, TypeTag::SignRequest),
        Err(TransportError::Malformed)
    );
}

#[test]
fn wrong_tag_is_unexpected_type() {
    let payload = sample_payload(20);
    let frames = encode(&payload, TypeTag::PublicKeyExport);
    assert_eq!(
        decode(&frames, TypeTag::Signature),
        Err(TransportError::UnexpectedType)
    );
}

#[test]
fn missing_fragment_is_incomplete() {
    let payload = sample_payload(2 * FRAME_CAPACITY + 5);
    let mut frames = encode(&payload, TypeTag::SignRequest);
    frames.remove(1);
    assert_eq!(
        decode(&frames, TypeTag::SignRequest),
        Err(TransportError::Incomplete)
    );
    let empty: Vec<TransportFrame> = Vec::new();
    assert_eq!(
        decode(&empty, TypeTag::SignRequest),
        Err(TransportError::Incomplete)
    );
}

#[test]
fn reassembler_accepts_any_arrival_order() {
    let payload = sample_payload(3 * FRAME_CAPACITY);
    let mut frames = encode(&payload, TypeTag::Signature);
    let mut acc = Reassembler::new();
    let last = frames.pop().unwrap();
    let first = frames.remove(0);
    let middle = frames.remove(0);
    acc.receive(last);
    assert!(!acc.complete());
    assert_eq!(
        acc.message(TypeTag::Signature),
        Err(TransportError::Incomplete)
    );
    acc.receive(first);
    assert!(!acc.complete());
    acc.receive(middle);
    assert!(acc.complete());
    assert_eq!(acc.message(TypeTag::Signature).unwrap(), payload);
}

#[test]
fn frame_text_round_trip() {
    let payload = sample_payload(FRAME_CAPACITY + 9);
    let frames = encode(&payload, TypeTag::SignRequest);
    for frame in &frames {
        let text = frame_to_text(frame);
        assert!(text.iter().all(|b| b.is_ascii_hexdigit()));
        let back = frame_from_text(&text).unwrap();
        assert_eq!(back.tag, frame.tag);
        assert_eq!(back.index, frame.index);
        assert_eq!(back.total, frame.total);
        assert_eq!(back.checksum, frame.checksum);
        assert_eq!(back.payload, frame.payload);
    }
}

#[test]
fn garbage_text_is_malformed() {
    let text = b"not hex at all!".to_vec();
    assert!(matches!(
        frame_from_text(&text),
        Err(TransportError::Malformed)
    ));
    let short = b"ab".to_vec();
    assert!(matches!(
        frame_from_text(&short),
        Err(TransportError::Malformed)
    ));
}
