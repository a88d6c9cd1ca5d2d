//! Signing round-trip protocol.
//!
//! One signing attempt walks `AwaitingDeviceAck` (request displayed),
//! `AwaitingScan` (operator scans the device's reply frames) and ends in
//! `Signed`. A reply whose declared tag is not the signature tag, or
//! whose decode fails, is reported to the caller and scanning continues
//! with a fresh accumulator; nothing falls through silently.

use vstd::prelude::*;

use crate::errors::SessionError;
use crate::errors::TransportError;
use crate::registry::sign_request_bytes_of;
use crate::registry::Signature65;
use crate::registry::SignRequestPayload;
use crate::transport::frame_text_of;
use crate::transport::frames_complete;
use crate::transport::parse_frame_text;
use crate::transport::spec_decode;
use crate::transport::spec_encode;
use crate::transport::Reassembler;
use crate::transport::TypeTag;

verus! {

/// Where one signing attempt stands.
pub enum SigningStep {
    /// The request is on screen; the operator must confirm the device
    /// has produced its reply.
    AwaitingDeviceAck,
    /// Reply frames are being scanned into the accumulator.
    AwaitingScan(Reassembler),
    /// The device's signature has been decoded and checked.
    Signed(Signature65),
}

/// What one scanned text did to a pending reassembly.
pub enum ScanProgress {
    /// The frame was accepted; fragments are still outstanding.
    NeedMore(Reassembler),
    /// The text or the assembled message was rejected; the error is
    /// surfaced and scanning continues with the returned accumulator.
    Retry(Reassembler, TransportError),
    /// The message assembled, its checksum held and its tag matched.
    Message(Vec<u8>),
}

/// The spec-level payload of a request.
pub open spec fn request_payload_of(req: SignRequestPayload) -> Seq<u8> {
    sign_request_bytes_of(
        req.request_id@,
        req.sign_data@,
        req.data_type,
        req.path_index,
        req.address.bytes@,
    )
}

/// Encodes a signing request into display texts, one per frame, and
/// enters `AwaitingDeviceAck`.
pub fn start_signing(req: &SignRequestPayload) -> (r: (SigningStep, Vec<Vec<u8>>))
    requires
        req.wf(),
    ensures
        r.0 is AwaitingDeviceAck,
        ({
            let fs = spec_encode(request_payload_of(*req), TypeTag::SignRequest);
            &&& r.1@.len() == fs.len()
            &&& (forall|i: int| 0 <= i < fs.len() ==> (#[trigger] r.1@[i])@ == frame_text_of(fs[i]))
        }),
{
    let payload = crate::registry::encode_sign_request(req);
    let frames = crate::transport::encode(&payload, TypeTag::SignRequest);
    let ghost fs = spec_encode(request_payload_of(*req), TypeTag::SignRequest);
    let mut texts: Vec<Vec<u8>> = Vec::new();
    let mut i: usize = 0;
    while i < frames.len()
        invariant
            crate::transport::frames_view(frames@) == fs,
            frames@.len() == fs.len(),
            i <= frames@.len(),
            texts@.len() == i,
            forall|j: int| 0 <= j < i ==> (#[trigger] texts@[j])@ == frame_text_of(fs[j]),
        decreases frames@.len() - i,
    {
        let text = crate::transport::frame_to_text(&frames[i]);
        texts.push(text);
        i = i + 1;
    }
    (SigningStep::AwaitingDeviceAck, texts)
}

/// Consumes the acknowledgement state: once the operator confirms the
/// device is ready, scanning begins with an empty accumulator; declining
/// stays put. Any other state is a caller error.
pub fn device_ready(step: SigningStep, ready: bool) -> (r: Result<SigningStep, SessionError>)
    ensures
        (match step {
            SigningStep::AwaitingDeviceAck => (match r {
                Ok(next) => if ready {
                    next matches SigningStep::AwaitingScan(p) && p.model() == Seq::<
                        crate::transport::FrameView,
                    >::empty()
                } else {
                    next is AwaitingDeviceAck
                },
                Err(_) => false,
            }),
            _ => r == Err::<SigningStep, SessionError>(SessionError::ProtocolViolation),
        }),
{
    match step {
        SigningStep::AwaitingDeviceAck => {
            if ready {
                Ok(SigningStep::AwaitingScan(Reassembler::new()))
            } else {
                Ok(SigningStep::AwaitingDeviceAck)
            }
        },
        _ => Err(SessionError::ProtocolViolation),
    }
}

/// Feeds one scanned text into a pending reassembly, expecting a
/// message tagged `expected`.
///
/// Text that does not parse as a frame is reported and leaves the
/// accumulator as it was. Once every fragment is present the message is
/// decoded; a checksum or tag failure is surfaced and the accumulator
/// starts over, so no partial state carries into the next message.
pub fn scan_step(pending: Reassembler, text: &Vec<u8>, expected: TypeTag) -> (r: ScanProgress)
    ensures
        (match parse_frame_text(text@) {
            None => r matches ScanProgress::Retry(p, e) && p.model() == pending.model() && e
                == TransportError::Malformed,
            Some(fv) => {
                let m = pending.model().push(fv);
                if !frames_complete(m) {
                    r matches ScanProgress::NeedMore(p) && p.model() == m
                } else {
                    match spec_decode(m, expected) {
                        Ok(payload) => r matches ScanProgress::Message(v) && v@ == payload,
                        Err(e) => r matches ScanProgress::Retry(p, e2) && e2 == e && p.model()
                            == Seq::<crate::transport::FrameView>::empty(),
                    }
                }
            },
        }),
{
    let mut pending = pending;
    let frame = match crate::transport::frame_from_text(text) {
        Ok(f) => f,
        Err(e) => {
            return ScanProgress::Retry(pending, e);
        },
    };
    pending.receive(frame);
    if !pending.complete() {
        return ScanProgress::NeedMore(pending);
    }
    match pending.message(expected) {
        Ok(payload) => ScanProgress::Message(payload),
        Err(e) => ScanProgress::Retry(Reassembler::new(), e),
    }
}

/// Feeds one scanned text into a signing attempt.
///
/// In `AwaitingScan`, a complete, checksum-sound reply tagged as a
/// signature and holding exactly 65 bytes moves to `Signed`; every
/// other outcome surfaces its transport error and keeps scanning. In
/// any other state the call is a caller error.
pub fn scan_reply(step: SigningStep, text: &Vec<u8>) -> (r: Result<
    (SigningStep, Option<TransportError>),
    SessionError,
>)
    ensures
        (match step {
            SigningStep::AwaitingScan(pending) => (match r {
                Ok((next, reported)) => (match parse_frame_text(text@) {
                    None => next matches SigningStep::AwaitingScan(p) && p.model()
                        == pending.model() && reported == Some(TransportError::Malformed),
                    Some(fv) => {
                        let m = pending.model().push(fv);
                        if !frames_complete(m) {
                            next matches SigningStep::AwaitingScan(p) && p.model() == m && reported
                                is None
                        } else {
                            match spec_decode(m, TypeTag::Signature) {
                                Ok(payload) => if payload.len() == 65 {
                                    next matches SigningStep::Signed(sig) && sig.wf()
                                        && sig.bytes_of() == payload && reported is None
                                } else {
                                    next matches SigningStep::AwaitingScan(p) && p.model() == Seq::<
                                        crate::transport::FrameView,
                                    >::empty() && reported == Some(TransportError::Malformed)
                                },
                                Err(e) => next matches SigningStep::AwaitingScan(p) && p.model()
                                    == Seq::<crate::transport::FrameView>::empty() && reported
                                    == Some(e),
                            }
                        }
                    },
                }),
                Err(_) => false,
            }),
            _ => r == Err::<(SigningStep, Option<TransportError>), SessionError>(
                SessionError::ProtocolViolation,
            ),
        }),
{
    let pending = match step {
        SigningStep::AwaitingScan(p) => p,
        _ => {
            return Err(SessionError::ProtocolViolation);
        },
    };
    match scan_step(pending, text, TypeTag::Signature) {
        ScanProgress::NeedMore(p) => Ok((SigningStep::AwaitingScan(p), None)),
        ScanProgress::Retry(p, e) => Ok((SigningStep::AwaitingScan(p), Some(e))),
        ScanProgress::Message(payload) => {
            match Signature65::from_bytes(&payload) {
                Ok(sig) => Ok((SigningStep::Signed(sig), None)),
                Err(e) => Ok((SigningStep::AwaitingScan(Reassembler::new()), Some(e))),
            }
        },
    }
}

} // verus!
