//! Payload formats of the three registered message kinds.
//!
//! Each transport payload is a self-contained byte encoding: a signing
//! request (what the device must sign, for which address, under which
//! derivation path), a signature reply (65 bytes, r then s then v), and
//! a public-key export (the device's extended public key and an optional
//! display name). Encoders and decoders are verified inverse of each
//! other, so a request survives the visual round trip bit for bit.

use vstd::prelude::*;

use crate::address::Address;
use crate::errors::TransportError;
use crate::hexutil::be_bytes;
use crate::hexutil::be_bytes_of;
use crate::hexutil::be_val;
use crate::hexutil::lemma_be_bytes_len;
use crate::hexutil::lemma_be_roundtrip;
use crate::hexutil::lemma_be_val_bound;
use crate::hexutil::pow256;

verus! {

/// What kind of bytes the device is asked to sign.
#[derive(Debug, Clone, Copy, PartialEq, Eq, Structural)]
pub enum SignDataType {
    /// A personal message, shown to the operator as text.
    PersonalMessage,
    /// An RLP-encoded unsigned transaction.
    TypedTransaction,
}

pub open spec fn data_type_byte(t: SignDataType) -> u8 {
    match t {
        SignDataType::PersonalMessage => 3,
        SignDataType::TypedTransaction => 4,
    }
}

pub open spec fn data_type_of_byte(b: u8) -> Option<SignDataType> {
    if b == 3 {
        Some(SignDataType::PersonalMessage)
    } else if b == 4 {
        Some(SignDataType::TypedTransaction)
    } else {
        None
    }
}

fn data_type_byte_exec(t: SignDataType) -> (r: u8)
    ensures
        r == data_type_byte(t),
{
    match t {
        SignDataType::PersonalMessage => 3,
        SignDataType::TypedTransaction => 4,
    }
}

fn data_type_of_byte_exec(b: u8) -> (r: Option<SignDataType>)
    ensures
        r == data_type_of_byte(b),
{
    if b == 3 {
        Some(SignDataType::PersonalMessage)
    } else if b == 4 {
        Some(SignDataType::TypedTransaction)
    } else {
        None
    }
}

proof fn lemma_pow256_4()
    ensures
        pow256(4) == 0x1_0000_0000,
{
    reveal_with_fuel(pow256, 5);
}

/// A request that the signing device produce a signature.
#[derive(Debug)]
pub struct SignRequestPayload {
    /// Opaque request id, fresh per attempt.
    pub request_id: Vec<u8>,
    /// The bytes to sign: message text or transaction RLP.
    pub sign_data: Vec<u8>,
    /// Which kind of signing is requested.
    pub data_type: SignDataType,
    /// Ordinal of the account's derivation path.
    pub path_index: u32,
    /// The account the signature must come from.
    pub address: Address,
}

impl SignRequestPayload {
    pub open spec fn wf(&self) -> bool {
        &&& self.address.wf()
        &&& self.request_id@.len() <= 64
        &&& self.sign_data@.len() <= 0x00FF_FFFF
    }
}

/// The byte encoding of a signing request: kind byte, path ordinal,
/// address, then the length-prefixed request id and sign data.
pub open spec fn sign_request_bytes_of(
    request_id: Seq<u8>,
    sign_data: Seq<u8>,
    t: SignDataType,
    path_index: u32,
    address: Seq<u8>,
) -> Seq<u8> {
    seq![data_type_byte(t)] + be_bytes_of(path_index as nat, 4) + address + be_bytes_of(
        request_id.len(),
        4,
    ) + request_id + be_bytes_of(sign_data.len(), 4) + sign_data
}

/// The request a payload denotes, if any: the fields read back from
/// `sign_request_bytes_of`, with every length accounted for.
pub open spec fn parse_sign_request(p: Seq<u8>) -> Option<
    (Seq<u8>, Seq<u8>, SignDataType, u32, Seq<u8>),
> {
    if p.len() < 29 {
        None
    } else if data_type_of_byte(p[0]) is None {
        None
    } else {
        let rid_len = be_val(p.subrange(25, 29)) as int;
        if p.len() < 29 + rid_len + 4 {
            None
        } else {
            let sd_len = be_val(p.subrange(29 + rid_len, 33 + rid_len)) as int;
            if p.len() != 33 + rid_len + sd_len {
                None
            } else {
                Some(
                    (
                        p.subrange(29, 29 + rid_len),
                        p.subrange(33 + rid_len, 33 + rid_len + sd_len),
                        data_type_of_byte(p[0])->0,
                        be_val(p.subrange(1, 5)) as u32,
                        p.subrange(5, 25),
                    ),
                )
            }
        }
    }
}

/// Encodes a signing request for the transport.
pub fn encode_sign_request(req: &SignRequestPayload) -> (r: Vec<u8>)
    requires
        req.wf(),
    ensures
        r@ == sign_request_bytes_of(
            req.request_id@,
            req.sign_data@,
            req.data_type,
            req.path_index,
            req.address.bytes@,
        ),
        r@.len() <= crate::transport::MAX_PAYLOAD_LEN,
{
    proof {
        lemma_pow256_4();
        lemma_be_bytes_len(req.path_index as nat, 4);
        lemma_be_bytes_len(req.request_id@.len(), 4);
        lemma_be_bytes_len(req.sign_data@.len(), 4);
    }
    let mut out: Vec<u8> = Vec::new();
    out.push(data_type_byte_exec(req.data_type));
    let mut piece = be_bytes(req.path_index as u128, 4);
    out.append(&mut piece);
    let mut piece = vstd::slice::slice_to_vec(req.address.bytes.as_slice());
    out.append(&mut piece);
    let mut piece = be_bytes(req.request_id.len() as u128, 4);
    out.append(&mut piece);
    let mut piece = vstd::slice::slice_to_vec(req.request_id.as_slice());
    out.append(&mut piece);
    let mut piece = be_bytes(req.sign_data.len() as u128, 4);
    out.append(&mut piece);
    let mut piece = vstd::slice::slice_to_vec(req.sign_data.as_slice());
    out.append(&mut piece);
    proof {
        assert(out@ =~= sign_request_bytes_of(
            req.request_id@,
            req.sign_data@,
            req.data_type,
            req.path_index,
            req.address.bytes@,
        ));
    }
    out
}

/// Decodes a signing-request payload; fails as malformed exactly when
/// the bytes do not denote a request.
pub fn decode_sign_request(p: &Vec<u8>) -> (r: Result<SignRequestPayload, TransportError>)
    ensures
        (match r {
            Ok(req) => parse_sign_request(p@) == Some(
                (req.request_id@, req.sign_data@, req.data_type, req.path_index, req.address.bytes@),
            ) && req.address.wf(),
            Err(e) => parse_sign_request(p@) is None && e == TransportError::Malformed,
        }),
{
    proof {
        lemma_pow256_4();
    }
    if p.len() < 29 {
        return Err(TransportError::Malformed);
    }
    let data_type = match data_type_of_byte_exec(p[0]) {
        Some(t) => t,
        None => {
            return Err(TransportError::Malformed);
        },
    };
    let path_field = vstd::slice::slice_to_vec(vstd::slice::slice_subrange(p.as_slice(), 1, 5));
    proof {
        lemma_be_val_bound(path_field@);
    }
    let path_index = crate::hexutil::be_val_exec(&path_field) as u32;
    let addr_bytes = vstd::slice::slice_to_vec(vstd::slice::slice_subrange(p.as_slice(), 5, 25));
    let rid_field = vstd::slice::slice_to_vec(vstd::slice::slice_subrange(p.as_slice(), 25, 29));
    proof {
        lemma_be_val_bound(rid_field@);
    }
    let rid_len_wide = crate::hexutil::be_val_exec(&rid_field);
    if rid_len_wide > (p.len() - 29) as u128 {
        return Err(TransportError::Malformed);
    }
    let rid_len = rid_len_wide as usize;
    if p.len() - 29 - rid_len < 4 {
        return Err(TransportError::Malformed);
    }
    let request_id = vstd::slice::slice_to_vec(
        vstd::slice::slice_subrange(p.as_slice(), 29, 29 + rid_len),
    );
    let sd_field = vstd::slice::slice_to_vec(
        vstd::slice::slice_subrange(p.as_slice(), 29 + rid_len, 33 + rid_len),
    );
    proof {
        lemma_be_val_bound(sd_field@);
        assert(sd_field@ =~= p@.subrange(29 + rid_len as int, 33 + rid_len as int));
    }
    let sd_len_wide = crate::hexutil::be_val_exec(&sd_field);
    if sd_len_wide != (p.len() - 33 - rid_len) as u128 {
        return Err(TransportError::Malformed);
    }
    let sd_len = sd_len_wide as usize;
    let sign_data = vstd::slice::slice_to_vec(
        vstd::slice::slice_subrange(p.as_slice(), 33 + rid_len, 33 + rid_len + sd_len),
    );
    let address = Address { bytes: addr_bytes };
    Ok(SignRequestPayload { request_id, sign_data, data_type, path_index, address })
}

/// Encoding a signing request and decoding the bytes yields the same
/// request, field for field.
pub proof fn lemma_sign_request_round_trip(
    request_id: Seq<u8>,
    sign_data: Seq<u8>,
    t: SignDataType,
    path_index: u32,
    address: Seq<u8>,
)
    requires
        address.len() == 20,
        request_id.len() <= 64,
        sign_data.len() <= 0x00FF_FFFF,
    ensures
        parse_sign_request(sign_request_bytes_of(request_id, sign_data, t, path_index, address))
            == Some((request_id, sign_data, t, path_index, address)),
{
    lemma_pow256_4();
    let p = sign_request_bytes_of(request_id, sign_data, t, path_index, address);
    lemma_be_bytes_len(path_index as nat, 4);
    lemma_be_bytes_len(request_id.len(), 4);
    lemma_be_bytes_len(sign_data.len(), 4);
    let rl = request_id.len() as int;
    let sl = sign_data.len() as int;
    assert(p.len() == 33 + rl + sl);
    assert(p[0] == data_type_byte(t));
    assert(p.subrange(1, 5) =~= be_bytes_of(path_index as nat, 4));
    lemma_be_roundtrip(path_index as nat, 4);
    assert(p.subrange(5, 25) =~= address);
    assert(p.subrange(25, 29) =~= be_bytes_of(request_id.len(), 4));
    lemma_be_roundtrip(request_id.len(), 4);
    assert(p.subrange(29, 29 + rl) =~= request_id);
    assert(p.subrange(29 + rl, 33 + rl) =~= be_bytes_of(sign_data.len(), 4));
    lemma_be_roundtrip(sign_data.len(), 4);
    assert(p.subrange(33 + rl, 33 + rl + sl) =~= sign_data);
}

/// A 65-byte recoverable signature: r, then s, then the recovery byte.
#[derive(Debug)]
pub struct Signature65 {
    pub r: Vec<u8>,
    pub s: Vec<u8>,
    pub v: u8,
}

impl Signature65 {
    pub open spec fn wf(&self) -> bool {
        self.r@.len() == 32 && self.s@.len() == 32
    }

    /// The 65-byte wire form.
    pub open spec fn bytes_of(&self) -> Seq<u8> {
        self.r@ + self.s@ + seq![self.v]
    }

    /// Reconstructs a signature from a signature payload; fails as
    /// malformed exactly when the payload is not 65 bytes.
    pub fn from_bytes(p: &Vec<u8>) -> (r: Result<Signature65, TransportError>)
        ensures
            (match r {
                Ok(sig) => p@.len() == 65 && sig.wf() && sig.r@ == p@.subrange(0, 32) && sig.s@
                    == p@.subrange(32, 64) && sig.v == p@[64] && sig.bytes_of() == p@,
                Err(e) => p@.len() != 65 && e == TransportError::Malformed,
            }),
    {
        if p.len() != 65 {
            return Err(TransportError::Malformed);
        }
        let rpart = vstd::slice::slice_to_vec(vstd::slice::slice_subrange(p.as_slice(), 0, 32));
        let spart = vstd::slice::slice_to_vec(vstd::slice::slice_subrange(p.as_slice(), 32, 64));
        let v = p[64];
        let sig = Signature65 { r: rpart, s: spart, v };
        proof {
            assert(sig.bytes_of() =~= p@);
        }
        Ok(sig)
    }

    /// The 65 wire bytes of the signature.
    pub fn to_bytes(&self) -> (r: Vec<u8>)
        requires
            self.wf(),
        ensures
            r@ == self.bytes_of(),
            r@.len() == 65,
    {
        let mut out = vstd::slice::slice_to_vec(self.r.as_slice());
        let mut spart = vstd::slice::slice_to_vec(self.s.as_slice());
        out.append(&mut spart);
        out.push(self.v);
        proof {
            assert(out@ =~= self.bytes_of());
        }
        out
    }
}

/// A public-key export: the extended public key and an optional
/// display name for the accounts.
#[derive(Debug)]
pub struct PublicKeyExportPayload {
    pub xpub: Vec<u8>,
    pub name: Vec<u8>,
}

impl PublicKeyExportPayload {
    pub open spec fn wf(&self) -> bool {
        self.xpub@.len() <= 0xFFFF && self.name@.len() <= 0xFFFF
    }
}

/// The byte encoding of a public-key export: length-prefixed key text,
/// then the name.
pub open spec fn key_export_bytes_of(xpub: Seq<u8>, name: Seq<u8>) -> Seq<u8> {
    be_bytes_of(xpub.len(), 4) + xpub + name
}

/// The export a payload denotes, if any.
pub open spec fn parse_key_export(p: Seq<u8>) -> Option<(Seq<u8>, Seq<u8>)> {
    if p.len() < 4 {
        None
    } else {
        let xlen = be_val(p.subrange(0, 4)) as int;
        if p.len() < 4 + xlen {
            None
        } else {
            Some((p.subrange(4, 4 + xlen), p.subrange(4 + xlen, p.len() as int)))
        }
    }
}

/// Encodes a public-key export.
pub fn encode_key_export(payload: &PublicKeyExportPayload) -> (r: Vec<u8>)
    requires
        payload.wf(),
    ensures
        r@ == key_export_bytes_of(payload.xpub@, payload.name@),
        r@.len() <= crate::transport::MAX_PAYLOAD_LEN,
{
    proof {
        lemma_pow256_4();
        lemma_be_bytes_len(payload.xpub@.len(), 4);
    }
    let mut out = be_bytes(payload.xpub.len() as u128, 4);
    let mut piece = vstd::slice::slice_to_vec(payload.xpub.as_slice());
    out.append(&mut piece);
    let mut piece = vstd::slice::slice_to_vec(payload.name.as_slice());
    out.append(&mut piece);
    proof {
        assert(out@ =~= key_export_bytes_of(payload.xpub@, payload.name@));
    }
    out
}

/// Decodes a public-key export payload; fails as malformed exactly when
/// the bytes do not denote one.
pub fn decode_key_export(p: &Vec<u8>) -> (r: Result<PublicKeyExportPayload, TransportError>)
    ensures
        (match r {
            Ok(payload) => parse_key_export(p@) == Some((payload.xpub@, payload.name@)),
            Err(e) => parse_key_export(p@) is None && e == TransportError::Malformed,
        }),
{
    proof {
        lemma_pow256_4();
    }
    if p.len() < 4 {
        return Err(TransportError::Malformed);
    }
    let len_field = vstd::slice::slice_to_vec(vstd::slice::slice_subrange(p.as_slice(), 0, 4));
    proof {
        lemma_be_val_bound(len_field@);
    }
    let xlen_wide = crate::hexutil::be_val_exec(&len_field);
    if xlen_wide > (p.len() - 4) as u128 {
        return Err(TransportError::Malformed);
    }
    let xlen = xlen_wide as usize;
    let xpub = vstd::slice::slice_to_vec(vstd::slice::slice_subrange(p.as_slice(), 4, 4 + xlen));
    let name = vstd::slice::slice_to_vec(
        vstd::slice::slice_subrange(p.as_slice(), 4 + xlen, p.len()),
    );
    Ok(PublicKeyExportPayload { xpub, name })
}

/// Encoding a public-key export and decoding the bytes yields the same
/// export.
pub proof fn lemma_key_export_round_trip(xpub: Seq<u8>, name: Seq<u8>)
    requires
        xpub.len() <= 0xFFFF,
        name.len() <= 0xFFFF,
    ensures
        parse_key_export(key_export_bytes_of(xpub, name)) == Some((xpub, name)),
{
    lemma_pow256_4();
    let p = key_export_bytes_of(xpub, name);
    lemma_be_bytes_len(xpub.len(), 4);
    assert(p.subrange(0, 4) =~= be_bytes_of(xpub.len(), 4));
    lemma_be_roundtrip(xpub.len(), 4);
    let xl = xpub.len() as int;
    assert(p.subrange(4, 4 + xl) =~= xpub);
    assert(p.subrange(4 + xl, p.len() as int) =~= name);
}

} // verus!
