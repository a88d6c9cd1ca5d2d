//! Key resolver: candidate watch-only addresses from a scanned
//! extended public key.
//!
//! No private key is ever present. The elliptic-curve and BIP32 work is
//! done by outside crates behind trusted wrappers whose results are
//! named, uninterpreted functions of their inputs; everything from the
//! derived public key to the final address bytes is verified here.

use std::str::FromStr;

use coins_bip32::xkeys::Parent;
use ethers::prelude::k256::elliptic_curve::sec1::ToEncodedPoint;
use vstd::prelude::*;

use crate::address::Address;
use crate::errors::KeyDerivationError;

verus! {

/// Whether a string parses as a Base58 extended public key
/// (the outcome of `coins_bip32::xkeys::XPub::from_str`).
pub uninterp spec fn xpub_parses(s: Seq<u8>) -> bool;

/// The 33-byte compressed public key of the non-hardened child `0/index`
/// of the extended public key `s`, when the parse and the derivation
/// succeed (the outcome of `coins_bip32`'s `derive_path`).
pub uninterp spec fn child_pubkey_of(s: Seq<u8>, index: u32) -> Option<Seq<u8>>;

/// The 65-byte uncompressed SEC1 encoding of the point a byte string
/// encodes, when it is a valid encoding (the outcome of k256's
/// `PublicKey::from_sec1_bytes` and `to_encoded_point`).
pub uninterp spec fn uncompressed_point_of(c: Seq<u8>) -> Option<Seq<u8>>;

/// The 32-byte Keccak-256 digest of a byte string.
pub uninterp spec fn keccak256_of(b: Seq<u8>) -> Seq<u8>;

/// Relies on coins_bip32: `XPub::from_str` parses a Base58 xpub
/// (after a UTF-8 check on the scanned bytes) and
/// `Parent::derive_path` derives the non-hardened child at `0/index`;
/// both are deterministic in their inputs, and the compressed SEC1 form
/// `to_sec1_bytes` is 33 bytes by its type.
#[verifier::external_body]
fn derive_child_compressed(xpub: &Vec<u8>, index: u32) -> (r: Result<Vec<u8>, KeyDerivationError>)
    ensures
        (match r {
            Ok(v) => {
                &&& child_pubkey_of(xpub@, index) == Some(v@)
                &&& v@.len() == 33
                &&& xpub_parses(xpub@)
            },
            Err(e) => {
                &&& child_pubkey_of(xpub@, index) is None
                &&& (!xpub_parses(xpub@) ==> e == KeyDerivationError::UnparsableKey)
                &&& (xpub_parses(xpub@) ==> e == KeyDerivationError::ChildDerivationFailed)
            },
        }),
{
    let text = core::str::from_utf8(xpub.as_slice())
        .map_err(|_| KeyDerivationError::UnparsableKey)?;
    let key = coins_bip32::xkeys::XPub::from_str(text)
        .map_err(|_| KeyDerivationError::UnparsableKey)?;
    let path: coins_bip32::path::DerivationPath = format!("0/{}", index)
        .parse()
        .map_err(|_| KeyDerivationError::ChildDerivationFailed)?;
    let child = key.derive_path(path).map_err(|_| KeyDerivationError::ChildDerivationFailed)?;
    Ok(child.to_sec1_bytes().to_vec())
}

/// Relies on k256 (re-exported by ethers): `PublicKey::from_sec1_bytes`
/// accepts exactly the valid SEC1 point encodings, and
/// `to_encoded_point(false)` returns the 65-byte uncompressed encoding,
/// whose first byte is 0x04.
#[verifier::external_body]
fn decompress_pubkey(compressed: &Vec<u8>) -> (r: Result<Vec<u8>, KeyDerivationError>)
    ensures
        (match r {
            Ok(v) => uncompressed_point_of(compressed@) == Some(v@) && v@.len() == 65 && v@[0]
                == 4,
            Err(e) => uncompressed_point_of(compressed@) is None && e
                == KeyDerivationError::InvalidPoint,
        }),
{
    let pk = match ethers::core::k256::PublicKey::from_sec1_bytes(compressed.as_slice()) {
        Ok(p) => p,
        Err(_) => return Err(KeyDerivationError::InvalidPoint),
    };
    let point = pk.to_encoded_point(false);
    Ok(point.as_bytes().to_vec())
}

/// Relies on `ethers::utils::keccak256`, a pure function of the input
/// bytes returning a 32-byte array.
#[verifier::external_body]
fn keccak256_digest(data: &Vec<u8>) -> (r: Vec<u8>)
    ensures
        r@ == keccak256_of(data@),
        r@.len() == 32,
{
    ethers::utils::keccak256(data.as_slice()).to_vec()
}

/// The address bytes of child `0/index` of the extended public key `s`:
/// the low 160 bits of the Keccak-256 digest of the uncompressed public
/// point without its 0x04 prefix.
pub open spec fn spec_child_address(s: Seq<u8>, index: u32) -> Option<Seq<u8>> {
    match child_pubkey_of(s, index) {
        None => None,
        Some(c) => match uncompressed_point_of(c) {
            None => None,
            Some(u) => Some(keccak256_of(u.skip(1)).skip(12)),
        },
    }
}

/// Derives the watch-only address of child `0/index`.
pub fn derive_account_address(xpub: &Vec<u8>, index: u32) -> (r: Result<Address, KeyDerivationError>)
    ensures
        r is Ok <==> spec_child_address(xpub@, index) is Some,
        r is Ok ==> r->Ok_0.wf() && r->Ok_0.bytes@ == spec_child_address(xpub@, index)->0,
        !xpub_parses(xpub@) ==> r == Err::<Address, KeyDerivationError>(
            KeyDerivationError::UnparsableKey,
        ),
{
    let compressed = match derive_child_compressed(xpub, index) {
        Ok(c) => c,
        Err(e) => {
            return Err(e);
        },
    };
    let uncompressed = match decompress_pubkey(&compressed) {
        Ok(u) => u,
        Err(e) => {
            return Err(e);
        },
    };
    let body = vstd::slice::slice_to_vec(
        vstd::slice::slice_subrange(uncompressed.as_slice(), 1, 65),
    );
    proof {
        assert(body@ =~= uncompressed@.skip(1));
    }
    let hash = keccak256_digest(&body);
    let addr_bytes = vstd::slice::slice_to_vec(vstd::slice::slice_subrange(hash.as_slice(), 12, 32));
    proof {
        assert(addr_bytes@ =~= hash@.skip(12));
    }
    Ok(Address { bytes: addr_bytes })
}

/// One derived account offered for selection.
#[derive(Debug)]
pub struct AccountCandidate {
    pub address: Address,
    pub index: u32,
}

/// Derives the candidate addresses for ordinals `0 .. count`; fails
/// exactly when some child in that range cannot be derived.
pub fn derive_candidate_addresses(xpub: &Vec<u8>, count: u32) -> (r: Result<
    Vec<AccountCandidate>,
    KeyDerivationError,
>)
    ensures
        r is Ok <==> (forall|i: u32| i < count ==> #[trigger] spec_child_address(xpub@, i) is Some),
        r is Ok ==> r->Ok_0@.len() == count && (forall|i: int|
            0 <= i < count ==> {
                let c = #[trigger] r->Ok_0@[i];
                &&& c.index == i
                &&& c.address.wf()
                &&& c.address.bytes@ == spec_child_address(xpub@, i as u32)->0
            }),
{
    let mut out: Vec<AccountCandidate> = Vec::new();
    let mut i: u32 = 0;
    while i < count
        invariant
            i <= count,
            out@.len() == i,
            forall|j: u32| j < i ==> #[trigger] spec_child_address(xpub@, j) is Some,
            forall|j: int|
                0 <= j < i ==> {
                    let c = #[trigger] out@[j];
                    &&& c.index == j
                    &&& c.address.wf()
                    &&& c.address.bytes@ == spec_child_address(xpub@, j as u32)->0
                },
        decreases count - i,
    {
        let address = match derive_account_address(xpub, i) {
            Ok(a) => a,
            Err(e) => {
                return Err(e);
            },
        };
        out.push(AccountCandidate { address, index: i });
        i = i + 1;
    }
    Ok(out)
}

/// Determinism of derivation: the address of child `index` is a function
/// of the extended public key and the ordinal alone, so any two results
/// that meet the derivation contract are identical.
pub proof fn lemma_rederive_deterministic(s: Seq<u8>, index: u32, a1: Seq<u8>, a2: Seq<u8>)
    requires
        spec_child_address(s, index) is Some,
        a1 == spec_child_address(s, index)->0,
        a2 == spec_child_address(s, index)->0,
    ensures
        a1 == a2,
{
}

/// The fixed derivation path of an imported account: `m/44'/60'/0'/0/i`.
#[derive(Debug)]
pub struct KeyPath {
    pub index: u32,
}

/// The ASCII prefix `m/44'/60'/0'/0/`.
pub open spec fn path_prefix() -> Seq<u8> {
    seq![
        0x6du8,
        0x2fu8,
        0x34u8,
        0x34u8,
        0x27u8,
        0x2fu8,
        0x36u8,
        0x30u8,
        0x27u8,
        0x2fu8,
        0x30u8,
        0x27u8,
        0x2fu8,
        0x30u8,
        0x2fu8,
    ]
}

/// The path text of ordinal `i`.
pub open spec fn path_text_of(i: u32) -> Seq<u8> {
    path_prefix() + crate::hexutil::dec_of(i as nat)
}

impl KeyPath {
    /// Renders the path as ASCII text.
    pub fn text(&self) -> (r: Vec<u8>)
        ensures
            r@ == path_text_of(self.index),
    {
        let mut r: Vec<u8> = Vec::new();
        r.push(0x6d);
        r.push(0x2f);
        r.push(0x34);
        r.push(0x34);
        r.push(0x27);
        r.push(0x2f);
        r.push(0x36);
        r.push(0x30);
        r.push(0x27);
        r.push(0x2f);
        r.push(0x30);
        r.push(0x27);
        r.push(0x2f);
        r.push(0x30);
        r.push(0x2f);
        proof {
            assert(r@ =~= path_prefix());
        }
        let mut digits = crate::hexutil::dec_encode(self.index as u64);
        let ghost dv = digits@;
        r.append(&mut digits);
        proof {
            assert(r@ =~= path_prefix() + dv);
        }
        r
    }
}

} // verus!
