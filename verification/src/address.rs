//! Account addresses: 20 bytes, rendered and parsed as hex text.

use vstd::prelude::*;

use crate::errors::InputValidationError;
use crate::hexutil::hex_of;
use crate::hexutil::is_hex_seq;
use crate::hexutil::lemma_hex_roundtrip;
use crate::hexutil::lemma_unhex_len;
use crate::hexutil::unhex;

verus! {

/// A 20-byte account address.
#[derive(Debug)]
pub struct Address {
    pub bytes: Vec<u8>,
}

/// The address bytes a piece of text denotes: an optional `0x` prefix,
/// then exactly 40 hex digits.
pub open spec fn parse_address_spec(s: Seq<u8>) -> Option<Seq<u8>> {
    let t = if s.len() >= 2 && s[0] == 0x30 && s[1] == 0x78 {
        s.skip(2)
    } else {
        s
    };
    if is_hex_seq(t) && t.len() == 40 {
        Some(unhex(t))
    } else {
        None
    }
}

impl Address {
    pub open spec fn wf(&self) -> bool {
        self.bytes@.len() == 20
    }

    /// The zero (burn) address.
    pub fn zero() -> (r: Address)
        ensures
            r.wf(),
            forall|i: int| 0 <= i < 20 ==> r.bytes@[i] == 0,
    {
        let mut bytes: Vec<u8> = Vec::new();
        let mut i: usize = 0;
        while i < 20
            invariant
                i <= 20,
                bytes@.len() == i,
                forall|j: int| 0 <= j < i ==> bytes@[j] == 0,
            decreases 20 - i,
        {
            bytes.push(0);
            i = i + 1;
        }
        Address { bytes }
    }

    /// Builds an address from exactly 20 bytes.
    pub fn from_bytes(bytes: Vec<u8>) -> (r: Result<Address, InputValidationError>)
        ensures
            (match r {
                Ok(a) => bytes@.len() == 20 && a.wf() && a.bytes@ == bytes@,
                Err(e) => bytes@.len() != 20 && e == InputValidationError::BadAddress,
            }),
    {
        if bytes.len() == 20 {
            Ok(Address { bytes })
        } else {
            Err(InputValidationError::BadAddress)
        }
    }

    /// Parses address text, accepting an optional `0x` prefix; rejects
    /// exactly the strings that do not denote 20 bytes of hex.
    pub fn from_text(v: &Vec<u8>) -> (r: Result<Address, InputValidationError>)
        ensures
            (match r {
                Ok(a) => parse_address_spec(v@) == Some(a.bytes@) && a.wf(),
                Err(e) => parse_address_spec(v@) is None && e == InputValidationError::BadAddress,
            }),
    {
        let digits: Vec<u8> = if v.len() >= 2 && v[0] == 0x30 && v[1] == 0x78 {
            vstd::slice::slice_to_vec(vstd::slice::slice_subrange(v.as_slice(), 2, v.len()))
        } else {
            vstd::slice::slice_to_vec(v.as_slice())
        };
        proof {
            if v@.len() >= 2 && v@[0] == 0x30 && v@[1] == 0x78 {
                assert(digits@ =~= v@.skip(2));
            } else {
                assert(digits@ =~= v@);
            }
        }
        if digits.len() != 40 {
            return Err(InputValidationError::BadAddress);
        }
        let bytes = match crate::hexutil::hex_decode(&digits) {
            Some(b) => b,
            None => {
                return Err(InputValidationError::BadAddress);
            },
        };
        proof {
            lemma_unhex_len(digits@);
        }
        Ok(Address { bytes })
    }

    /// Renders the address as `0x` followed by 40 lowercase hex digits.
    pub fn to_text(&self) -> (r: Vec<u8>)
        ensures
            r@ == seq![0x30u8, 0x78u8] + hex_of(self.bytes@),
    {
        let mut r: Vec<u8> = Vec::new();
        r.push(0x30);
        r.push(0x78);
        let mut digits = crate::hexutil::hex_encode(&self.bytes);
        let ghost dv = digits@;
        r.append(&mut digits);
        proof {
            assert(r@ =~= seq![0x30u8, 0x78u8] + dv);
        }
        r
    }

    /// An independent copy with the same bytes.
    pub fn dup(&self) -> (r: Address)
        ensures
            r.bytes@ == self.bytes@,
            r.wf() == self.wf(),
    {
        Address { bytes: vstd::slice::slice_to_vec(self.bytes.as_slice()) }
    }

    /// Whether two addresses hold the same bytes.
    pub fn same_as(&self, other: &Address) -> (r: bool)
        ensures
            r == (self.bytes@ == other.bytes@),
    {
        if self.bytes.len() != other.bytes.len() {
            proof {
                assert(self.bytes@ != other.bytes@);
            }
            return false;
        }
        let mut i: usize = 0;
        while i < self.bytes.len()
            invariant
                i <= self.bytes@.len() == other.bytes@.len(),
                forall|j: int| 0 <= j < i ==> self.bytes@[j] == other.bytes@[j],
            decreases self.bytes@.len() - i,
        {
            if self.bytes[i] != other.bytes[i] {
                proof {
                    assert(self.bytes@[i as int] != other.bytes@[i as int]);
                }
                return false;
            }
            i = i + 1;
        }
        proof {
            assert(self.bytes@ =~= other.bytes@);
        }
        true
    }
}

/// Rendering an address and parsing the text back yields the same bytes.
pub proof fn lemma_address_text_round_trip(a: Address)
    requires
        a.wf(),
    ensures
        parse_address_spec(seq![0x30u8, 0x78u8] + hex_of(a.bytes@)) == Some(a.bytes@),
{
    let t = seq![0x30u8, 0x78u8] + hex_of(a.bytes@);
    lemma_hex_roundtrip(a.bytes@);
    crate::hexutil::lemma_hex_of_len(a.bytes@);
    assert(t.skip(2) =~= hex_of(a.bytes@));
}

} // verus!
