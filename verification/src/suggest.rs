//! Autocomplete suggestions for contacts and known tokens.
//!
//! A suggestion line reads "name 0x...": the saved name, one space, the
//! hex address. An entry is suggested exactly when its lowercased name
//! or its address text contains the typed input as a substring
//! (lowercasing is ASCII-wise; addresses render as lowercase hex).

use vstd::prelude::*;

use crate::config::Contact;
use crate::config::Erc20TokenConfig;
use crate::hexutil::hex_of;

verus! {

/// ASCII lowercase of one byte.
pub open spec fn ascii_lower(b: u8) -> u8 {
    if 0x41 <= b && b <= 0x5a {
        (b + 0x20) as u8
    } else {
        b
    }
}

/// ASCII lowercase of a byte string.
pub open spec fn lower_seq(s: Seq<u8>) -> Seq<u8> {
    s.map(|i: int, b: u8| ascii_lower(b))
}

/// Lowercases ASCII letters, leaving every other byte alone.
pub fn to_lower(v: &Vec<u8>) -> (r: Vec<u8>)
    ensures
        r@ == lower_seq(v@),
{
    let mut r: Vec<u8> = Vec::new();
    let mut i: usize = 0;
    while i < v.len()
        invariant
            i <= v@.len(),
            r@.len() == i,
            forall|j: int| 0 <= j < i ==> r@[j] == ascii_lower(v@[j]),
        decreases v@.len() - i,
    {
        let b = v[i];
        if 0x41 <= b && b <= 0x5a {
            r.push(b + 0x20);
        } else {
            r.push(b);
        }
        i = i + 1;
    }
    proof {
        assert(r@ =~= lower_seq(v@));
    }
    r
}

/// Whether `nd` occurs contiguously inside `hay`.
pub open spec fn is_substring(hay: Seq<u8>, nd: Seq<u8>) -> bool {
    exists|i: int| 0 <= i <= hay.len() - nd.len() && #[trigger] hay.subrange(i, i + nd.len()) == nd
}

/// Substring search; the outcome is exactly `is_substring`.
pub fn contains_bytes(hay: &Vec<u8>, nd: &Vec<u8>) -> (r: bool)
    ensures
        r == is_substring(hay@, nd@),
{
    if nd.len() > hay.len() {
        return false;
    }
    if nd.len() == 0 {
        proof {
            assert(hay@.subrange(0int, 0int + nd@.len() as int) =~= nd@);
        }
        return true;
    }
    let last_start = hay.len() - nd.len();
    let mut i: usize = 0;
    while i <= last_start
        invariant
            1 <= nd@.len() <= hay@.len(),
            hay@.len() <= usize::MAX,
            last_start == hay@.len() - nd@.len(),
            i <= last_start + 1,
            forall|i2: int|
                0 <= i2 < i ==> #[trigger] hay@.subrange(i2, i2 + nd@.len()) != nd@,
        decreases last_start + 1 - i,
    {
        let mut j: usize = 0;
        let mut matched = true;
        while j < nd.len()
            invariant
                nd@.len() <= hay@.len(),
                hay@.len() <= usize::MAX,
                i + nd@.len() <= hay@.len(),
                j <= nd@.len(),
                matched ==> (forall|j2: int| 0 <= j2 < j ==> hay@[i + j2] == nd@[j2]),
                !matched ==> hay@.subrange(i as int, i + nd@.len()) != nd@,
            decreases nd@.len() - j,
        {
            if hay[i + j] != nd[j] {
                proof {
                    assert(hay@.subrange(i as int, i + nd@.len())[j as int] != nd@[j as int]);
                }
                matched = false;
                j = nd.len();
            } else {
                j = j + 1;
            }
        }
        if matched {
            proof {
                assert(hay@.subrange(i as int, i + nd@.len()) =~= nd@);
            }
            return true;
        }
        i = i + 1;
    }
    proof {
        assert(!is_substring(hay@, nd@)) by {
            if is_substring(hay@, nd@) {
                let w = choose|w: int|
                    0 <= w <= hay@.len() - nd@.len() && #[trigger] hay@.subrange(w, w + nd@.len())
                        == nd@;
                assert(hay@.subrange(w, w + nd@.len()) != nd@);
            }
        }
    }
    false
}

/// The displayed text of an address: `0x` and 40 lowercase hex digits.
pub open spec fn address_text_of(bytes: Seq<u8>) -> Seq<u8> {
    seq![0x30u8, 0x78u8] + hex_of(bytes)
}

/// One suggestion line: the name, a space, the address text.
pub open spec fn suggestion_text(name: Seq<u8>, addr_bytes: Seq<u8>) -> Seq<u8> {
    name + seq![0x20u8] + address_text_of(addr_bytes)
}

/// Whether a contact is offered for the typed input.
pub open spec fn contact_matches(c: Contact, input: Seq<u8>) -> bool {
    is_substring(lower_seq(c.name@), input) || is_substring(address_text_of(c.address.bytes@), input)
}

/// The suggestion lines for the contacts, in book order.
pub open spec fn contact_suggestions(cs: Seq<Contact>, input: Seq<u8>) -> Seq<Seq<u8>>
    decreases cs.len(),
{
    if cs.len() == 0 {
        Seq::empty()
    } else {
        contact_suggestions(cs.drop_last(), input) + (if contact_matches(cs.last(), input) {
            seq![suggestion_text(cs.last().name@, cs.last().address.bytes@)]
        } else {
            Seq::empty()
        })
    }
}

fn suggestion_line(name: &Vec<u8>, addr_bytes: &Vec<u8>) -> (r: Vec<u8>)
    ensures
        r@ == suggestion_text(name@, addr_bytes@),
{
    let mut r = vstd::slice::slice_to_vec(name.as_slice());
    r.push(0x20);
    r.push(0x30);
    r.push(0x78);
    let mut digits = crate::hexutil::hex_encode(addr_bytes);
    let ghost dv = digits@;
    r.append(&mut digits);
    proof {
        assert(r@ =~= suggestion_text(name@, addr_bytes@));
    }
    r
}

/// Completion over the saved contacts.
pub struct AddressBookAutoComplete {
    pub contacts: Vec<Contact>,
}

impl AddressBookAutoComplete {
    /// Wraps a contact book for completion.
    pub fn new(contacts: Vec<Contact>) -> (r: AddressBookAutoComplete)
        ensures
            r.contacts == contacts,
    {
        AddressBookAutoComplete { contacts }
    }

    /// The suggestion lines of exactly the contacts whose lowercased
    /// name or address text contains the input.
    pub fn get_suggestions(&self, input: &Vec<u8>) -> (r: Vec<Vec<u8>>)
        ensures
            r@.map(|i: int, v: Vec<u8>| v@) == contact_suggestions(self.contacts@, input@),
    {
        let ghost cs = self.contacts@;
        let mut r: Vec<Vec<u8>> = Vec::new();
        let mut i: usize = 0;
        while i < self.contacts.len()
            invariant
                cs == self.contacts@,
                i <= cs.len(),
                r@.map(|k: int, v: Vec<u8>| v@) == contact_suggestions(cs.take(i as int), input@),
            decreases cs.len() - i,
        {
            let c = &self.contacts[i];
            let lowered = to_lower(&c.name);
            let addr_text = suggestion_line(&c.name, &c.address.bytes);
            proof {
                crate::hexutil::lemma_hex_of_len(c.address.bytes@);
            }
            let addr_only = vstd::slice::slice_to_vec(
                vstd::slice::slice_subrange(
                    addr_text.as_slice(),
                    addr_text.len() - (2 + 2 * c.address.bytes.len()),
                    addr_text.len(),
                ),
            );
            proof {
                assert(addr_only@ =~= address_text_of(c.address.bytes@));
            }
            if contains_bytes(&lowered, input) || contains_bytes(&addr_only, input) {
                r.push(suggestion_line(&c.name, &c.address.bytes));
            }
            proof {
                assert(cs.take(i + 1).drop_last() =~= cs.take(i as int));
                assert(cs.take(i + 1).last() == cs[i as int]);
                assert(r@.map(|k: int, v: Vec<u8>| v@) =~= contact_suggestions(
                    cs.take(i + 1),
                    input@,
                ));
            }
            i = i + 1;
        }
        proof {
            assert(cs.take(cs.len() as int) =~= cs);
        }
        r
    }
}

/// Whether a token entry is offered for the typed input.
pub open spec fn token_matches(t: Erc20TokenConfig, input: Seq<u8>) -> bool {
    is_substring(lower_seq(t.name@), input) || is_substring(address_text_of(t.address.bytes@), input)
}

/// The suggestion lines for the token list, in list order.
pub open spec fn token_suggestions(ts: Seq<Erc20TokenConfig>, input: Seq<u8>) -> Seq<Seq<u8>>
    decreases ts.len(),
{
    if ts.len() == 0 {
        Seq::empty()
    } else {
        token_suggestions(ts.drop_last(), input) + (if token_matches(ts.last(), input) {
            seq![suggestion_text(ts.last().name@, ts.last().address.bytes@)]
        } else {
            Seq::empty()
        })
    }
}

/// Completion over a network's known tokens.
pub struct Erc20AutoComplete {
    pub erc20_tokens: Vec<Erc20TokenConfig>,
}

impl Erc20AutoComplete {
    /// Wraps a token list for completion.
    pub fn new(erc20_tokens: Vec<Erc20TokenConfig>) -> (r: Erc20AutoComplete)
        ensures
            r.erc20_tokens == erc20_tokens,
    {
        Erc20AutoComplete { erc20_tokens }
    }

    /// The suggestion lines of exactly the tokens whose lowercased
    /// name or address text contains the input.
    pub fn get_suggestions(&self, input: &Vec<u8>) -> (r: Vec<Vec<u8>>)
        ensures
            r@.map(|i: int, v: Vec<u8>| v@) == token_suggestions(self.erc20_tokens@, input@),
    {
        let ghost ts = self.erc20_tokens@;
        let mut r: Vec<Vec<u8>> = Vec::new();
        let mut i: usize = 0;
        while i < self.erc20_tokens.len()
            invariant
                ts == self.erc20_tokens@,
                i <= ts.len(),
                r@.map(|k: int, v: Vec<u8>| v@) == token_suggestions(ts.take(i as int), input@),
            decreases ts.len() - i,
        {
            let t = &self.erc20_tokens[i];
            let lowered = to_lower(&t.name);
            let line = suggestion_line(&t.name, &t.address.bytes);
            proof {
                crate::hexutil::lemma_hex_of_len(t.address.bytes@);
            }
            let addr_only = vstd::slice::slice_to_vec(
                vstd::slice::slice_subrange(
                    line.as_slice(),
                    line.len() - (2 + 2 * t.address.bytes.len()),
                    line.len(),
                ),
            );
            proof {
                assert(addr_only@ =~= address_text_of(t.address.bytes@));
            }
            if contains_bytes(&lowered, input) || contains_bytes(&addr_only, input) {
                r.push(line);
            }
            proof {
                assert(ts.take(i + 1).drop_last() =~= ts.take(i as int));
                assert(ts.take(i + 1).last() == ts[i as int]);
                assert(r@.map(|k: int, v: Vec<u8>| v@) =~= token_suggestions(
                    ts.take(i + 1),
                    input@,
                ));
            }
            i = i + 1;
        }
        proof {
            assert(ts.take(ts.len() as int) =~= ts);
        }
        r
    }
}

} // verus!
