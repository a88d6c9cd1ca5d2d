//! Byte-level text utilities: lowercase hex, big-endian integers and
//! decimal digits, with round-trip lemmas.
//!
//! The transport frames, addresses and derivation paths are all rendered
//! as ASCII bytes through these functions, so their encode/decode pairs
//! are proved inverse here once and reused by the higher layers.

use vstd::prelude::*;

verus! {

/// 256 to the power `k`.
pub open spec fn pow256(k: nat) -> nat
    decreases k,
{
    if k == 0 {
        1
    } else {
        256 * pow256((k - 1) as nat)
    }
}

pub proof fn lemma_pow256_pos(k: nat)
    ensures
        pow256(k) >= 1,
    decreases k,
{
    if k > 0 {
        lemma_pow256_pos((k - 1) as nat);
    }
}

pub proof fn lemma_pow256_16_is_u128_bound()
    ensures
        pow256(16) == 0x1_0000_0000_0000_0000_0000_0000_0000_0000,
{
    reveal_with_fuel(pow256, 17);
}

/// The big-endian bytes of `n`, exactly `len` bytes long; the value is
/// taken modulo 256^len.
pub open spec fn be_bytes_of(n: nat, len: nat) -> Seq<u8>
    decreases len,
{
    if len == 0 {
        Seq::empty()
    } else {
        be_bytes_of(n / 256, (len - 1) as nat).push((n % 256) as u8)
    }
}

/// The value of a big-endian byte string.
pub open spec fn be_val(s: Seq<u8>) -> nat
    decreases s.len(),
{
    if s.len() == 0 {
        0nat
    } else {
        (be_val(s.drop_last()) * 256 + s.last()) as nat
    }
}

pub proof fn lemma_be_bytes_len(n: nat, len: nat)
    ensures
        be_bytes_of(n, len).len() == len,
    decreases len,
{
    if len > 0 {
        lemma_be_bytes_len(n / 256, (len - 1) as nat);
    }
}

/// Writing a value in `len` big-endian bytes and reading it back is the
/// identity whenever the value fits.
pub proof fn lemma_be_roundtrip(n: nat, len: nat)
    requires
        n < pow256(len),
    ensures
        be_val(be_bytes_of(n, len)) == n,
    decreases len,
{
    if len == 0 {
    } else {
        let rest = be_bytes_of(n / 256, (len - 1) as nat);
        lemma_be_bytes_len(n / 256, (len - 1) as nat);
        assert(be_bytes_of(n, len).drop_last() =~= rest);
        assert(n / 256 < pow256((len - 1) as nat)) by (nonlinear_arith)
            requires
                n < 256 * pow256((len - 1) as nat),
        ;
        lemma_be_roundtrip(n / 256, (len - 1) as nat);
        assert((n / 256) * 256 + n % 256 == n) by (nonlinear_arith);
    }
}

/// Big-endian values are bounded by 256^len.
pub proof fn lemma_be_val_bound(s: Seq<u8>)
    ensures
        be_val(s) < pow256(s.len()),
    decreases s.len(),
{
    if s.len() == 0 {
    } else {
        lemma_be_val_bound(s.drop_last());
        assert(be_val(s.drop_last()) * 256 + s.last() < 256 * pow256((s.len() - 1) as nat))
            by (nonlinear_arith)
            requires
                be_val(s.drop_last()) < pow256((s.len() - 1) as nat),
                s.last() < 256,
        ;
    }
}

/// `n` rendered as exactly `len` big-endian bytes.
pub fn be_bytes(n: u128, len: usize) -> (r: Vec<u8>)
    requires
        len <= 16,
        (n as nat) < pow256(len as nat),
    ensures
        r@ == be_bytes_of(n as nat, len as nat),
        r@.len() == len,
    decreases len,
{
    proof {
        lemma_be_bytes_len(n as nat, len as nat);
    }
    if len == 0 {
        Vec::new()
    } else {
        proof {
            assert(n as nat / 256 < pow256((len - 1) as nat)) by (nonlinear_arith)
                requires
                    (n as nat) < 256 * pow256((len - 1) as nat),
            ;
        }
        let mut r = be_bytes(n / 256, len - 1);
        r.push((n % 256) as u8);
        r
    }
}

/// Reads a big-endian byte string of at most 16 bytes.
pub fn be_val_exec(v: &Vec<u8>) -> (r: u128)
    requires
        v@.len() <= 16,
    ensures
        r as nat == be_val(v@),
{
    let mut acc: u128 = 0;
    let mut i: usize = 0;
    proof {
        lemma_pow256_16_is_u128_bound();
    }
    while i < v.len()
        invariant
            i <= v@.len() <= 16,
            acc as nat == be_val(v@.subrange(0, i as int)),
            pow256(16) == 0x1_0000_0000_0000_0000_0000_0000_0000_0000,
        decreases v@.len() - i,
    {
        proof {
            let pre = v@.subrange(0, i as int);
            lemma_be_val_bound(pre);
            assert(pow256(i as nat) * 256 == pow256((i + 1) as nat)) by {
                assert(pow256((i + 1) as nat) == 256 * pow256(i as nat));
            }
            lemma_pow256_mono(i as nat + 1, 16);
            assert((acc as nat) * 256 + 255 < pow256((i + 1) as nat)) by (nonlinear_arith)
                requires
                    (acc as nat) < pow256(i as nat),
                    pow256(i as nat) * 256 == pow256((i + 1) as nat),
            ;
            assert(v@.subrange(0, i + 1).drop_last() =~= pre);
        }
        acc = acc * 256 + (v[i] as u128);
        i = i + 1;
    }
    proof {
        assert(v@.subrange(0, v@.len() as int) =~= v@);
    }
    acc
}

pub proof fn lemma_pow256_mono(a: nat, b: nat)
    requires
        a <= b,
    ensures
        pow256(a) <= pow256(b),
    decreases b,
{
    if a < b {
        lemma_pow256_mono(a, (b - 1) as nat);
        lemma_pow256_pos((b - 1) as nat);
    }
}

/// The lowercase hex digit of a nibble.
pub open spec fn nibble_hex(n: int) -> u8 {
    if n < 10 {
        (0x30 + n) as u8
    } else {
        (0x57 + n) as u8
    }
}

pub open spec fn is_hex_digit(b: u8) -> bool {
    (0x30 <= b && b <= 0x39) || (0x61 <= b && b <= 0x66) || (0x41 <= b && b <= 0x46)
}

/// The value of a hex digit byte (either case).
pub open spec fn hex_digit_val(b: u8) -> int {
    if 0x30 <= b && b <= 0x39 {
        b - 0x30
    } else if 0x61 <= b && b <= 0x66 {
        b - 0x57
    } else if 0x41 <= b && b <= 0x46 {
        b - 0x37
    } else {
        0
    }
}

/// Lowercase hex rendering of a byte string, two digits per byte.
pub open spec fn hex_of(s: Seq<u8>) -> Seq<u8>
    decreases s.len(),
{
    if s.len() == 0 {
        Seq::empty()
    } else {
        hex_of(s.drop_last()).push(nibble_hex(s.last() as int / 16)).push(
            nibble_hex(s.last() as int % 16),
        )
    }
}

pub proof fn lemma_hex_of_len(s: Seq<u8>)
    ensures
        hex_of(s).len() == 2 * s.len(),
    decreases s.len(),
{
    if s.len() > 0 {
        lemma_hex_of_len(s.drop_last());
    }
}

/// Even length and every byte a hex digit.
pub open spec fn is_hex_seq(s: Seq<u8>) -> bool {
    s.len() % 2 == 0 && (forall|i: int| 0 <= i < s.len() ==> is_hex_digit(#[trigger] s[i]))
}

pub open spec fn byte_of_hex_pair(a: u8, b: u8) -> u8 {
    (hex_digit_val(a) * 16 + hex_digit_val(b)) as u8
}

/// The bytes denoted by a hex digit string (pairs of digits, in order).
pub open spec fn unhex(s: Seq<u8>) -> Seq<u8>
    decreases s.len(),
{
    if s.len() < 2 {
        Seq::empty()
    } else {
        unhex(s.take(s.len() - 2)).push(
            byte_of_hex_pair(s[s.len() - 2], s[s.len() - 1]),
        )
    }
}

pub proof fn lemma_unhex_len(s: Seq<u8>)
    requires
        s.len() % 2 == 0,
    ensures
        unhex(s).len() == s.len() / 2,
    decreases s.len(),
{
    if s.len() >= 2 {
        lemma_unhex_len(s.take(s.len() - 2));
    }
}

/// Hex encoding then decoding is the identity.
pub proof fn lemma_hex_roundtrip(b: Seq<u8>)
    ensures
        is_hex_seq(hex_of(b)),
        unhex(hex_of(b)) == b,
    decreases b.len(),
{
    if b.len() == 0 {
        assert(unhex(hex_of(b)) =~= b);
    } else {
        let rest = b.drop_last();
        lemma_hex_roundtrip(rest);
        lemma_hex_of_len(rest);
        let h = hex_of(b);
        lemma_hex_of_len(b);
        assert(h.take(h.len() - 2) =~= hex_of(rest));
        let last = b.last();
        assert(byte_of_hex_pair(nibble_hex(last as int / 16), nibble_hex(last as int % 16))
            == last);
        assert(unhex(h) =~= b);
    }
}

fn nibble_hex_exec(n: u8) -> (r: u8)
    requires
        n < 16,
    ensures
        r == nibble_hex(n as int),
{
    if n < 10 {
        0x30 + n
    } else {
        0x57 + n
    }
}

/// Renders `v` as lowercase hex, two ASCII bytes per input byte.
pub fn hex_encode(v: &Vec<u8>) -> (r: Vec<u8>)
    ensures
        r@ == hex_of(v@),
{
    let mut r: Vec<u8> = Vec::new();
    let mut i: usize = 0;
    while i < v.len()
        invariant
            i <= v@.len(),
            r@ == hex_of(v@.subrange(0, i as int)),
        decreases v@.len() - i,
    {
        let b = v[i];
        r.push(nibble_hex_exec(b / 16));
        r.push(nibble_hex_exec(b % 16));
        proof {
            assert(v@.subrange(0, i + 1).drop_last() =~= v@.subrange(0, i as int));
            assert(v@.subrange(0, i + 1).last() == v@[i as int]);
        }
        i = i + 1;
    }
    proof {
        assert(v@.subrange(0, v@.len() as int) =~= v@);
    }
    r
}

fn hex_digit_val_exec(b: u8) -> (r: Option<u8>)
    ensures
        r is Some <==> is_hex_digit(b),
        r is Some ==> r->0 as int == hex_digit_val(b),
{
    if 0x30 <= b && b <= 0x39 {
        Some(b - 0x30)
    } else if 0x61 <= b && b <= 0x66 {
        Some(b - 0x57)
    } else if 0x41 <= b && b <= 0x46 {
        Some(b - 0x37)
    } else {
        None
    }
}

/// Decodes lowercase or uppercase hex; `None` exactly when the input is
/// not an even-length string of hex digits.
pub fn hex_decode(v: &Vec<u8>) -> (r: Option<Vec<u8>>)
    ensures
        r is Some <==> is_hex_seq(v@),
        r is Some ==> r->0@ == unhex(v@),
{
    if v.len() % 2 != 0 {
        return None;
    }
    let mut r: Vec<u8> = Vec::new();
    let mut i: usize = 0;
    while i < v.len()
        invariant
            i <= v@.len(),
            i % 2 == 0,
            v@.len() % 2 == 0,
            r@ == unhex(v@.subrange(0, i as int)),
            forall|j: int| 0 <= j < i ==> is_hex_digit(#[trigger] v@[j]),
        decreases v@.len() - i,
    {
        let hi = match hex_digit_val_exec(v[i]) {
            Some(d) => d,
            None => {
                return None;
            },
        };
        let lo = match hex_digit_val_exec(v[i + 1]) {
            Some(d) => d,
            None => {
                return None;
            },
        };
        r.push(hi * 16 + lo);
        proof {
            let pre = v@.subrange(0, i + 2);
            assert(pre.take(pre.len() - 2) =~= v@.subrange(0, i as int));
            assert(pre[pre.len() - 2] == v@[i as int]);
            assert(pre[pre.len() - 1] == v@[i + 1]);
        }
        i = i + 2;
    }
    proof {
        assert(v@.subrange(0, v@.len() as int) =~= v@);
    }
    Some(r)
}

/// Position of the first occurrence of `b` in `s`, or `s.len()` when
/// there is none.
pub open spec fn first_index_of(s: Seq<u8>, b: u8) -> int
    decreases s.len(),
{
    if s.len() == 0 {
        0
    } else if s[0] == b {
        0
    } else {
        1 + first_index_of(s.drop_first(), b)
    }
}

pub proof fn lemma_first_index_char(s: Seq<u8>, b: u8, i: int)
    requires
        0 <= i <= s.len(),
        forall|j: int| 0 <= j < i ==> s[j] != b,
        i < s.len() ==> s[i] == b,
        i == s.len() ==> (forall|j: int| 0 <= j < s.len() ==> s[j] != b),
    ensures
        first_index_of(s, b) == i,
    decreases s.len(),
{
    if s.len() == 0 {
    } else if i == 0 {
    } else {
        assert(s[0] != b);
        let t = s.drop_first();
        assert(forall|j: int| 0 <= j < i - 1 ==> t[j] != b);
        lemma_first_index_char(t, b, i - 1);
    }
}

/// Finds the first occurrence of `b`, or the length when absent.
pub fn find_byte(v: &Vec<u8>, b: u8) -> (r: usize)
    ensures
        r as int == first_index_of(v@, b),
        r <= v@.len(),
        r < v@.len() ==> v@[r as int] == b,
{
    let mut i: usize = 0;
    while i < v.len()
        invariant
            i <= v@.len(),
            forall|j: int| 0 <= j < i ==> v@[j] != b,
        decreases v@.len() - i,
    {
        if v[i] == b {
            proof {
                lemma_first_index_char(v@, b, i as int);
            }
            return i;
        }
        i = i + 1;
    }
    proof {
        lemma_first_index_char(v@, b, v@.len() as int);
    }
    v.len()
}

/// The ASCII digit of `n` (0 through 9).
pub open spec fn dec_digit(n: int) -> u8 {
    (0x30 + n) as u8
}

pub open spec fn is_dec_digit(b: u8) -> bool {
    0x30 <= b && b <= 0x39
}

/// The shortest decimal rendering of `n`.
pub open spec fn dec_of(n: nat) -> Seq<u8>
    decreases n,
{
    if n < 10 {
        seq![dec_digit(n as int)]
    } else {
        dec_of(n / 10).push(dec_digit((n % 10) as int))
    }
}

/// The value of a decimal digit string.
pub open spec fn dec_val(s: Seq<u8>) -> nat
    decreases s.len(),
{
    if s.len() == 0 {
        0nat
    } else {
        (dec_val(s.drop_last()) * 10 + (s.last() - 0x30)) as nat
    }
}

/// `n` rendered as shortest decimal ASCII.
pub fn dec_encode(n: u64) -> (r: Vec<u8>)
    ensures
        r@ == dec_of(n as nat),
    decreases n,
{
    if n < 10 {
        let mut r: Vec<u8> = Vec::new();
        r.push(0x30 + (n as u8));
        proof {
            assert(r@ =~= seq![dec_digit(n as int)]);
        }
        r
    } else {
        let mut r = dec_encode(n / 10);
        r.push(0x30 + ((n % 10) as u8));
        r
    }
}

} // verus!
