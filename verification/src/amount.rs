//! Amounts in the smallest chain unit.
//!
//! A chain amount is an unsigned 256-bit integer held as 32 big-endian
//! bytes. Decimal, human-readable amounts exist only at the input
//! boundary: `parse_amount` turns them into smallest-unit integers using
//! the token's declared decimal count, and rejects everything else.

use vstd::prelude::*;

use crate::hexutil::be_bytes;
use crate::hexutil::be_val;
use crate::hexutil::dec_val;
use crate::hexutil::is_dec_digit;
use crate::hexutil::lemma_pow256_16_is_u128_bound;
use crate::hexutil::pow256;

verus! {

/// An unsigned 256-bit integer: 32 big-endian bytes.
#[derive(Debug)]
pub struct Uint256 {
    pub bytes: Vec<u8>,
}

impl Uint256 {
    pub open spec fn wf(&self) -> bool {
        self.bytes@.len() == 32
    }

    /// The number this value denotes.
    pub open spec fn value(&self) -> nat {
        be_val(self.bytes@)
    }

    /// Widens a machine integer; every amount used by the wallet flows
    /// through here or through a scanned 32-byte field.
    pub fn from_u128(x: u128) -> (r: Uint256)
        ensures
            r.wf(),
            r.value() == x,
    {
        proof {
            lemma_pow256_16_is_u128_bound();
        }
        let mut bytes: Vec<u8> = Vec::new();
        let mut i: usize = 0;
        while i < 16
            invariant
                i <= 16,
                bytes@.len() == i,
                forall|j: int| 0 <= j < i ==> bytes@[j] == 0,
            decreases 16 - i,
        {
            bytes.push(0);
            i = i + 1;
        }
        let mut tail = be_bytes(x, 16);
        let ghost tail_view = tail@;
        bytes.append(&mut tail);
        proof {
            lemma_be_val_zero_prefix(bytes@, 16);
            assert(bytes@.subrange(16, 32) =~= tail_view);
            crate::hexutil::lemma_be_roundtrip(x as nat, 16);
        }
        Uint256 { bytes }
    }

    /// The zero amount.
    pub fn zero() -> (r: Uint256)
        ensures
            r.wf(),
            r.value() == 0,
    {
        Uint256::from_u128(0)
    }

    /// An independent copy with the same bytes.
    pub fn dup(&self) -> (r: Uint256)
        ensures
            r.bytes@ == self.bytes@,
            r.value() == self.value(),
            r.wf() == self.wf(),
    {
        Uint256 { bytes: vstd::slice::slice_to_vec(self.bytes.as_slice()) }
    }

    /// Builds an amount directly from 32 big-endian bytes.
    pub fn from_be_bytes(bytes: Vec<u8>) -> (r: Result<Uint256, crate::errors::InputValidationError>)
        ensures
            (match r {
                Ok(v) => bytes@.len() == 32 && v.wf() && v.value() == be_val(bytes@),
                Err(e) => bytes@.len() != 32 && e == crate::errors::InputValidationError::BadAmount,
            }),
    {
        if bytes.len() == 32 {
            Ok(Uint256 { bytes })
        } else {
            Err(crate::errors::InputValidationError::BadAmount)
        }
    }
}

/// A value whose first `k` big-endian bytes are zero is the value of the
/// remaining bytes.
pub proof fn lemma_be_val_zero_prefix(s: Seq<u8>, k: int)
    requires
        0 <= k <= s.len(),
        forall|i: int| 0 <= i < k ==> s[i] == 0,
    ensures
        be_val(s) == be_val(s.subrange(k, s.len() as int)),
    decreases s.len(),
{
    if s.len() == 0 {
        assert(s.subrange(0, 0) =~= s);
    } else if k == s.len() {
        lemma_be_val_zero_prefix(s.drop_last(), k - 1);
        assert(s.drop_last().subrange(k - 1, s.len() - 1) =~= Seq::<u8>::empty());
        assert(s.subrange(k, s.len() as int) =~= Seq::<u8>::empty());
    } else {
        lemma_be_val_zero_prefix(s.drop_last(), k);
        assert(s.subrange(k, s.len() as int).drop_last() =~= s.drop_last().subrange(
            k,
            s.len() - 1,
        ));
        assert(s.subrange(k, s.len() as int).last() == s.last());
    }
}

/// 10 to the power `k`.
pub open spec fn pow10(k: nat) -> nat
    decreases k,
{
    if k == 0 {
        1
    } else {
        10 * pow10((k - 1) as nat)
    }
}

pub proof fn lemma_pow10_pos(k: nat)
    ensures
        pow10(k) >= 1,
    decreases k,
{
    if k > 0 {
        lemma_pow10_pos((k - 1) as nat);
    }
}

pub proof fn lemma_pow10_mono(a: nat, b: nat)
    requires
        a <= b,
    ensures
        pow10(a) <= pow10(b),
    decreases b,
{
    if a < b {
        lemma_pow10_mono(a, (b - 1) as nat);
        lemma_pow10_pos((b - 1) as nat);
    }
}

proof fn lemma_pow10_38_fits()
    ensures
        pow10(38) == 100_000_000_000_000_000_000_000_000_000_000_000_000,
{
    reveal_with_fuel(pow10, 39);
}

/// Position of the first `.` in `s`, or `s.len()` when there is none.
pub open spec fn first_dot(s: Seq<u8>) -> int
    decreases s.len(),
{
    if s.len() == 0 {
        0
    } else if s[0] == 0x2e {
        0
    } else {
        1 + first_dot(s.drop_first())
    }
}

proof fn lemma_first_dot_char(s: Seq<u8>, i: int)
    requires
        0 <= i <= s.len(),
        forall|j: int| 0 <= j < i ==> s[j] != 0x2e,
        i < s.len() ==> s[i] == 0x2e,
        i == s.len() ==> (forall|j: int| 0 <= j < s.len() ==> s[j] != 0x2e),
    ensures
        first_dot(s) == i,
    decreases s.len(),
{
    if s.len() == 0 {
    } else if i == 0 {
    } else {
        assert(s[0] != 0x2e);
        let t = s.drop_first();
        assert(forall|j: int| 0 <= j < i - 1 ==> t[j] != 0x2e);
        lemma_first_dot_char(t, i - 1);
    }
}

/// A well-formed decimal amount: one or more integer digits, optionally
/// followed by a dot and one to `decimals` fraction digits.
pub open spec fn amount_grammar_ok(s: Seq<u8>, decimals: nat) -> bool {
    let d = first_dot(s);
    &&& d >= 1
    &&& (forall|i: int| 0 <= i < d ==> is_dec_digit(#[trigger] s[i]))
    &&& (d < s.len() ==> {
        &&& s.len() - d - 1 >= 1
        &&& s.len() - d - 1 <= decimals
        &&& (forall|i: int| d < i < s.len() ==> is_dec_digit(#[trigger] s[i]))
    })
}

/// The smallest-unit value a well-formed decimal amount denotes.
pub open spec fn amount_value_of(s: Seq<u8>, decimals: nat) -> nat {
    let d = first_dot(s);
    if d == s.len() {
        dec_val(s) * pow10(decimals)
    } else {
        dec_val(s.take(d)) * pow10(decimals) + dec_val(s.skip(d + 1)) * pow10(
            (decimals - (s.len() - d - 1)) as nat,
        )
    }
}

/// Every prefix of a digit string denotes no more than the whole.
proof fn lemma_dec_val_prefix(s: Seq<u8>, i: int)
    requires
        0 <= i <= s.len(),
        forall|j: int| 0 <= j < s.len() ==> is_dec_digit(#[trigger] s[j]),
    ensures
        dec_val(s.take(i)) <= dec_val(s),
    decreases s.len() - i,
{
    if i < s.len() {
        lemma_dec_val_prefix(s, i + 1);
        let a = s.take(i);
        let b = s.take(i + 1);
        assert(b.drop_last() =~= a);
        assert(b.last() == s[i]);
        assert(dec_val(b) == dec_val(a) * 10 + (b.last() - 0x30));
        assert(dec_val(a) * 10 >= dec_val(a)) by (nonlinear_arith);
    } else {
        assert(s.take(i) =~= s);
    }
}

fn find_dot(v: &Vec<u8>) -> (r: usize)
    ensures
        r as int == first_dot(v@),
        r <= v@.len(),
{
    let mut i: usize = 0;
    while i < v.len()
        invariant
            i <= v@.len(),
            forall|j: int| 0 <= j < i ==> v@[j] != 0x2e,
        decreases v@.len() - i,
    {
        if v[i] == 0x2e {
            proof {
                lemma_first_dot_char(v@, i as int);
            }
            return i;
        }
        i = i + 1;
    }
    proof {
        lemma_first_dot_char(v@, v@.len() as int);
    }
    v.len()
}

/// Reads the digits `v[from .. to]` as a number, or reports that the
/// number exceeds `u128::MAX`.
fn dec_val_range_checked(v: &Vec<u8>, from: usize, to: usize) -> (r: Option<u128>)
    requires
        from <= to <= v@.len(),
        forall|i: int| from <= i < to ==> is_dec_digit(#[trigger] v@[i]),
    ensures
        r is Some <==> dec_val(v@.subrange(from as int, to as int)) <= u128::MAX,
        r is Some ==> r->0 as nat == dec_val(v@.subrange(from as int, to as int)),
{
    let ghost s = v@.subrange(from as int, to as int);
    let mut acc: u128 = 0;
    let mut i: usize = from;
    while i < to
        invariant
            from <= i <= to <= v@.len(),
            s == v@.subrange(from as int, to as int),
            forall|k: int| from <= k < to ==> is_dec_digit(#[trigger] v@[k]),
            acc as nat == dec_val(s.take(i - from)),
        decreases to - i,
    {
        let dig = v[i] - 0x30;
        proof {
            assert(s.take(i - from + 1).drop_last() =~= s.take(i - from));
            assert(s.take(i - from + 1).last() == v@[i as int]);
        }
        if acc > (u128::MAX - dig as u128) / 10 {
            proof {
                let pre = s.take(i - from + 1);
                assert((acc as nat) * 10 + dig as nat > u128::MAX as nat) by (nonlinear_arith)
                    requires
                        acc as nat > (u128::MAX as nat - dig as nat) / 10,
                        dig as nat <= 9,
                ;
                assert(dec_val(pre) > u128::MAX as nat);
                lemma_dec_val_prefix(s, i - from + 1);
            }
            return None;
        }
        proof {
            assert((acc as nat) * 10 + dig as nat <= u128::MAX as nat) by (nonlinear_arith)
                requires
                    acc as nat <= (u128::MAX as nat - dig as nat) / 10,
                    dig as nat <= 9,
            ;
        }
        acc = acc * 10 + dig as u128;
        i = i + 1;
    }
    proof {
        assert(s.take(to - from) =~= s);
    }
    Some(acc)
}

fn pow10_exec(k: u32) -> (r: u128)
    requires
        k <= 38,
    ensures
        r as nat == pow10(k as nat),
{
    proof {
        lemma_pow10_38_fits();
    }
    let mut acc: u128 = 1;
    let mut i: u32 = 0;
    while i < k
        invariant
            i <= k <= 38,
            acc as nat == pow10(i as nat),
            pow10(38) == 100_000_000_000_000_000_000_000_000_000_000_000_000,
        decreases k - i,
    {
        proof {
            lemma_pow10_mono(i as nat + 1, 38);
        }
        acc = acc * 10;
        i = i + 1;
    }
    acc
}

/// Parses a decimal amount into the smallest unit of a token with
/// `decimals` decimal places. Accepts exactly the strings of the amount
/// grammar whose scaled value fits 128 bits; rejects everything else.
pub fn parse_amount(v: &Vec<u8>, decimals: u32) -> (r: Option<u128>)
    requires
        decimals <= 38,
    ensures
        r is Some <==> (amount_grammar_ok(v@, decimals as nat) && amount_value_of(
            v@,
            decimals as nat,
        ) <= u128::MAX),
        r is Some ==> r->0 as nat == amount_value_of(v@, decimals as nat),
{
    let d = find_dot(v);
    if d == 0 {
        return None;
    }
    // integer digits
    let mut i: usize = 0;
    while i < d
        invariant
            d as int == first_dot(v@),
            d <= v@.len(),
            i <= d,
            forall|j: int| 0 <= j < i ==> is_dec_digit(#[trigger] v@[j]),
        decreases d - i,
    {
        if !(0x30 <= v[i] && v[i] <= 0x39) {
            proof {
                assert(!is_dec_digit(v@[i as int]));
            }
            return None;
        }
        i = i + 1;
    }
    let frac_len = if d < v.len() {
        v.len() - d - 1
    } else {
        0
    };
    if d < v.len() {
        if frac_len < 1 || frac_len > decimals as usize {
            return None;
        }
        let mut j: usize = d + 1;
        while j < v.len()
            invariant
                d as int == first_dot(v@),
                d < v@.len(),
                d + 1 <= j <= v@.len(),
                forall|k: int| d < k < j ==> is_dec_digit(#[trigger] v@[k]),
            decreases v@.len() - j,
        {
            if !(0x30 <= v[j] && v[j] <= 0x39) {
                proof {
                    assert(!is_dec_digit(v@[j as int]));
                }
                return None;
            }
            j = j + 1;
        }
    }
    proof {
        assert(amount_grammar_ok(v@, decimals as nat));
    }
    let int_val = match dec_val_range_checked(v, 0, d) {
        Some(x) => x,
        None => {
            proof {
                lemma_overflow_int_part(v@, decimals as nat);
            }
            return None;
        },
    };
    proof {
        assert(v@.subrange(0, d as int) =~= v@.take(d as int));
    }
    let scale = pow10_exec(decimals);
    proof {
        lemma_pow10_pos(decimals as nat);
    }
    if int_val > u128::MAX / scale {
        proof {
            assert((int_val as nat) * (scale as nat) > u128::MAX as nat) by (nonlinear_arith)
                requires
                    int_val as nat > (u128::MAX as nat) / (scale as nat),
                    scale as nat >= 1,
            ;
            lemma_value_lower_bound(v@, decimals as nat);
        }
        return None;
    }
    proof {
        lemma_pow10_pos(decimals as nat);
        assert((int_val as nat) * (scale as nat) <= u128::MAX as nat) by (nonlinear_arith)
            requires
                int_val as nat <= (u128::MAX as nat) / (scale as nat),
                scale as nat >= 1,
        ;
    }
    let hi = int_val * scale;
    if d >= v.len() {
        proof {
            assert(v@.take(d as int) =~= v@);
        }
        return Some(hi);
    }
    let frac_val = match dec_val_range_checked(v, d + 1, v.len()) {
        Some(x) => x,
        None => {
            proof {
                lemma_overflow_frac_part(v@, decimals as nat);
            }
            return None;
        },
    };
    proof {
        assert(v@.subrange(d + 1, v@.len() as int) =~= v@.skip(d + 1));
    }
    let frac_scale = pow10_exec(decimals - frac_len as u32);
    proof {
        lemma_pow10_pos((decimals as nat - frac_len as nat) as nat);
    }
    if frac_val > u128::MAX / frac_scale {
        proof {
            assert((frac_val as nat) * (frac_scale as nat) > u128::MAX as nat) by (nonlinear_arith)
                requires
                    frac_val as nat > (u128::MAX as nat) / (frac_scale as nat),
                    frac_scale as nat >= 1,
            ;
        }
        return None;
    }
    proof {
        assert((frac_val as nat) * (frac_scale as nat) <= u128::MAX as nat) by (nonlinear_arith)
            requires
                frac_val as nat <= (u128::MAX as nat) / (frac_scale as nat),
                frac_scale as nat >= 1,
        ;
    }
    let lo = frac_val * frac_scale;
    if hi > u128::MAX - lo {
        return None;
    }
    Some(hi + lo)
}

/// When the integer digits alone exceed the accumulator, the scaled
/// value does too.
proof fn lemma_overflow_int_part(s: Seq<u8>, decimals: nat)
    requires
        amount_grammar_ok(s, decimals),
        dec_val(s.subrange(0, first_dot(s))) > u128::MAX as nat,
    ensures
        amount_value_of(s, decimals) > u128::MAX as nat,
{
    let d = first_dot(s);
    lemma_pow10_pos(decimals);
    assert(s.subrange(0, d) =~= s.take(d));
    if d == s.len() {
        assert(s.take(d) =~= s);
        assert(dec_val(s) * pow10(decimals) >= dec_val(s)) by (nonlinear_arith)
            requires
                pow10(decimals) >= 1,
        ;
    } else {
        assert(dec_val(s.take(d)) * pow10(decimals) >= dec_val(s.take(d))) by (nonlinear_arith)
            requires
                pow10(decimals) >= 1,
        ;
    }
}

/// When the fraction digits alone exceed the accumulator, the scaled
/// value does too.
proof fn lemma_overflow_frac_part(s: Seq<u8>, decimals: nat)
    requires
        amount_grammar_ok(s, decimals),
        first_dot(s) < s.len(),
        dec_val(s.subrange(first_dot(s) + 1, s.len() as int)) > u128::MAX as nat,
    ensures
        amount_value_of(s, decimals) > u128::MAX as nat,
{
    let d = first_dot(s);
    let q = (decimals - (s.len() - d - 1)) as nat;
    lemma_pow10_pos(q);
    assert(s.subrange(d + 1, s.len() as int) =~= s.skip(d + 1));
    assert(dec_val(s.skip(d + 1)) * pow10(q) >= dec_val(s.skip(d + 1))) by (nonlinear_arith)
        requires
            pow10(q) >= 1,
    ;
}

/// The scaled integer part alone is a lower bound on the amount.
proof fn lemma_value_lower_bound(s: Seq<u8>, decimals: nat)
    requires
        amount_grammar_ok(s, decimals),
    ensures
        amount_value_of(s, decimals) >= dec_val(s.take(first_dot(s))) * pow10(decimals),
{
    let d = first_dot(s);
    if d == s.len() {
        assert(s.take(d) =~= s);
    }
}

} // verus!
