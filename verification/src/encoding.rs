//! Fixed-length, order-preserving text form of 128-bit identifiers.
//!
//! Each identifier crosses the public interface as an opaque string, never
//! as binary, so the text form must compare lexicographically exactly as
//! the underlying values compare numerically. Unpadded base32hex over the
//! big-endian bytes has that property: 26 symbols, five bits each, most
//! significant first, drawn from an alphabet that ascends with the value.

use vstd::arithmetic::div_mod::{
    lemma_basic_div, lemma_div_is_ordered, lemma_div_pos_is_pos, lemma_fundamental_div_mod,
    lemma_hoist_over_denominator, lemma_mod_bound, lemma_mod_multiples_vanish,
    lemma_multiply_divide_lt, lemma_small_mod,
};
use vstd::arithmetic::mul::{lemma_mul_is_associative, lemma_mul_is_commutative};
use vstd::arithmetic::power::{
    lemma_pow0, lemma_pow1, lemma_pow_adds, lemma_pow_increases, lemma_pow_multiplies,
    lemma_pow_positive, pow,
};
use vstd::arithmetic::power2::{lemma2_to64, lemma_pow2, lemma_pow2_adds, pow2};
use vstd::prelude::*;

verus! {

/// Number of symbols in the text form of a 128-bit value: five bits per
/// symbol, the last quantum padded with two zero bits.
pub const ENCODED_LEN: usize = 26;

/// The weight of the base-32 digit at scale `k` (scale 0 is the least
/// significant digit).
pub open spec fn scale(k: nat) -> int {
    pow(32, k)
}

/// The base-32 digit of `x` at scale `k`.
pub open spec fn digit(x: int, k: nat) -> int {
    (x / scale(k)) % 32
}

/// The RFC 4648 base32hex symbol for a five-bit group, as its ASCII code:
/// `'0'`-`'9'` for 0-9, `'A'`-`'V'` for 10-31.
pub open spec fn symbol_ascii(d: int) -> u8 {
    if d < 10 {
        (48 + d) as u8
    } else {
        (55 + d) as u8
    }
}

/// The text form of `v`: 26 base32hex symbols, most significant group
/// first. The group at position `j` is the base-32 digit of `v * 4` (the
/// two-bit pad) at scale `25 - j`.
pub open spec fn encode_u128(v: u128) -> Seq<char> {
    Seq::new(ENCODED_LEN as nat, |j: int| symbol_ascii(digit(v as int * 4, (25 - j) as nat)) as char)
}

/// Strict lexicographic order on character sequences of equal length.
pub open spec fn lex_lt(a: Seq<char>, b: Seq<char>) -> bool {
    exists|j: int|
        0 <= j < a.len() && j < b.len() && (forall|k: int| 0 <= k < j ==> a[k] == b[k]) && a[j]
            < b[j]
}

/// Relies on `data_encoding::BASE32HEX_NOPAD.encode`: unpadded RFC 4648
/// base32hex of the big-endian bytes, using the alphabet
/// `0123456789ABCDEFGHIJKLMNOPQRSTUV`.
#[verifier::external_body]
pub fn base32hex_of(v: u128) -> (r: String)
    ensures
        r@ == encode_u128(v),
{
    data_encoding::BASE32HEX_NOPAD.encode(&v.to_be_bytes())
}

proof fn lemma_digit_high_zero(x: int, m: nat, k: nat)
    requires
        0 <= x < scale(m),
        m <= k,
    ensures
        digit(x, k) == 0,
{
    lemma_pow_increases(32, m, k);
    lemma_pow_positive(32, k);
    lemma_basic_div(x, scale(k));
}

proof fn lemma_digit_split(h: int, l: int, m1: nat, k: nat)
    requires
        0 <= l < scale(m1),
        0 <= h,
        k < m1,
    ensures
        digit(h * scale(m1) + l, k) == digit(l, k),
{
    let p = scale(m1);
    let q = scale(k);
    let w = scale((m1 - k) as nat);
    lemma_pow_positive(32, m1);
    lemma_pow_positive(32, k);
    lemma_pow_positive(32, (m1 - k) as nat);
    lemma_pow_adds(32, k, (m1 - k) as nat);
    assert(p == q * w);
    assert(h * p == (h * w) * q) by {
        lemma_mul_is_commutative(q, w);
        lemma_mul_is_associative(h, w, q);
        lemma_mul_is_associative(h, q, w);
        lemma_mul_is_commutative(h * w, q);
        lemma_mul_is_commutative(h * q, w);
        lemma_mul_is_commutative(w, q);
        assert(h * (q * w) == (h * q) * w);
    }
    lemma_hoist_over_denominator(l, h * w, q as nat);
    assert((h * p + l) / q == h * w + l / q);
    let s = scale((m1 - k - 1) as nat);
    lemma_pow_adds(32, 1, (m1 - k - 1) as nat);
    lemma_pow1(32);
    assert(w == 32 * s);
    assert(h * w == 32 * (h * s)) by {
        lemma_mul_is_associative(h, 32, s);
        lemma_mul_is_commutative(h, 32);
        lemma_mul_is_associative(32, h, s);
    }
    lemma_mod_multiples_vanish(h * s, l / q, 32);
}

proof fn lemma_digit_top(h: int, l: int, m1: nat)
    requires
        0 <= l < scale(m1),
        0 <= h < 32,
    ensures
        digit(h * scale(m1) + l, m1) == h,
{
    let p = scale(m1);
    lemma_pow_positive(32, m1);
    lemma_hoist_over_denominator(l, h, p as nat);
    lemma_basic_div(l, p);
    lemma_small_mod(h as nat, 32);
}

proof fn lemma_first_digit_differs(x: int, y: int, m: nat)
    requires
        0 <= x < y,
        y < scale(m),
    ensures
        exists|k: nat|
            #![trigger digit(x, k)]
            k < m && digit(x, k) < digit(y, k) && (forall|k2: nat|
                k < k2 ==> digit(x, k2) == digit(y, k2)),
    decreases m,
{
    lemma_pow_positive(32, m);
    if m == 0 {
        lemma_pow0(32);
        assert(false);
    } else {
        let m1 = (m - 1) as nat;
        let p = scale(m1);
        lemma_pow_positive(32, m1);
        lemma_pow_adds(32, m1, 1);
        lemma_pow1(32);
        assert(scale(m) == p * 32);
        let xh = x / p;
        let xl = x % p;
        let yh = y / p;
        let yl = y % p;
        lemma_fundamental_div_mod(x, p);
        lemma_fundamental_div_mod(y, p);
        lemma_mod_bound(x, p);
        lemma_mod_bound(y, p);
        lemma_div_pos_is_pos(x, p);
        lemma_div_pos_is_pos(y, p);
        lemma_multiply_divide_lt(x, p, 32);
        lemma_multiply_divide_lt(y, p, 32);
        lemma_div_is_ordered(x, y, p);
        assert(x == xh * p + xl) by {
            lemma_mul_is_commutative(p, xh);
        }
        assert(y == yh * p + yl) by {
            lemma_mul_is_commutative(p, yh);
        }
        if xh == yh {
            assert(xl < yl);
            lemma_first_digit_differs(xl, yl, m1);
            let k = choose|k: nat|
                #![trigger digit(xl, k)]
                k < m1 && digit(xl, k) < digit(yl, k) && (forall|k2: nat|
                    k < k2 ==> digit(xl, k2) == digit(yl, k2));
            lemma_digit_split(xh, xl, m1, k);
            lemma_digit_split(yh, yl, m1, k);
            assert(digit(x, k) < digit(y, k));
            assert forall|k2: nat| k < k2 implies digit(x, k2) == digit(y, k2) by {
                if k2 < m1 {
                    lemma_digit_split(xh, xl, m1, k2);
                    lemma_digit_split(yh, yl, m1, k2);
                    assert(digit(xl, k2) == digit(yl, k2));
                } else if k2 == m1 {
                    lemma_digit_top(xh, xl, m1);
                    lemma_digit_top(yh, yl, m1);
                } else {
                    lemma_digit_high_zero(x, m, k2);
                    lemma_digit_high_zero(y, m, k2);
                }
            }
            assert(k < m && digit(x, k) < digit(y, k));
        } else {
            assert(xh < yh);
            lemma_digit_top(xh, xl, m1);
            lemma_digit_top(yh, yl, m1);
            assert(digit(x, m1) < digit(y, m1));
            assert forall|k2: nat| m1 < k2 implies digit(x, k2) == digit(y, k2) by {
                lemma_digit_high_zero(x, m, k2);
                lemma_digit_high_zero(y, m, k2);
            }
            assert(m1 < m && digit(x, m1) < digit(y, m1));
        }
    }
}

proof fn lemma_symbol_order(d1: int, d2: int)
    requires
        0 <= d1 < d2 < 32,
    ensures
        (symbol_ascii(d1) as char) < (symbol_ascii(d2) as char),
{
}

proof fn lemma_values_fit(a: u128)
    ensures
        a as int * 4 < scale(26),
{
    lemma_pow_multiplies(2, 5, 26);
    lemma2_to64();
    lemma_pow2(5);
    assert(scale(26) == pow(2, 130));
    lemma_pow_adds(2, 128, 2);
    lemma_pow2_adds(64, 64);
    lemma_pow2(64);
    lemma_pow2(128);
    assert(pow2(128) == 0x100000000000000000000000000000000);
    assert(pow(2, 2) == 4) by {
        lemma_pow2(2);
        lemma2_to64();
    }
}

/// Law: the text encoding preserves order — whenever `a < b` as numbers,
/// the encoding of `a` sorts strictly before the encoding of `b`
/// lexicographically.
pub proof fn lemma_encode_order(a: u128, b: u128)
    requires
        a < b,
    ensures
        lex_lt(encode_u128(a), encode_u128(b)),
{
    let x = a as int * 4;
    let y = b as int * 4;
    lemma_values_fit(b);
    lemma_first_digit_differs(x, y, 26);
    let k = choose|k: nat|
        #![trigger digit(x, k)]
        k < 26 && digit(x, k) < digit(y, k) && (forall|k2: nat|
            k < k2 ==> digit(x, k2) == digit(y, k2));
    let j = 25 - k;
    lemma_pow_positive(32, k);
    lemma_mod_bound(x / scale(k), 32);
    lemma_mod_bound(y / scale(k), 32);
    lemma_symbol_order(digit(x, k), digit(y, k));
    assert(encode_u128(a)[j] < encode_u128(b)[j]);
    assert forall|kk: int| 0 <= kk < j implies encode_u128(a)[kk] == encode_u128(b)[kk] by {
        assert(digit(x, (25 - kk) as nat) == digit(y, (25 - kk) as nat));
    }
    assert(0 <= j < encode_u128(a).len() && j < encode_u128(b).len() && (forall|kk: int|
        0 <= kk < j ==> encode_u128(a)[kk] == encode_u128(b)[kk]) && encode_u128(a)[j]
        < encode_u128(b)[j]);
}

/// Law: the text encoding is injective — equal encodings come only from
/// equal values, so string equality can stand in for value equality.
pub proof fn lemma_encode_injective(a: u128, b: u128)
    requires
        encode_u128(a) == encode_u128(b),
    ensures
        a == b,
{
    if a < b {
        lemma_encode_order(a, b);
        let j = choose|j: int|
            0 <= j < encode_u128(a).len() && j < encode_u128(b).len() && (forall|k: int|
                0 <= k < j ==> encode_u128(a)[k] == encode_u128(b)[k]) && encode_u128(a)[j]
                < encode_u128(b)[j];
        assert(encode_u128(a)[j] == encode_u128(b)[j]);
    } else if b < a {
        lemma_encode_order(b, a);
        let j = choose|j: int|
            0 <= j < encode_u128(b).len() && j < encode_u128(a).len() && (forall|k: int|
                0 <= k < j ==> encode_u128(b)[k] == encode_u128(a)[k]) && encode_u128(b)[j]
                < encode_u128(a)[j];
        assert(encode_u128(b)[j] == encode_u128(a)[j]);
    }
}

} // verus!
