//! Register codec: 16-bit register words to and from wire values.
//!
//! A register value travels as big-endian bytes packed into 16-bit words.
//! Settings registers carry an IEEE-754 single-precision number whose value
//! is always a small non-negative integer; identity registers carry raw
//! 16-bit or 32-bit unsigned integers. Every integer up to 65535 is exactly
//! representable in single precision (24-bit significand), so the codec
//! works on the 32-bit pattern directly and never touches machine floats.

use vstd::prelude::*;
use vstd::arithmetic::power2::{
    pow2, lemma2_to64, lemma_pow2_adds, lemma_pow2_pos, lemma_pow2_strictly_increases,
};
use vstd::arithmetic::div_mod::{
    lemma_fundamental_div_mod, lemma_fundamental_div_mod_converse,
};
use vstd::arithmetic::mul::{
    lemma_mul_inequality, lemma_mul_inequality_converse, lemma_mul_strict_inequality,
    lemma_mul_strict_inequality_converse,
};
use crate::error::Error;

verus! {

/// Two big-endian register words concatenated into one 32-bit value.
pub open spec fn spec_words_to_u32(words: Seq<u16>) -> u32
    recommends
        words.len() == 2,
{
    (words[0] * 0x1_0000 + words[1]) as u32
}

/// A 32-bit value split into two big-endian register words.
pub open spec fn spec_u32_to_words(bits: u32) -> Seq<u16> {
    seq![(bits / 0x1_0000) as u16, (bits % 0x1_0000) as u16]
}

/// Position of the highest set bit: `pow2(floor_log2(n)) <= n < pow2(floor_log2(n) + 1)`
/// for `n >= 1` (see `lemma_floor_log2`).
pub open spec fn floor_log2(n: nat) -> nat
    decreases n,
{
    if n <= 1 {
        0
    } else {
        1 + floor_log2(n / 2)
    }
}

/// The IEEE-754 single-precision bit pattern whose value is exactly the
/// integer `n`: biased exponent `floor_log2(n) + 127`, significand `n`
/// shifted up to the 24-bit window with the hidden leading bit dropped.
pub open spec fn ieee_bits(n: u16) -> u32 {
    if n == 0 {
        0u32
    } else {
        let e = floor_log2(n as nat);
        ((e + 127) * pow2(23) + n * pow2((23 - e) as nat) - pow2(23)) as u32
    }
}

/// The integer value of an IEEE-754 single-precision bit pattern, when that
/// value is exactly an integer in `0 ..= 65535`; `None` for every other
/// pattern (negative, fractional, too large, infinity, NaN).
pub open spec fn ieee_value(bits: u32) -> Option<u16> {
    if bits == 0 {
        Some(0u16)
    } else {
        let ef = bits as int / pow2(23) as int;
        let m = bits as int % pow2(23) as int;
        if 127 <= ef <= 142 {
            let d = pow2((150 - ef) as nat) as int;
            let full = pow2(23) as int + m;
            if full % d == 0 {
                Some((full / d) as u16)
            } else {
                None
            }
        } else {
            None
        }
    }
}

/// The binary-search invariant of `floor_log2`.
pub proof fn lemma_floor_log2(n: nat)
    requires
        n >= 1,
    ensures
        pow2(floor_log2(n)) <= n < pow2(floor_log2(n) + 1),
    decreases n,
{
    lemma2_to64();
    if n == 1 {
    } else {
        lemma_floor_log2(n / 2);
        let e = floor_log2(n / 2);
        lemma_pow2_adds(e, 1);
        lemma_pow2_adds(e + 1, 1);
        assert(pow2(e + 1) == 2 * pow2(e));
        assert(pow2(e + 2) == 2 * pow2(e + 1));
    }
}

/// `floor_log2` is the only exponent whose powers sandwich `n`.
pub proof fn lemma_floor_log2_unique(n: nat, e: nat)
    requires
        pow2(e) <= n < pow2(e + 1),
    ensures
        floor_log2(n) == e,
{
    lemma2_to64();
    lemma_pow2_pos(e);
    assert(n >= 1);
    lemma_floor_log2(n);
    let f = floor_log2(n);
    if f < e {
        lemma_pow2_strictly_increases(f + 1, e + 1);
        if f + 1 < e {
            lemma_pow2_strictly_increases(f + 1, e);
        }
        assert(pow2(f + 1) <= pow2(e));
        assert(false);
    }
    if f > e {
        if e + 1 < f {
            lemma_pow2_strictly_increases(e + 1, f);
        }
        assert(pow2(e + 1) <= pow2(f));
        assert(false);
    }
}

/// A 16-bit integer's highest set bit is at most bit 15.
pub proof fn lemma_floor_log2_u16(n: u16)
    requires
        n >= 1,
    ensures
        floor_log2(n as nat) <= 15,
{
    lemma_floor_log2(n as nat);
    let f = floor_log2(n as nat);
    if f > 15 {
        lemma2_to64();
        if f > 16 {
            lemma_pow2_strictly_increases(16, f);
        }
        assert(pow2(16) <= pow2(f));
        assert(false);
    }
}

/// Decoding inverts encoding: the bit pattern of `n` reads back as `n`.
pub proof fn lemma_ieee_roundtrip(n: u16)
    ensures
        ieee_value(ieee_bits(n)) == Some(n),
{
    lemma2_to64();
    if n != 0 {
        let e = floor_log2(n as nat);
        lemma_floor_log2(n as nat);
        lemma_floor_log2_u16(n);
        let p23 = pow2(23) as int;
        let d = pow2((23 - e) as nat) as int;
        lemma_pow2_pos((23 - e) as nat);
        lemma_pow2_adds(e, (23 - e) as nat);
        lemma_pow2_adds(e + 1, (23 - e) as nat);
        // pow2(23) == pow2(e) * d and pow2(24) == pow2(e + 1) * d
        lemma_mul_inequality(pow2(e) as int, n as int, d);
        lemma_mul_strict_inequality(n as int, pow2(e + 1) as int, d);
        let full = (n as int) * d;
        assert(p23 <= full < pow2(24));
        let m = full - p23;
        let bits = ieee_bits(n);
        assert(bits == (e + 127) * p23 + m);
        assert(bits != 0);
        lemma_fundamental_div_mod_converse(bits as int, p23, e as int + 127, m);
        assert(bits as int / p23 == e + 127);
        assert(bits as int % p23 == m);
        assert(150 - (e + 127) == 23 - e);
        lemma_fundamental_div_mod_converse(full, d, n as int, 0);
        assert(full % d == 0);
        assert(full / d == n as int);
    }
}

/// Encoding inverts decoding: a pattern that reads as `n` is the pattern of `n`.
pub proof fn lemma_ieee_exact(bits: u32)
    requires
        ieee_value(bits) is Some,
    ensures
        ieee_bits(ieee_value(bits)->Some_0) == bits,
{
    lemma2_to64();
    if bits != 0 {
        let p23 = pow2(23) as int;
        let ef = bits as int / p23;
        let m = bits as int % p23;
        let e = ef - 127;
        let d = pow2((150 - ef) as nat) as int;
        lemma_pow2_pos((150 - ef) as nat);
        let full = p23 + m;
        let q = full / d;
        lemma_fundamental_div_mod(bits as int, p23);
        assert(0 <= m < p23);
        lemma_fundamental_div_mod(full, d);
        assert(full == d * q);
        lemma_pow2_adds((e) as nat, (23 - e) as nat);
        lemma_pow2_adds((e + 1) as nat, (23 - e) as nat);
        // pow2(e) * d == p23 <= q * d < pow2(24) == pow2(e + 1) * d
        assert(pow2(e as nat) as int * d <= q * d < pow2((e + 1) as nat) as int * d) by {
            assert(q * d == d * q) by (nonlinear_arith);
        }
        assert(pow2(e as nat) as int <= q) by {
            lemma_mul_inequality_converse(pow2(e as nat) as int, q, d);
        }
        assert(q < pow2((e + 1) as nat) as int) by {
            lemma_mul_strict_inequality_converse(q, pow2((e + 1) as nat) as int, d);
        }
        if e < 15 {
            lemma_pow2_strictly_increases((e + 1) as nat, 16);
        }
        assert(q < pow2(16));
        let n = ieee_value(bits)->Some_0;
        assert(n == q as u16);
        assert(n as int == q);
        assert(n >= 1) by {
            lemma_pow2_pos(e as nat);
        }
        lemma_floor_log2_unique(n as nat, e as nat);
        assert(ieee_bits(n) == ((e + 127) * p23 + (n as int) * d - p23) as u32);
        assert((n as int) * d == full) by {
            assert(q * d == d * q) by (nonlinear_arith);
        }
        assert((e + 127) * p23 + full - p23 == ef * p23 + m);
        assert(ef * p23 + m == bits as int) by {
            assert(p23 * ef == ef * p23) by (nonlinear_arith);
        }
    }
}

/// Computes `pow2(e)` for the exponents the codec needs.
fn pow2_u32(e: u16) -> (r: u32)
    requires
        e <= 24,
    ensures
        r == pow2(e as nat),
{
    let mut i: u16 = 0;
    let mut r: u32 = 1;
    proof {
        lemma2_to64();
    }
    while i < e
        invariant
            i <= e <= 24,
            r == pow2(i as nat),
        decreases e - i,
    {
        proof {
            lemma_pow2_adds(i as nat, 1);
            lemma2_to64();
            if (i as nat) < 24 {
                lemma_pow2_strictly_increases(i as nat, 24);
            }
        }
        r = r * 2;
        i = i + 1;
    }
    r
}

/// Computes `floor_log2(n)` for a nonzero 16-bit integer.
fn floor_log2_u16(n: u16) -> (r: u16)
    requires
        n >= 1,
    ensures
        r == floor_log2(n as nat),
        r <= 15,
{
    let mut v: u16 = n;
    let mut e: u16 = 0;
    while v >= 2
        invariant
            1 <= v <= n,
            e <= 16,
            floor_log2(n as nat) == e + floor_log2(v as nat),
        decreases v,
    {
        proof {
            if e >= 16 {
                lemma_floor_log2(n as nat);
                lemma_floor_log2_u16(n);
            }
        }
        v = v / 2;
        e = e + 1;
    }
    proof {
        lemma_floor_log2_u16(n);
    }
    e
}

/// The executable counterpart of `ieee_bits`.
pub fn u16_to_ieee_bits(n: u16) -> (bits: u32)
    ensures
        bits == ieee_bits(n),
{
    if n == 0 {
        return 0;
    }
    let e = floor_log2_u16(n);
    let d = pow2_u32(23 - e);
    proof {
        lemma2_to64();
        lemma_floor_log2(n as nat);
        lemma_pow2_adds(e as nat, (23 - e) as nat);
        lemma_pow2_adds((e + 1) as nat, (23 - e) as nat);
        lemma_mul_inequality(pow2(e as nat) as int, n as int, d as int);
        lemma_mul_strict_inequality(n as int, pow2((e + 1) as nat) as int, d as int);
        assert(pow2(23) <= (n as int) * (d as int) < pow2(24));
    }
    let full = (n as u32) * d;
    let bits = ((e as u32) + 127) * 0x80_0000 + (full - 0x80_0000);
    bits
}

/// The executable counterpart of `ieee_value`.
pub fn ieee_bits_to_u16(bits: u32) -> (r: Option<u16>)
    ensures
        r == ieee_value(bits),
{
    proof {
        lemma2_to64();
    }
    if bits == 0 {
        return Some(0);
    }
    let ef = bits / 0x80_0000;
    let m = bits % 0x80_0000;
    if ef < 127 || ef > 142 {
        return None;
    }
    let d = pow2_u32((150 - ef) as u16);
    let full = 0x80_0000u32 + m;
    proof {
        lemma_pow2_pos((150 - ef) as nat);
    }
    if full % d == 0 {
        let q = full / d;
        proof {
            let e = ef as int - 127;
            lemma_fundamental_div_mod(full as int, d as int);
            lemma_pow2_adds((e + 1) as nat, (23 - e) as nat);
            assert((q as int) * (d as int) == (d as int) * (q as int)) by (nonlinear_arith);
            assert((q as int) * (d as int) < pow2((e + 1) as nat) as int * (d as int));
            assert((q as int) < pow2((e + 1) as nat) as int) by {
                lemma_mul_strict_inequality_converse(q as int, pow2((e + 1) as nat) as int, d as int);
            }
            if e < 15 {
                lemma_pow2_strictly_increases((e + 1) as nat, 16);
            }
            assert(q < pow2(16));
        }
        Some(q as u16)
    } else {
        None
    }
}

/// Wrong word count for the register, detected before any value decoding.
pub open spec fn spec_decode_uint(words: Seq<u16>) -> Result<u16, Error> {
    if words.len() != 2 {
        Err(Error::WordsCountError)
    } else {
        match ieee_value(spec_words_to_u32(words)) {
            Some(n) => Ok(n),
            None => Err(Error::InvalidValue),
        }
    }
}

/// The two register words carrying the integer `n` as a single-precision number.
pub open spec fn spec_encode_uint(n: u16) -> Seq<u16> {
    spec_u32_to_words(ieee_bits(n))
}

/// Decodes the small-integer value of a two-word single-precision register.
pub fn decode_uint(words: &[u16]) -> (r: Result<u16, Error>)
    ensures
        r == spec_decode_uint(words@),
{
    if words.len() != 2 {
        return Err(Error::WordsCountError);
    }
    let bits = (words[0] as u32) * 0x1_0000 + (words[1] as u32);
    match ieee_bits_to_u16(bits) {
        Some(n) => Ok(n),
        None => Err(Error::InvalidValue),
    }
}

/// Encodes the integer `n` as a two-word single-precision register value.
pub fn encode_uint(n: u16) -> (r: Vec<u16>)
    ensures
        r@ == spec_encode_uint(n),
{
    let bits = u16_to_ieee_bits(n);
    u32_to_words(bits)
}

/// Splits a 32-bit value into its two big-endian register words.
pub fn u32_to_words(bits: u32) -> (r: Vec<u16>)
    ensures
        r@ == spec_u32_to_words(bits),
{
    let hi = (bits / 0x1_0000) as u16;
    let lo = (bits % 0x1_0000) as u16;
    let r = vec![hi, lo];
    proof {
        assert(r@ =~= spec_u32_to_words(bits));
    }
    r
}

/// Concatenates two big-endian register words; fails on any other word count.
pub fn words_to_u32(words: &[u16]) -> (r: Result<u32, Error>)
    ensures
        r == (if words@.len() == 2 {
            Ok::<u32, Error>(spec_words_to_u32(words@))
        } else {
            Err::<u32, Error>(Error::WordsCountError)
        }),
{
    if words.len() != 2 {
        return Err(Error::WordsCountError);
    }
    Ok((words[0] as u32) * 0x1_0000 + (words[1] as u32))
}

/// Splitting into words and concatenating them back is the identity.
pub proof fn lemma_u32_words_roundtrip(bits: u32)
    ensures
        spec_words_to_u32(spec_u32_to_words(bits)) == bits,
{
    lemma_fundamental_div_mod(bits as int, 0x1_0000);
}

/// Round-trip law at the codec level: for every 16-bit integer, encoding to
/// register words and decoding them back yields the integer.
pub proof fn lemma_uint_roundtrip(n: u16)
    ensures
        spec_decode_uint(spec_encode_uint(n)) == Ok::<u16, Error>(n),
{
    lemma_u32_words_roundtrip(ieee_bits(n));
    lemma_ieee_roundtrip(n);
}

/// Bit-for-bit law at the codec level: register words that decode to an
/// integer are exactly the words that integer encodes to.
pub proof fn lemma_uint_exact(words: Seq<u16>)
    requires
        spec_decode_uint(words) is Ok,
    ensures
        spec_encode_uint(spec_decode_uint(words)->Ok_0) == words,
{
    let bits = spec_words_to_u32(words);
    lemma_ieee_exact(bits);
    lemma_fundamental_div_mod_converse(bits as int, 0x1_0000, words[0] as int, words[1] as int);
    assert(spec_u32_to_words(bits) =~= words);
}

} // verus!
