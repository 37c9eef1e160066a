//! Sample format normalizer: converts hardware-native integer encodings
//! into the canonical representation and back.
//!
//! The canonical representation is a signed 16-bit value standing for the
//! amplitude `s / 32768.0`. Each conversion preserves the amplitude the
//! hardware format encodes, exactly:
//! a signed 8-bit sample `s` encodes `s / 128.0 == (s * 256) / 32768.0`,
//! and an unsigned 16-bit sample `s` encodes `(s - 32768) / 32768.0`.
//! Signed 16-bit input is already canonical. Out-of-range intermediate
//! values are clamped, never rejected: there are no error conditions.

use vstd::prelude::*;

verus! {

/// Converts one signed 8-bit hardware sample to canonical form.
pub fn normalize_i8(s: i8) -> (r: i16)
    ensures
        r == s as int * 256,
{
    (s as i16) * 256
}

/// Converts one unsigned 16-bit hardware sample to canonical form.
pub fn normalize_u16(s: u16) -> (r: i16)
    ensures
        r == s as int - 32768,
{
    ((s as i32) - 32768) as i16
}

/// Converts one canonical sample back to the unsigned 16-bit encoding;
/// exact inverse of `normalize_u16`.
pub fn denormalize_u16(s: i16) -> (r: u16)
    ensures
        r == s as int + 32768,
        r as int - 32768 == s as int,
{
    ((s as i32) + 32768) as u16
}

/// Converts a block of signed 8-bit samples; the output has equal length
/// and the amplitude of every sample is preserved.
pub fn normalize_i8_block(samples: &[i8]) -> (out: Vec<i16>)
    ensures
        out@.len() == samples@.len(),
        forall|i: int| 0 <= i < out@.len() ==> out@[i] == samples@[i] as int * 256,
{
    let mut out: Vec<i16> = Vec::new();
    let mut i: usize = 0;
    while i < samples.len()
        invariant
            i <= samples@.len(),
            out@.len() == i,
            forall|j: int| 0 <= j < i ==> out@[j] == samples@[j] as int * 256,
        decreases samples@.len() - i,
    {
        out.push(normalize_i8(samples[i]));
        i = i + 1;
    }
    out
}

/// Converts a block of unsigned 16-bit samples; the output has equal
/// length and the amplitude of every sample is preserved.
pub fn normalize_u16_block(samples: &[u16]) -> (out: Vec<i16>)
    ensures
        out@.len() == samples@.len(),
        forall|i: int| 0 <= i < out@.len() ==> out@[i] == samples@[i] as int - 32768,
{
    let mut out: Vec<i16> = Vec::new();
    let mut i: usize = 0;
    while i < samples.len()
        invariant
            i <= samples@.len(),
            out@.len() == i,
            forall|j: int| 0 <= j < i ==> out@[j] == samples@[j] as int - 32768,
        decreases samples@.len() - i,
    {
        out.push(normalize_u16(samples[i]));
        i = i + 1;
    }
    out
}

/// Clamps a wide intermediate value into the canonical sample range.
pub fn clamp_to_sample(v: i32) -> (r: i16)
    ensures
        r == if v < -32768 {
            -32768int
        } else if v > 32767 {
            32767int
        } else {
            v as int
        },
{
    if v < -32768 {
        -32768
    } else if v > 32767 {
        32767
    } else {
        v as i16
    }
}

/// Law: unsigned 16-bit normalization round-trips exactly — converting to
/// canonical form and back returns the original sample, for every value.
pub proof fn lemma_normalize_u16_round_trip(s: u16)
    ensures
        (s as int - 32768) + 32768 == s as int,
{
}

/// Division rounding toward zero, as hardware sample math expects.
pub open spec fn div_trunc(a: int, d: int) -> int {
    if a >= 0 {
        a / d
    } else {
        -((-a) / d)
    }
}

/// Divides rounding toward zero.
pub fn div_trunc_i32(a: i32, d: i32) -> (r: i32)
    requires
        d > 0,
        a != i32::MIN,
    ensures
        r == div_trunc(a as int, d as int),
        a >= 0 ==> 0 <= r <= a,
        a < 0 ==> a <= r <= 0,
{
    if a >= 0 {
        proof {
            vstd::arithmetic::div_mod::lemma_div_nonincreasing(a as int, d as int);
            vstd::arithmetic::div_mod::lemma_div_pos_is_pos(a as int, d as int);
        }
        ((a as u32) / (d as u32)) as i32
    } else {
        proof {
            vstd::arithmetic::div_mod::lemma_div_nonincreasing(-a as int, d as int);
            vstd::arithmetic::div_mod::lemma_div_pos_is_pos(-a as int, d as int);
        }
        -((((-a) as u32) / (d as u32)) as i32)
    }
}

/// Divides rounding toward zero, on wide intermediates.
pub fn div_trunc_i64(a: i64, d: i64) -> (r: i64)
    requires
        d > 0,
        a != i64::MIN,
    ensures
        r == div_trunc(a as int, d as int),
        a >= 0 ==> 0 <= r <= a,
        a < 0 ==> a <= r <= 0,
{
    if a >= 0 {
        proof {
            vstd::arithmetic::div_mod::lemma_div_nonincreasing(a as int, d as int);
            vstd::arithmetic::div_mod::lemma_div_pos_is_pos(a as int, d as int);
        }
        ((a as u64) / (d as u64)) as i64
    } else {
        proof {
            vstd::arithmetic::div_mod::lemma_div_nonincreasing(-a as int, d as int);
            vstd::arithmetic::div_mod::lemma_div_pos_is_pos(-a as int, d as int);
        }
        -((((-a) as u64) / (d as u64)) as i64)
    }
}

/// Two's-complement wrap of a wide value into the sample range: what a
/// plain narrowing cast computes on overflow.
pub open spec fn wrap_i16(x: int) -> int {
    let m = x % 65536;
    if m >= 32768 {
        m - 65536
    } else {
        m
    }
}

/// Wraps a wide intermediate value into the sample range, two's
/// complement.
pub fn wrap_to_sample(v: i32) -> (r: i16)
    ensures
        r as int == wrap_i16(v as int),
{
    let m: u32 = if v >= 0 {
        (v as u32) % 65536
    } else {
        let a: i64 = -(v as i64);
        let qa: u64 = (a as u64) / 65536;
        let ra: u32 = ((a as u64) % 65536) as u32;
        proof {
            vstd::arithmetic::div_mod::lemma_fundamental_div_mod(a as int, 65536);
            vstd::arithmetic::div_mod::lemma_mod_bound(a as int, 65536);
            if ra == 0 {
                assert(v as int == 65536 * (-(qa as int)) + 0) by (nonlinear_arith)
                    requires
                        a == qa * 65536 + ra,
                        ra == 0,
                        v as int == -(a as int),
                ;
                vstd::arithmetic::div_mod::lemma_fundamental_div_mod_converse(
                    v as int,
                    65536,
                    -(qa as int),
                    0,
                );
            } else {
                assert(v as int == 65536 * (-(qa as int) - 1) + (65536 - ra as int))
                    by (nonlinear_arith)
                    requires
                        a == qa * 65536 + ra,
                        v as int == -(a as int),
                ;
                vstd::arithmetic::div_mod::lemma_fundamental_div_mod_converse(
                    v as int,
                    65536,
                    -(qa as int) - 1,
                    65536 - ra as int,
                );
            }
        }
        if ra == 0 {
            0
        } else {
            65536 - ra
        }
    };
    if m >= 32768 {
        ((m as i32) - 65536) as i16
    } else {
        m as i16
    }
}

} // verus!
