//! Audio format conversion: channel counts, sample rates and bit depths,
//! in exact integer arithmetic.

use vstd::prelude::*;

verus! {

use crate::sample::div_trunc;
use crate::sample::div_trunc_i32;
use crate::sample::wrap_i16;
use crate::sample::wrap_to_sample;

/// Parameters for channel count conversion.
#[derive(Clone, Copy, Debug, PartialEq, Eq, Structural)]
pub struct ChannelCountConversion {
    pub source_channels: u16,
    pub target_channels: u16,
}

/// Parameters for sample rate conversion.
#[derive(Clone, Copy, Debug, PartialEq, Eq, Structural)]
pub struct SampleRateConversion {
    pub source_rate: u32,
    pub target_rate: u32,
}

/// Parameters for sample type conversion.
#[derive(Clone, Copy, Debug, PartialEq, Eq, Structural)]
pub struct SampleTypeConversion {
    pub source_bits: u8,
    pub target_bits: u8,
}

/// Division rounding toward negative infinity (what an arithmetic right
/// shift computes); on `int`, division by a positive divisor already
/// rounds this way.
fn div_floor_i32(a: i32, d: i32) -> (r: i32)
    requires
        d > 0,
        a != i32::MIN,
    ensures
        r == a as int / d as int,
{
    if a >= 0 {
        proof {
            vstd::arithmetic::div_mod::lemma_div_nonincreasing(a as int, d as int);
            vstd::arithmetic::div_mod::lemma_div_pos_is_pos(a as int, d as int);
        }
        ((a as u32) / (d as u32)) as i32
    } else {
        let m: u32 = (-a) as u32;
        let q: u32 = m / (d as u32);
        let rem: u32 = m % (d as u32);
        proof {
            vstd::arithmetic::div_mod::lemma_fundamental_div_mod(m as int, d as int);
            vstd::arithmetic::div_mod::lemma_div_nonincreasing(m as int, d as int);
            vstd::arithmetic::div_mod::lemma_div_pos_is_pos(m as int, d as int);
            vstd::arithmetic::div_mod::lemma_fundamental_div_mod(a as int, d as int);
            vstd::arithmetic::div_mod::lemma_mod_bound(m as int, d as int);
            vstd::arithmetic::div_mod::lemma_mod_bound(a as int, d as int);
        }
        if rem == 0 {
            proof {
                assert(a as int == d as int * (-(q as int))) by (nonlinear_arith)
                    requires
                        m == d * q + rem,
                        rem == 0,
                        a as int == -(m as int),
                ;
                vstd::arithmetic::div_mod::lemma_div_multiples_vanish(
                    -(q as int),
                    d as int,
                );
                assert(d as int * (-(q as int)) == (-(q as int)) * d as int)
                    by (nonlinear_arith);
            }
            -(q as i32)
        } else {
            proof {
                assert(a as int == d as int * (-(q as int) - 1) + (d - rem)) by (nonlinear_arith)
                    requires
                        m == d * q + rem,
                        a as int == -(m as int),
                        d > 0,
                ;
                assert(0 <= d - rem < d);
                vstd::arithmetic::div_mod::lemma_fundamental_div_mod_converse(
                    a as int,
                    d as int,
                    -(q as int) - 1,
                    d as int - rem as int,
                );
            }
            -(q as i32) - 1
        }
    }
}

/// Channel count converter: between mono, stereo, and multi-channel.
pub struct ChannelCountConverter {
    source_channels: u16,
    target_channels: u16,
}

/// The sum of `count` samples starting at `start`.
pub open spec fn chunk_sum(s: Seq<i16>, start: int, count: int) -> int
    decreases count,
{
    if count <= 0 {
        0
    } else {
        chunk_sum(s, start, count - 1) + s[start + count - 1]
    }
}

impl ChannelCountConverter {
    /// The source channel count.
    pub closed spec fn spec_source(&self) -> u16 {
        self.source_channels
    }

    /// The target channel count.
    pub closed spec fn spec_target(&self) -> u16 {
        self.target_channels
    }

    /// A converter between the given channel counts.
    pub fn new(source_channels: u16, target_channels: u16) -> (c: ChannelCountConverter)
        ensures
            c.spec_source() == source_channels,
            c.spec_target() == target_channels,
    {
        ChannelCountConverter { source_channels, target_channels }
    }

    /// Converts a block between channel counts. Mono to stereo
    /// duplicates each sample; stereo to mono averages each pair; other
    /// upward conversions emit `target` copies of each sample scaled down
    /// by `source`, and other downward conversions average each
    /// `source`-sized frame scaled by `target`. Division rounds toward
    /// zero throughout.
    pub fn convert(&self, samples: Vec<i16>) -> (out: Vec<i16>)
        requires
            self.spec_source() >= 1,
            self.spec_target() >= 1,
            samples@.len() * self.spec_target() <= usize::MAX,
        ensures
            self.spec_source() == self.spec_target() ==> out@ == samples@,
            self.spec_source() == 1 && self.spec_target() == 2 ==> out@.len() == 2
                * samples@.len() && forall|i: int|
                0 <= i < samples@.len() ==> out@[2 * i] == samples@[i] && out@[2 * i + 1]
                    == samples@[i],
            self.spec_source() == 2 && self.spec_target() == 1 ==> out@.len() == samples@.len()
                / 2 && forall|i: int|
                0 <= i < out@.len() ==> out@[i] == div_trunc(
                    samples@[2 * i] + samples@[2 * i + 1],
                    2,
                ),
            !(self.spec_source() == self.spec_target()) && !(self.spec_source() == 1
                && self.spec_target() == 2) && !(self.spec_source() == 2 && self.spec_target()
                == 1) && self.spec_target() > self.spec_source() ==> out@.len() == samples@.len()
                * self.spec_target() && forall|j: int|
                0 <= j < out@.len() ==> out@[j] == div_trunc(
                    samples@[j / self.spec_target() as int] as int,
                    self.spec_source() as int,
                ),
            !(self.spec_source() == self.spec_target()) && !(self.spec_source() == 1
                && self.spec_target() == 2) && !(self.spec_source() == 2 && self.spec_target()
                == 1) && self.spec_target() < self.spec_source() ==> out@.len() == samples@.len() as int
                / self.spec_source() as int && forall|i: int|
                0 <= i < out@.len() ==> out@[i] == wrap_i16(
                    div_trunc(
                        chunk_sum(
                            samples@,
                            i * self.spec_source() as int,
                            self.spec_source() as int,
                        ),
                        self.spec_target() as int,
                    ),
                ),
    {
        let src = self.source_channels;
        let dst = self.target_channels;
        if src == dst {
            return samples;
        }
        let n = samples.len();
        let mut out: Vec<i16> = Vec::new();
        if src == 1 && dst == 2 {
            let mut i: usize = 0;
            while i < n
                invariant
                    i <= n,
                    n == samples@.len(),
                    out@.len() == 2 * i,
                    forall|j: int|
                        0 <= j < i ==> out@[2 * j] == samples@[j] && out@[2 * j + 1]
                            == samples@[j],
                    2 * n <= usize::MAX,
                decreases n - i,
            {
                let s = samples[i];
                out.push(s);
                out.push(s);
                i = i + 1;
            }
            out
        } else if src == 2 && dst == 1 {
            let half = n / 2;
            proof {
                vstd::arithmetic::div_mod::lemma_fundamental_div_mod(n as int, 2);
                vstd::arithmetic::div_mod::lemma_mod_bound(n as int, 2);
            }
            let mut i: usize = 0;
            while i < half
                invariant
                    n == samples@.len(),
                    half == n as int / 2,
                    2 * half <= n,
                    i <= half,
                    out@.len() == i,
                    forall|j: int|
                        0 <= j < i ==> out@[j] == div_trunc(
                            samples@[2 * j] + samples@[2 * j + 1],
                            2,
                        ),
                decreases half - i,
            {
                let sum: i32 = samples[2 * i] as i32 + samples[2 * i + 1] as i32;
                let avg = div_trunc_i32(sum, 2);
                proof {
                    if sum >= 0 {
                        vstd::arithmetic::div_mod::lemma_div_is_ordered(sum as int, 65534, 2);
                    } else {
                        vstd::arithmetic::div_mod::lemma_div_is_ordered(-(sum as int), 65536, 2);
                    }
                }
                out.push(avg as i16);
                i = i + 1;
            }
            out
        } else if dst > src {
            let mut i: usize = 0;
            while i < n
                invariant
                    i <= n,
                    n == samples@.len(),
                    src >= 1,
                    dst >= 1,
                    n * dst <= usize::MAX,
                    out@.len() == i * dst,
                    forall|j: int|
                        0 <= j < out@.len() ==> out@[j] == div_trunc(
                            samples@[j / dst as int] as int,
                            src as int,
                        ),
                decreases n - i,
            {
                let scaled = div_trunc_i32(samples[i] as i32, src as i32) as i16;
                let mut k: usize = 0;
                proof {
                    assert((i + 1) * dst <= n * dst) by (nonlinear_arith)
                        requires
                            i + 1 <= n,
                            dst >= 1,
                    ;
                    assert((i + 1) * dst == i * dst + dst) by (nonlinear_arith);
                }
                while k < dst as usize
                    invariant
                        k <= dst,
                        src >= 1,
                        dst >= 1,
                        i < n,
                        n == samples@.len(),
                        i * dst + dst <= usize::MAX,
                        out@.len() == i * dst + k,
                        scaled == div_trunc(samples@[i as int] as int, src as int),
                        forall|j: int|
                            0 <= j < out@.len() ==> out@[j] == div_trunc(
                                samples@[j / dst as int] as int,
                                src as int,
                            ),
                    decreases dst - k,
                {
                    proof {
                        vstd::arithmetic::div_mod::lemma_div_multiples_vanish_fancy(
                            i as int,
                            k as int,
                            dst as int,
                        );
                        assert(dst as int * i as int == i as int * dst as int)
                            by (nonlinear_arith);
                        assert((i * dst + k) as int / dst as int == i as int);
                    }
                    out.push(scaled);
                    k = k + 1;
                }
                i = i + 1;
            }
            out
        } else {
            let frames = n / src as usize;
            let mut i: usize = 0;
            proof {
                vstd::arithmetic::div_mod::lemma_fundamental_div_mod(n as int, src as int);
                vstd::arithmetic::div_mod::lemma_mod_bound(n as int, src as int);
                vstd::arithmetic::div_mod::lemma_div_pos_is_pos(n as int, src as int);
                assert(src as int * (frames as int) <= n as int);
                assert(frames as int * src as int == src as int * (frames as int))
                    by (nonlinear_arith);
            }
            while i < frames
                invariant
                    i <= frames,
                    n == samples@.len(),
                    src >= 1,
                    dst >= 1,
                    dst < src,
                    frames == n as int / src as int,
                    frames * src <= n,
                    out@.len() == i,
                    forall|t: int|
                        0 <= t < i ==> out@[t] == wrap_i16(
                            div_trunc(
                                chunk_sum(samples@, t * src as int, src as int),
                                dst as int,
                            ),
                        ),
                decreases frames - i,
            {
                proof {
                    assert((i + 1) * src <= frames * src) by (nonlinear_arith)
                        requires
                            i + 1 <= frames,
                            src >= 1,
                    ;
                    assert((i + 1) * src == i * src + src) by (nonlinear_arith);
                }
                let base = i * src as usize;
                let mut sum: i32 = 0;
                let mut k: usize = 0;
                while k < src as usize
                    invariant
                        k <= src,
                        base == i * src as int,
                        base + src <= n,
                        n == samples@.len(),
                        sum == chunk_sum(samples@, base as int, k as int),
                        -32768 * (k as int) <= sum as int <= 32767 * (k as int),
                        src <= 65535,
                    decreases src - k,
                {
                    sum = sum + samples[base + k] as i32;
                    k = k + 1;
                }
                out.push(wrap_to_sample(div_trunc_i32(sum, dst as i32)));
                i = i + 1;
            }
            out
        }
    }

    /// The source channel count.
    pub fn source_channels(&self) -> (r: u16)
        ensures
            r == self.spec_source(),
    {
        self.source_channels
    }

    /// The target channel count.
    pub fn target_channels(&self) -> (r: u16)
        ensures
            r == self.spec_target(),
    {
        self.target_channels
    }
}

/// A value clamped into signed 24-bit range.
pub open spec fn clamp_depth24(s: int) -> int {
    if s < -8388608 {
        -8388608
    } else if s > 8388607 {
        8388607
    } else {
        s
    }
}

/// One sample converted between bit depths. Right shifts of the original
/// appear as floor divisions, truncating quantizations as
/// truncating divisions; unknown depth pairs pass through unchanged.
pub open spec fn spec_depth_sample(s: int, source_bits: u8, target_bits: u8) -> int {
    if source_bits == 24 && target_bits == 16 {
        clamp_depth24(s) / 256
    } else if source_bits == 32 && target_bits == 16 {
        div_trunc(s * 32767, 0x8000_0000)
    } else if source_bits == 8 && target_bits == 16 {
        (s - 128) * 256
    } else if source_bits == 16 && target_bits == 8 {
        div_trunc(s, 256) + 128
    } else if source_bits == 16 && target_bits == 24 {
        s * 256
    } else if source_bits == 16 && target_bits == 32 {
        s * 65536
    } else if source_bits == 24 && target_bits == 32 {
        s * 256
    } else if source_bits == 32 && target_bits == 24 {
        s / 256
    } else if source_bits == 8 && target_bits == 24 {
        (s - 128) * 65536
    } else if source_bits == 24 && target_bits == 8 {
        s / 65536 + 128
    } else if source_bits == 32 && target_bits == 8 {
        s / 0x100_0000 + 128
    } else {
        s
    }
}

/// The value range a sample of the given source depth may use; inputs
/// outside it would overflow the widening conversions, as they would
/// have in unchecked arithmetic.
pub open spec fn spec_in_depth_range(s: int, source_bits: u8) -> bool {
    if source_bits == 8 {
        0 <= s <= 255
    } else if source_bits == 16 {
        -32768 <= s <= 32767
    } else if source_bits == 24 {
        -8388608 <= s <= 8388607
    } else {
        -0x8000_0000 <= s <= 0x7FFF_FFFF
    }
}

/// Converts one sample between bit depths.
fn depth_sample(s: i32, sb: u8, tb: u8) -> (r: i32)
    requires
        spec_in_depth_range(s as int, sb),
    ensures
        r == spec_depth_sample(s as int, sb, tb),
{
    if sb == 24 && tb == 16 {
        let c: i32 = if s < -8388608 {
            -8388608
        } else if s > 8388607 {
            8388607
        } else {
            s
        };
        div_floor_i32(c, 256)
    } else if sb == 32 && tb == 16 {
        if s >= 0 {
            let wide: u64 = (s as u64) * 32767;
            proof {
                vstd::arithmetic::mul::lemma_mul_upper_bound(
                    s as int,
                    0x8000_0000,
                    32767,
                    32767,
                );
                vstd::arithmetic::div_mod::lemma_div_is_ordered(
                    wide as int,
                    0x8000_0000int * 32767,
                    0x8000_0000,
                );
                vstd::arithmetic::div_mod::lemma_div_by_multiple(32767, 0x8000_0000);
                vstd::arithmetic::div_mod::lemma_div_pos_is_pos(wide as int, 0x8000_0000);
                assert(0x8000_0000int * 32767 == 32767 * 0x8000_0000int) by (nonlinear_arith);
            }
            (wide / 0x8000_0000u64) as i32
        } else {
            let mag: u64 = (-(s as i64)) as u64;
            let wide: u64 = mag * 32767;
            proof {
                vstd::arithmetic::mul::lemma_mul_upper_bound(
                    mag as int,
                    0x8000_0000,
                    32767,
                    32767,
                );
                vstd::arithmetic::div_mod::lemma_div_is_ordered(
                    wide as int,
                    0x8000_0000int * 32767,
                    0x8000_0000,
                );
                vstd::arithmetic::div_mod::lemma_div_by_multiple(32767, 0x8000_0000);
                vstd::arithmetic::div_mod::lemma_div_pos_is_pos(wide as int, 0x8000_0000);
                assert(0x8000_0000int * 32767 == 32767 * 0x8000_0000int) by (nonlinear_arith);
                assert(mag as int * 32767 == -(s as int * 32767)) by (nonlinear_arith)
                    requires
                        mag as int == -(s as int),
                ;
            }
            -((wide / 0x8000_0000u64) as i32)
        }
    } else if sb == 8 && tb == 16 {
        (s - 128) * 256
    } else if sb == 16 && tb == 8 {
        div_trunc_i32(s, 256) + 128
    } else if sb == 16 && tb == 24 {
        s * 256
    } else if sb == 16 && tb == 32 {
        s * 65536
    } else if sb == 24 && tb == 32 {
        s * 256
    } else if sb == 32 && tb == 24 {
        if s == i32::MIN {
            proof {
                assert((-0x8000_0000int) / 256 == -8388608int);
            }
            -8388608
        } else {
            div_floor_i32(s, 256)
        }
    } else if sb == 8 && tb == 24 {
        (s - 128) * 65536
    } else if sb == 24 && tb == 8 {
        div_floor_i32(s, 65536) + 128
    } else if sb == 32 && tb == 8 {
        if s == i32::MIN {
            proof {
                assert((-0x8000_0000int) / 0x100_0000int == -128int);
            }
            0
        } else {
            div_floor_i32(s, 0x100_0000) + 128
        }
    } else {
        s
    }
}

/// Sample type converter: between bit depths (8, 16, 24, 32 bit).
pub struct SampleTypeConverter {
    source_bits: u8,
    target_bits: u8,
}

impl SampleTypeConverter {
    /// The source bit depth.
    pub closed spec fn spec_source_bits(&self) -> u8 {
        self.source_bits
    }

    /// The target bit depth.
    pub closed spec fn spec_target_bits(&self) -> u8 {
        self.target_bits
    }

    /// A converter between the given bit depths.
    pub fn new(source_bits: u8, target_bits: u8) -> (c: SampleTypeConverter)
        ensures
            c.spec_source_bits() == source_bits,
            c.spec_target_bits() == target_bits,
    {
        SampleTypeConverter { source_bits, target_bits }
    }

    /// Converts each sample between bit depths, per `spec_depth_sample`.
    pub fn convert(&self, samples: Vec<i32>) -> (out: Vec<i32>)
        requires
            forall|i: int|
                0 <= i < samples@.len() ==> spec_in_depth_range(
                    #[trigger] samples@[i] as int,
                    self.spec_source_bits(),
                ),
        ensures
            out@.len() == samples@.len(),
            forall|i: int|
                0 <= i < out@.len() ==> out@[i] == spec_depth_sample(
                    samples@[i] as int,
                    self.spec_source_bits(),
                    self.spec_target_bits(),
                ),
    {
        let mut out: Vec<i32> = Vec::new();
        let mut i: usize = 0;
        while i < samples.len()
            invariant
                i <= samples@.len(),
                out@.len() == i,
                forall|j: int|
                    0 <= j < samples@.len() ==> spec_in_depth_range(
                        #[trigger] samples@[j] as int,
                        self.spec_source_bits(),
                    ),
                forall|j: int|
                    0 <= j < i ==> out@[j] == spec_depth_sample(
                        samples@[j] as int,
                        self.spec_source_bits(),
                        self.spec_target_bits(),
                    ),
            decreases samples@.len() - i,
        {
            out.push(depth_sample(samples[i], self.source_bits, self.target_bits));
            i = i + 1;
        }
        out
    }

    /// The source bit depth.
    pub fn source_bits(&self) -> (r: u8)
        ensures
            r == self.spec_source_bits(),
    {
        self.source_bits
    }

    /// The target bit depth.
    pub fn target_bits(&self) -> (r: u8)
        ensures
            r == self.spec_target_bits(),
    {
        self.target_bits
    }
}

/// What linear interpolation yields between `s1` and `s2` at fraction
/// `rem / t`, rounding the scaled difference toward zero.
pub open spec fn spec_interp(s1: int, s2: int, rem: int, t: int) -> int {
    s1 + div_trunc((s2 - s1) * rem, t)
}

/// Sample rate converter: between sample rates (such as 44100 to 48000),
/// by linear interpolation upward and decimation downward.
pub struct SampleRateConverter {
    source_rate: u32,
    target_rate: u32,
}

impl SampleRateConverter {
    /// The source rate.
    pub closed spec fn spec_source_rate(&self) -> u32 {
        self.source_rate
    }

    /// The target rate.
    pub closed spec fn spec_target_rate(&self) -> u32 {
        self.target_rate
    }

    /// A converter between the given rates.
    pub fn new(source_rate: u32, target_rate: u32) -> (c: SampleRateConverter)
        ensures
            c.spec_source_rate() == source_rate,
            c.spec_target_rate() == target_rate,
    {
        SampleRateConverter { source_rate, target_rate }
    }

    /// Converts a block between rates. Upward, each output sample is the
    /// linear interpolation of its two rational neighbours (the last
    /// output samples past the final input pair repeat it); downward,
    /// every `source/target`-th sample is kept. Equal rates pass the
    /// block through unchanged.
    pub fn convert(&self, samples: Vec<i16>) -> (out: Vec<i16>)
        requires
            self.spec_source_rate() >= 1,
            self.spec_target_rate() >= 1,
            samples@.len() * self.spec_target_rate() / self.spec_source_rate() as int
                <= usize::MAX,
        ensures
            self.spec_source_rate() == self.spec_target_rate() ==> out@ == samples@,
            self.spec_target_rate() > self.spec_source_rate() ==> {
                let s = self.spec_source_rate() as int;
                let t = self.spec_target_rate() as int;
                &&& out@.len() == samples@.len() * t / s
                &&& forall|i: int|
                    0 <= i < out@.len() ==> #[trigger] out@[i] == {
                        let idx = i * s / t;
                        let rem = (i * s) % t;
                        if idx + 1 < samples@.len() {
                            spec_interp(
                                samples@[idx] as int,
                                samples@[idx + 1] as int,
                                rem,
                                t,
                            )
                        } else {
                            samples@[idx] as int
                        }
                    }
            },
            self.spec_target_rate() < self.spec_source_rate() ==> {
                let s = self.spec_source_rate() as int;
                let t = self.spec_target_rate() as int;
                let stride = s / t;
                &&& out@.len() == samples@.len() * t / s
                &&& forall|i: int|
                    0 <= i < out@.len() ==> i * stride < samples@.len()
                        && #[trigger] out@[i] == samples@[i * stride]
            },
    {
        let s32 = self.source_rate;
        let t32 = self.target_rate;
        if s32 == t32 {
            return samples;
        }
        let n = samples.len();
        let ghost s = s32 as int;
        let ghost t = t32 as int;
        proof {
            vstd::arithmetic::mul::lemma_mul_upper_bound(
                n as int,
                0xFFFF_FFFF_FFFF_FFFF,
                t as int,
                0xFFFF_FFFF,
            );
        }
        let scaled: u128 = (n as u128) * (t32 as u128);
        let out_len_wide: u128 = scaled / (s32 as u128);
        proof {
            vstd::arithmetic::div_mod::lemma_div_pos_is_pos(scaled as int, s);
        }
        let out_len: usize = out_len_wide as usize;
        let mut out: Vec<i16> = Vec::new();
        if t32 > s32 {
            proof {
                lemma_rate_index_bound(n as int, s, t);
            }
            let mut i: usize = 0;
            while i < out_len
                invariant
                    i <= out_len,
                    n == samples@.len(),
                    s32 >= 1,
                    t32 >= 1,
                    s == s32 as int,
                    t == t32 as int,
                    out_len == n as int * t / s,
                    out@.len() == i,
                    forall|j: int| 0 <= j < out_len ==> #[trigger] (j * s) / t < n,
                    forall|j: int|
                        0 <= j < i ==> #[trigger] out@[j] == {
                            let idx = j * s / t;
                            let rem = (j * s) % t;
                            if idx + 1 < samples@.len() {
                                spec_interp(
                                    samples@[idx] as int,
                                    samples@[idx + 1] as int,
                                    rem,
                                    t,
                                )
                            } else {
                                samples@[idx] as int
                            }
                        },
                decreases out_len - i,
            {
                proof {
                    vstd::arithmetic::mul::lemma_mul_upper_bound(
                        i as int,
                        0xFFFF_FFFF_FFFF_FFFF,
                        s as int,
                        0xFFFF_FFFF,
                    );
                }
                let pos_num: u128 = (i as u128) * (s32 as u128);
                let idx_wide: u128 = pos_num / (t32 as u128);
                let rem_wide: u128 = pos_num % (t32 as u128);
                proof {
                    assert((i as int) * s == pos_num as int);
                    assert(idx_wide as int == (i as int * s) / t);
                    assert(idx_wide < n);
                    vstd::arithmetic::div_mod::lemma_mod_bound(pos_num as int, t);
                }
                let idx: usize = idx_wide as usize;
                let rem: u32 = rem_wide as u32;
                let s1 = samples[idx];
                if idx + 1 < n {
                    let s2 = samples[idx + 1];
                    let v = interp_sample(s1, s2, rem, t32);
                    out.push(v);
                } else {
                    out.push(s1);
                }
                i = i + 1;
            }
            out
        } else {
            let stride32: u32 = s32 / t32;
            let ghost stride = s / t;
            proof {
                lemma_rate_stride_bound(n as int, s, t);
                vstd::arithmetic::div_mod::lemma_div_pos_is_pos(s, t);
            }
            let mut i: usize = 0;
            while i < out_len
                invariant
                    i <= out_len,
                    n == samples@.len(),
                    s32 >= 1,
                    t32 >= 1,
                    t32 < s32,
                    s == s32 as int,
                    t == t32 as int,
                    stride == s / t,
                    stride32 as int == stride,
                    out_len == n as int * t / s,
                    out@.len() == i,
                    forall|j: int| 0 <= j < out_len ==> #[trigger] (j * stride) < n,
                    forall|j: int|
                        0 <= j < i ==> #[trigger] out@[j] == samples@[j * stride],
                decreases out_len - i,
            {
                proof {
                    vstd::arithmetic::mul::lemma_mul_upper_bound(
                        i as int,
                        0xFFFF_FFFF_FFFF_FFFF,
                        stride as int,
                        0xFFFF_FFFF,
                    );
                }
                let idx_wide: u128 = (i as u128) * (stride32 as u128);
                proof {
                    assert(idx_wide as int == i as int * stride);
                    assert(idx_wide < n);
                }
                let idx: usize = idx_wide as usize;
                out.push(samples[idx]);
                i = i + 1;
            }
            out
        }
    }

    /// The source rate.
    pub fn source_rate(&self) -> (r: u32)
        ensures
            r == self.spec_source_rate(),
    {
        self.source_rate
    }

    /// The target rate.
    pub fn target_rate(&self) -> (r: u32)
        ensures
            r == self.spec_target_rate(),
    {
        self.target_rate
    }
}

/// Interpolates toward `s2` from `s1` by `rem / t`; the result stays
/// between the two samples.
fn interp_sample(s1: i16, s2: i16, rem: u32, t: u32) -> (r: i16)
    requires
        t >= 1,
        rem < t,
    ensures
        r == spec_interp(s1 as int, s2 as int, rem as int, t as int),
{
    let diff: i64 = s2 as i64 - s1 as i64;
    if diff >= 0 {
        proof {
            vstd::arithmetic::mul::lemma_mul_upper_bound(
                diff as int,
                65535,
                rem as int,
                0xFFFF_FFFF,
            );
        }
        let prod: u64 = (diff as u64) * (rem as u64);
        proof {
            vstd::arithmetic::mul::lemma_mul_inequality(rem as int, t as int, diff as int);
            assert(rem as int * diff as int == diff as int * rem as int) by (nonlinear_arith);
            assert(t as int * diff as int == diff as int * t as int) by (nonlinear_arith);
            vstd::arithmetic::div_mod::lemma_div_is_ordered(
                prod as int,
                diff as int * t as int,
                t as int,
            );
            vstd::arithmetic::div_mod::lemma_div_by_multiple(diff as int, t as int);
            vstd::arithmetic::div_mod::lemma_div_pos_is_pos(prod as int, t as int);
        }
        let delta: u64 = prod / (t as u64);
        (s1 as i64 + delta as i64) as i16
    } else {
        let mag: u64 = (-diff) as u64;
        proof {
            vstd::arithmetic::mul::lemma_mul_upper_bound(
                mag as int,
                65535,
                rem as int,
                0xFFFF_FFFF,
            );
        }
        let prod: u64 = mag * (rem as u64);
        proof {
            vstd::arithmetic::mul::lemma_mul_inequality(rem as int, t as int, mag as int);
            assert(rem as int * mag as int == mag as int * rem as int) by (nonlinear_arith);
            assert(t as int * mag as int == mag as int * t as int) by (nonlinear_arith);
            vstd::arithmetic::div_mod::lemma_div_is_ordered(
                prod as int,
                mag as int * t as int,
                t as int,
            );
            vstd::arithmetic::div_mod::lemma_div_by_multiple(mag as int, t as int);
            vstd::arithmetic::div_mod::lemma_div_pos_is_pos(prod as int, t as int);
            assert(mag as int * rem as int == -(diff as int * rem as int)) by (nonlinear_arith)
                requires
                    mag as int == -(diff as int),
            ;
        }
        let delta: u64 = prod / (t as u64);
        (s1 as i64 - delta as i64) as i16
    }
}

/// Every upsampled output index maps to an input index strictly inside
/// the block: `j < n*t/s` gives `j*s/t < n`.
proof fn lemma_rate_index_bound(n: int, s: int, t: int)
    requires
        s >= 1,
        t >= 1,
        n >= 0,
    ensures
        forall|j: int| 0 <= j < n * t / s ==> #[trigger] (j * s) / t < n,
{
    assert forall|j: int| 0 <= j < n * t / s implies #[trigger] (j * s) / t < n by {
        if n == 0 {
            assert(0int * t == 0) by (nonlinear_arith);
            vstd::arithmetic::div_mod::lemma_div_pos_is_pos(j * s, t);
        } else {
            vstd::arithmetic::div_mod::lemma_fundamental_div_mod(n * t, s);
            vstd::arithmetic::div_mod::lemma_mod_bound(n * t, s);
            assert(j <= n * t / s - 1);
            assert(j * s <= (n * t / s - 1) * s) by (nonlinear_arith)
                requires
                    j <= n * t / s - 1,
                    s >= 1,
            ;
            assert((n * t / s - 1) * s == (n * t / s) * s - s) by (nonlinear_arith);
            assert((n * t / s) * s <= n * t) by (nonlinear_arith)
                requires
                    n * t == s * (n * t / s) + (n * t) % s,
                    (n * t) % s >= 0,
            ;
            assert(j * s <= n * t - 1);
            assert(n * t - 1 == t * (n - 1) + (t - 1)) by (nonlinear_arith);
            vstd::arithmetic::div_mod::lemma_fundamental_div_mod_converse(
                n * t - 1,
                t,
                n - 1,
                t - 1,
            );
            vstd::arithmetic::div_mod::lemma_div_is_ordered(j * s, n * t - 1, t);
        }
    }
}

/// Every decimated output index maps to an input index strictly inside
/// the block: `j < n*t/s` gives `j*(s/t) < n`, when `t < s`.
proof fn lemma_rate_stride_bound(n: int, s: int, t: int)
    requires
        1 <= t < s,
        n >= 0,
    ensures
        forall|j: int| 0 <= j < n * t / s ==> #[trigger] (j * (s / t)) < n,
{
    let a = n * t / s;
    let b = s / t;
    vstd::arithmetic::div_mod::lemma_fundamental_div_mod(n * t, s);
    vstd::arithmetic::div_mod::lemma_mod_bound(n * t, s);
    vstd::arithmetic::div_mod::lemma_fundamental_div_mod(s, t);
    vstd::arithmetic::div_mod::lemma_mod_bound(s, t);
    vstd::arithmetic::div_mod::lemma_div_pos_is_pos(n * t, s);
    vstd::arithmetic::div_mod::lemma_div_pos_is_pos(s, t);
    assert(a * s <= n * t) by (nonlinear_arith)
        requires
            n * t == s * a + (n * t) % s,
            (n * t) % s >= 0,
    ;
    assert(b * t <= s) by (nonlinear_arith)
        requires
            s == t * b + s % t,
            s % t >= 0,
    ;
    assert(a * b * t <= a * s) by (nonlinear_arith)
        requires
            b * t <= s,
            a >= 0,
    ;
    assert(a * b * t <= n * t);
    assert(a * b <= n) by (nonlinear_arith)
        requires
            a * b * t <= n * t,
            t >= 1,
    ;
    assert forall|j: int| 0 <= j < a implies #[trigger] (j * b) < n by {
        assert(j * b <= (a - 1) * b) by (nonlinear_arith)
            requires
                j <= a - 1,
                b >= 0,
        ;
        assert((a - 1) * b == a * b - b) by (nonlinear_arith);
        assert(b >= 1) by (nonlinear_arith)
            requires
                s == t * b + s % t,
                0 <= s % t < t,
                t < s,
        ;
    }
}

} // verus!
