//! Noise generation: various colors of noise for synthesis and testing.
//!
//! Each generator draws raw randomness from `rand` and shapes it with
//! exact fixed-point filters on the canonical sample scale. Randomness
//! means nothing can be promised about the values themselves; what is
//! verified is that every generator fills exactly the block its duration,
//! rate and channel count call for, without panicking, whatever the
//! random source returns.

use vstd::prelude::*;

verus! {

use crate::sample::clamp_to_sample;
use crate::sample::div_trunc_i32;
use crate::sample::div_trunc_i64;
use crate::sources::generated_len;
use crate::sources::spec_generated_len;

/// Relies on rand's `random`: one value drawn from the standard
/// distribution; nothing can be promised about which one.
pub assume_specification<T>[ rand::random::<T> ]() -> (r: T)
    where
        rand::distributions::Standard: rand::distributions::Distribution<T>,
;

/// One uniformly random canonical sample.
fn random_sample() -> i16 {
    rand::random::<i16>()
}

/// A finished block of noise samples with a read cursor over it.
struct NoiseCursor {
    samples: Vec<i16>,
    position: usize,
}

impl NoiseCursor {
    spec fn spec_samples(&self) -> Seq<i16> {
        self.samples@
    }

    spec fn spec_position(&self) -> int {
        self.position as int
    }

    fn from_samples(samples: Vec<i16>) -> (c: NoiseCursor)
        ensures
            c.spec_samples() == samples@,
            c.spec_position() == 0,
    {
        NoiseCursor { samples, position: 0 }
    }

    fn snapshot(&self) -> (out: Vec<i16>)
        ensures
            out@ == self.spec_samples(),
    {
        let out = self.samples.clone();
        proof {
            assert(out@ =~= self.samples@);
        }
        out
    }

    fn next_sample(&mut self) -> (r: Option<i16>)
        ensures
            old(self).spec_position() < old(self).spec_samples().len() ==> r == Some(
                old(self).spec_samples()[old(self).spec_position()],
            ) && final(self).spec_position() == old(self).spec_position() + 1,
            old(self).spec_position() >= old(self).spec_samples().len() ==> r is None && final(self).spec_position() == old(self).spec_position(),
            final(self).spec_samples() == old(self).spec_samples(),
    {
        if self.position >= self.samples.len() {
            return None;
        }
        let s = self.samples[self.position];
        self.position = self.position + 1;
        Some(s)
    }

    fn rewind(&mut self)
        ensures
            final(self).spec_position() == 0,
            final(self).spec_samples() == old(self).spec_samples(),
    {
        self.position = 0;
    }
}

/// Generates white noise: each sample drawn uniformly.
fn generate_white_uniform(total: usize) -> (out: Vec<i16>)
    ensures
        out@.len() == total,
{
    let mut out: Vec<i16> = Vec::new();
    let mut i: usize = 0;
    while i < total
        invariant
            i <= total,
            out@.len() == i,
        decreases total - i,
    {
        out.push(random_sample());
        i = i + 1;
    }
    out
}

/// Generates triangular white noise: the mean of two uniform draws.
fn generate_white_triangular(total: usize) -> (out: Vec<i16>)
    ensures
        out@.len() == total,
{
    let mut out: Vec<i16> = Vec::new();
    let mut i: usize = 0;
    while i < total
        invariant
            i <= total,
            out@.len() == i,
        decreases total - i,
    {
        let a = random_sample();
        let b = random_sample();
        let sum: i32 = a as i32 + b as i32;
        out.push(clamp_to_sample(div_trunc_i32(sum, 2)));
        i = i + 1;
    }
    out
}

/// Generates approximately Gaussian white noise: twelve uniform draws
/// summed (the classic central-limit construction), halved to unit
/// variance on the canonical scale, then scaled by `std_dev_milli`
/// thousandths and clamped.
fn generate_white_gaussian(total: usize, std_dev_milli: u32) -> (out: Vec<i16>)
    ensures
        out@.len() == total,
{
    let mut out: Vec<i16> = Vec::new();
    let mut i: usize = 0;
    while i < total
        invariant
            i <= total,
            out@.len() == i,
        decreases total - i,
    {
        let mut acc: i32 = 0;
        let mut k: usize = 0;
        while k < 12
            invariant
                k <= 12,
                -32768 * (k as int) <= acc as int <= 32767 * (k as int),
            decreases 12 - k,
        {
            acc = acc + random_sample() as i32;
            k = k + 1;
        }
        let base: i32 = div_trunc_i32(acc, 2);
        let mag: u64 = if base >= 0 {
            base as u64
        } else {
            (-base) as u64
        };
        proof {
            vstd::arithmetic::mul::lemma_mul_upper_bound(
                mag as int,
                0x3_0000,
                std_dev_milli as int,
                0xFFFF_FFFF,
            );
        }
        let scaled: u64 = mag * (std_dev_milli as u64);
        let val: u64 = scaled / 1000;
        let m: i32 = if val > 32767 {
            32767
        } else {
            val as i32
        };
        let s: i16 = if base >= 0 {
            m as i16
        } else {
            (-m) as i16
        };
        out.push(s);
        i = i + 1;
    }
    out
}

/// Generates blue noise: the first difference of uniform noise, which
/// emphasizes high frequencies.
fn generate_blue(total: usize) -> (out: Vec<i16>)
    ensures
        out@.len() == total,
{
    let mut out: Vec<i16> = Vec::new();
    let mut prev: i16 = 0;
    let mut i: usize = 0;
    while i < total
        invariant
            i <= total,
            out@.len() == i,
        decreases total - i,
    {
        let input = random_sample();
        let diff: i32 = input as i32 - prev as i32;
        prev = input;
        out.push(clamp_to_sample(div_trunc_i32(diff, 2)));
        i = i + 1;
    }
    out
}

/// Generates violet noise: the second difference of uniform noise, which
/// emphasizes the highest frequencies.
fn generate_violet(total: usize) -> (out: Vec<i16>)
    ensures
        out@.len() == total,
{
    let mut out: Vec<i16> = Vec::new();
    let mut prev: i32 = 0;
    let mut prev_diff: i32 = 0;
    let mut i: usize = 0;
    while i < total
        invariant
            i <= total,
            out@.len() == i,
            -32768 <= prev <= 32767,
            -65535 <= prev_diff <= 65535,
        decreases total - i,
    {
        let input = random_sample() as i32;
        let diff1: i32 = input - prev;
        let diff2: i32 = diff1 - prev_diff;
        prev = input;
        prev_diff = diff1;
        out.push(clamp_to_sample(div_trunc_i32(diff2, 2)));
        i = i + 1;
    }
    out
}

/// Generates brownian noise: a clamped random walk, which emphasizes low
/// frequencies.
fn generate_brownian(total: usize) -> (out: Vec<i16>)
    ensures
        out@.len() == total,
{
    let mut out: Vec<i16> = Vec::new();
    let mut state: i32 = 0;
    let mut i: usize = 0;
    while i < total
        invariant
            i <= total,
            out@.len() == i,
            -32767 <= state <= 32767,
        decreases total - i,
    {
        let delta = div_trunc_i32(random_sample() as i32, 10);
        let moved: i32 = state + delta;
        state = if moved < -32767 {
            -32767
        } else if moved > 32767 {
            32767
        } else {
            moved
        };
        out.push(state as i16);
        i = i + 1;
    }
    out
}

/// State bound for the pink-noise filter taps, generous enough that the
/// filter never reaches it in practice.
const PINK_CAP: i64 = 0x4000_0000;

/// Generates pink noise through a fixed-point one-over-f filter bank:
/// six leaky integrators with 16-bit fractional coefficients, summed with
/// a direct term, halved and clamped.
fn generate_pink(total: usize) -> (out: Vec<i16>)
    ensures
        out@.len() == total,
{
    let mut out: Vec<i16> = Vec::new();
    let mut b0: i64 = 0;
    let mut b1: i64 = 0;
    let mut b2: i64 = 0;
    let mut b3: i64 = 0;
    let mut b4: i64 = 0;
    let mut b5: i64 = 0;
    let mut b6: i64 = 0;
    let mut i: usize = 0;
    while i < total
        invariant
            i <= total,
            out@.len() == i,
            -PINK_CAP <= b0 <= PINK_CAP,
            -PINK_CAP <= b1 <= PINK_CAP,
            -PINK_CAP <= b2 <= PINK_CAP,
            -PINK_CAP <= b3 <= PINK_CAP,
            -PINK_CAP <= b4 <= PINK_CAP,
            -PINK_CAP <= b5 <= PINK_CAP,
            -PINK_CAP <= b6 <= PINK_CAP,
        decreases total - i,
    {
        let w: i64 = random_sample() as i64;
        b0 = cap_state(div_trunc_i64(65461 * b0 + 3639 * w, 65536));
        b1 = cap_state(div_trunc_i64(65098 * b1 + 4920 * w, 65536));
        b2 = cap_state(div_trunc_i64(63504 * b2 + 10083 * w, 65536));
        b3 = cap_state(div_trunc_i64(56787 * b3 + 20348 * w, 65536));
        b4 = cap_state(div_trunc_i64(36045 * b4 + 34928 * w, 65536));
        let feedback5: i64 = 49912 * b5 + 1107 * w;
        b5 = cap_state(div_trunc_i64(-feedback5, 65536));
        let direct = div_trunc_i64(35141 * w, 65536);
        let pink: i64 = b0 + b1 + b2 + b3 + b4 + b5 + b6 + direct;
        b6 = cap_state(div_trunc_i64(7597 * w, 65536));
        let halved = div_trunc_i64(pink, 2);
        let narrowed: i32 = if halved > 0x7FFF_FFFFi64 {
            0x7FFF_FFFFi32
        } else if halved < -0x8000_0000i64 {
            -0x8000_0000i32
        } else {
            halved as i32
        };
        out.push(clamp_to_sample(narrowed));
        i = i + 1;
    }
    out
}

/// Clamps a pink-filter tap into its state bound.
fn cap_state(v: i64) -> (r: i64)
    ensures
        -PINK_CAP <= r <= PINK_CAP,
{
    if v < -PINK_CAP {
        -PINK_CAP
    } else if v > PINK_CAP {
        PINK_CAP
    } else {
        v
    }
}

/// Generates velvet noise: sparse random impulses (about one sample in
/// twenty), silence elsewhere.
fn generate_velvet(total: usize) -> (out: Vec<i16>)
    ensures
        out@.len() == total,
{
    let mut out: Vec<i16> = Vec::new();
    let mut i: usize = 0;
    while i < total
        invariant
            i <= total,
            out@.len() == i,
        decreases total - i,
    {
        let gate = rand::random::<u32>();
        let s: i16 = if gate % 20 == 0 {
            random_sample()
        } else {
            0
        };
        out.push(s);
        i = i + 1;
    }
    out
}


/// Blue noise generator: high frequency emphasis.
pub struct BlueNoise {
    cursor: NoiseCursor,
}

impl BlueNoise {
    /// The generated samples.
    pub closed spec fn spec_samples(&self) -> Seq<i16> {
        self.cursor.spec_samples()
    }

    /// The read position of `get_next`.
    pub closed spec fn spec_position(&self) -> int {
        self.cursor.spec_position()
    }

    /// Generates the whole block for the given duration, rate and
    /// channel count, with the cursor at the start.
    pub fn new(duration_ms: u32, sample_rate: u32, channels: u16) -> (n: BlueNoise)
        requires
            spec_generated_len(duration_ms, sample_rate, channels) <= usize::MAX,
        ensures
            n.spec_samples().len() == spec_generated_len(duration_ms, sample_rate, channels),
            n.spec_position() == 0,
    {
        let total = match generated_len(duration_ms, sample_rate, channels) {
            Some(n) => n,
            None => 0,
        };
        let samples = generate_blue(total);
        BlueNoise { cursor: NoiseCursor::from_samples(samples) }
    }

    /// A copy of the generated samples.
    pub fn get_samples(&self) -> (out: Vec<i16>)
        ensures
            out@ == self.spec_samples(),
    {
        self.cursor.snapshot()
    }

    /// The next sample, advancing the cursor; `None` past the end.
    pub fn get_next(&mut self) -> (r: Option<i16>)
        ensures
            old(self).spec_position() < old(self).spec_samples().len() ==> r == Some(
                old(self).spec_samples()[old(self).spec_position()],
            ) && final(self).spec_position() == old(self).spec_position() + 1,
            old(self).spec_position() >= old(self).spec_samples().len() ==> r is None && final(self).spec_position() == old(self).spec_position(),
            final(self).spec_samples() == old(self).spec_samples(),
    {
        self.cursor.next_sample()
    }

    /// Moves the cursor back to the start.
    pub fn reset(&mut self)
        ensures
            final(self).spec_position() == 0,
            final(self).spec_samples() == old(self).spec_samples(),
    {
        self.cursor.rewind()
    }
}

/// Brownian noise (random walk): low frequency emphasis.
pub struct BrownianNoise {
    cursor: NoiseCursor,
}

impl BrownianNoise {
    /// The generated samples.
    pub closed spec fn spec_samples(&self) -> Seq<i16> {
        self.cursor.spec_samples()
    }

    /// The read position of `get_next`.
    pub closed spec fn spec_position(&self) -> int {
        self.cursor.spec_position()
    }

    /// Generates the whole block for the given duration, rate and
    /// channel count, with the cursor at the start.
    pub fn new(duration_ms: u32, sample_rate: u32, channels: u16) -> (n: BrownianNoise)
        requires
            spec_generated_len(duration_ms, sample_rate, channels) <= usize::MAX,
        ensures
            n.spec_samples().len() == spec_generated_len(duration_ms, sample_rate, channels),
            n.spec_position() == 0,
    {
        let total = match generated_len(duration_ms, sample_rate, channels) {
            Some(n) => n,
            None => 0,
        };
        let samples = generate_brownian(total);
        BrownianNoise { cursor: NoiseCursor::from_samples(samples) }
    }

    /// A copy of the generated samples.
    pub fn get_samples(&self) -> (out: Vec<i16>)
        ensures
            out@ == self.spec_samples(),
    {
        self.cursor.snapshot()
    }

    /// The next sample, advancing the cursor; `None` past the end.
    pub fn get_next(&mut self) -> (r: Option<i16>)
        ensures
            old(self).spec_position() < old(self).spec_samples().len() ==> r == Some(
                old(self).spec_samples()[old(self).spec_position()],
            ) && final(self).spec_position() == old(self).spec_position() + 1,
            old(self).spec_position() >= old(self).spec_samples().len() ==> r is None && final(self).spec_position() == old(self).spec_position(),
            final(self).spec_samples() == old(self).spec_samples(),
    {
        self.cursor.next_sample()
    }

    /// Moves the cursor back to the start.
    pub fn reset(&mut self)
        ensures
            final(self).spec_position() == 0,
            final(self).spec_samples() == old(self).spec_samples(),
    {
        self.cursor.rewind()
    }
}

/// Pink noise generator: equal power per octave.
pub struct PinkNoise {
    cursor: NoiseCursor,
}

impl PinkNoise {
    /// The generated samples.
    pub closed spec fn spec_samples(&self) -> Seq<i16> {
        self.cursor.spec_samples()
    }

    /// The read position of `get_next`.
    pub closed spec fn spec_position(&self) -> int {
        self.cursor.spec_position()
    }

    /// Generates the whole block for the given duration, rate and
    /// channel count, with the cursor at the start.
    pub fn new(duration_ms: u32, sample_rate: u32, channels: u16) -> (n: PinkNoise)
        requires
            spec_generated_len(duration_ms, sample_rate, channels) <= usize::MAX,
        ensures
            n.spec_samples().len() == spec_generated_len(duration_ms, sample_rate, channels),
            n.spec_position() == 0,
    {
        let total = match generated_len(duration_ms, sample_rate, channels) {
            Some(n) => n,
            None => 0,
        };
        let samples = generate_pink(total);
        PinkNoise { cursor: NoiseCursor::from_samples(samples) }
    }

    /// A copy of the generated samples.
    pub fn get_samples(&self) -> (out: Vec<i16>)
        ensures
            out@ == self.spec_samples(),
    {
        self.cursor.snapshot()
    }

    /// The next sample, advancing the cursor; `None` past the end.
    pub fn get_next(&mut self) -> (r: Option<i16>)
        ensures
            old(self).spec_position() < old(self).spec_samples().len() ==> r == Some(
                old(self).spec_samples()[old(self).spec_position()],
            ) && final(self).spec_position() == old(self).spec_position() + 1,
            old(self).spec_position() >= old(self).spec_samples().len() ==> r is None && final(self).spec_position() == old(self).spec_position(),
            final(self).spec_samples() == old(self).spec_samples(),
    {
        self.cursor.next_sample()
    }

    /// Moves the cursor back to the start.
    pub fn reset(&mut self)
        ensures
            final(self).spec_position() == 0,
            final(self).spec_samples() == old(self).spec_samples(),
    {
        self.cursor.rewind()
    }
}

/// Velvet noise: sparse, crackly impulses.
pub struct VelvetNoise {
    cursor: NoiseCursor,
}

impl VelvetNoise {
    /// The generated samples.
    pub closed spec fn spec_samples(&self) -> Seq<i16> {
        self.cursor.spec_samples()
    }

    /// The read position of `get_next`.
    pub closed spec fn spec_position(&self) -> int {
        self.cursor.spec_position()
    }

    /// Generates the whole block for the given duration, rate and
    /// channel count, with the cursor at the start.
    pub fn new(duration_ms: u32, sample_rate: u32, channels: u16) -> (n: VelvetNoise)
        requires
            spec_generated_len(duration_ms, sample_rate, channels) <= usize::MAX,
        ensures
            n.spec_samples().len() == spec_generated_len(duration_ms, sample_rate, channels),
            n.spec_position() == 0,
    {
        let total = match generated_len(duration_ms, sample_rate, channels) {
            Some(n) => n,
            None => 0,
        };
        let samples = generate_velvet(total);
        VelvetNoise { cursor: NoiseCursor::from_samples(samples) }
    }

    /// A copy of the generated samples.
    pub fn get_samples(&self) -> (out: Vec<i16>)
        ensures
            out@ == self.spec_samples(),
    {
        self.cursor.snapshot()
    }

    /// The next sample, advancing the cursor; `None` past the end.
    pub fn get_next(&mut self) -> (r: Option<i16>)
        ensures
            old(self).spec_position() < old(self).spec_samples().len() ==> r == Some(
                old(self).spec_samples()[old(self).spec_position()],
            ) && final(self).spec_position() == old(self).spec_position() + 1,
            old(self).spec_position() >= old(self).spec_samples().len() ==> r is None && final(self).spec_position() == old(self).spec_position(),
            final(self).spec_samples() == old(self).spec_samples(),
    {
        self.cursor.next_sample()
    }

    /// Moves the cursor back to the start.
    pub fn reset(&mut self)
        ensures
            final(self).spec_position() == 0,
            final(self).spec_samples() == old(self).spec_samples(),
    {
        self.cursor.rewind()
    }
}

/// Violet noise: very high frequency emphasis.
pub struct VioletNoise {
    cursor: NoiseCursor,
}

impl VioletNoise {
    /// The generated samples.
    pub closed spec fn spec_samples(&self) -> Seq<i16> {
        self.cursor.spec_samples()
    }

    /// The read position of `get_next`.
    pub closed spec fn spec_position(&self) -> int {
        self.cursor.spec_position()
    }

    /// Generates the whole block for the given duration, rate and
    /// channel count, with the cursor at the start.
    pub fn new(duration_ms: u32, sample_rate: u32, channels: u16) -> (n: VioletNoise)
        requires
            spec_generated_len(duration_ms, sample_rate, channels) <= usize::MAX,
        ensures
            n.spec_samples().len() == spec_generated_len(duration_ms, sample_rate, channels),
            n.spec_position() == 0,
    {
        let total = match generated_len(duration_ms, sample_rate, channels) {
            Some(n) => n,
            None => 0,
        };
        let samples = generate_violet(total);
        VioletNoise { cursor: NoiseCursor::from_samples(samples) }
    }

    /// A copy of the generated samples.
    pub fn get_samples(&self) -> (out: Vec<i16>)
        ensures
            out@ == self.spec_samples(),
    {
        self.cursor.snapshot()
    }

    /// The next sample, advancing the cursor; `None` past the end.
    pub fn get_next(&mut self) -> (r: Option<i16>)
        ensures
            old(self).spec_position() < old(self).spec_samples().len() ==> r == Some(
                old(self).spec_samples()[old(self).spec_position()],
            ) && final(self).spec_position() == old(self).spec_position() + 1,
            old(self).spec_position() >= old(self).spec_samples().len() ==> r is None && final(self).spec_position() == old(self).spec_position(),
            final(self).spec_samples() == old(self).spec_samples(),
    {
        self.cursor.next_sample()
    }

    /// Moves the cursor back to the start.
    pub fn reset(&mut self)
        ensures
            final(self).spec_position() == 0,
            final(self).spec_samples() == old(self).spec_samples(),
    {
        self.cursor.rewind()
    }
}

/// White Gaussian noise.
pub struct WhiteGaussianNoise {
    cursor: NoiseCursor,
}

impl WhiteGaussianNoise {
    /// The generated samples.
    pub closed spec fn spec_samples(&self) -> Seq<i16> {
        self.cursor.spec_samples()
    }

    /// The read position of `get_next`.
    pub closed spec fn spec_position(&self) -> int {
        self.cursor.spec_position()
    }

    /// Generates the whole block for the given duration, rate and
    /// channel count, with the cursor at the start.
    /// `std_dev_milli` scales the spread, in thousandths (1000 = unit).
    pub fn new(duration_ms: u32, sample_rate: u32, channels: u16, std_dev_milli: Option<u32>) -> (n: WhiteGaussianNoise)
        requires
            spec_generated_len(duration_ms, sample_rate, channels) <= usize::MAX,
        ensures
            n.spec_samples().len() == spec_generated_len(duration_ms, sample_rate, channels),
            n.spec_position() == 0,
    {
        let total = match generated_len(duration_ms, sample_rate, channels) {
            Some(n) => n,
            None => 0,
        };
        let spread: u32 = match std_dev_milli {
            Some(m) => m,
            None => 1000,
        };
        let samples = generate_white_gaussian(total, spread);
        WhiteGaussianNoise { cursor: NoiseCursor::from_samples(samples) }
    }

    /// A copy of the generated samples.
    pub fn get_samples(&self) -> (out: Vec<i16>)
        ensures
            out@ == self.spec_samples(),
    {
        self.cursor.snapshot()
    }

    /// The next sample, advancing the cursor; `None` past the end.
    pub fn get_next(&mut self) -> (r: Option<i16>)
        ensures
            old(self).spec_position() < old(self).spec_samples().len() ==> r == Some(
                old(self).spec_samples()[old(self).spec_position()],
            ) && final(self).spec_position() == old(self).spec_position() + 1,
            old(self).spec_position() >= old(self).spec_samples().len() ==> r is None && final(self).spec_position() == old(self).spec_position(),
            final(self).spec_samples() == old(self).spec_samples(),
    {
        self.cursor.next_sample()
    }

    /// Moves the cursor back to the start.
    pub fn reset(&mut self)
        ensures
            final(self).spec_position() == 0,
            final(self).spec_samples() == old(self).spec_samples(),
    {
        self.cursor.rewind()
    }
}

/// White triangular noise.
pub struct WhiteTriangularNoise {
    cursor: NoiseCursor,
}

impl WhiteTriangularNoise {
    /// The generated samples.
    pub closed spec fn spec_samples(&self) -> Seq<i16> {
        self.cursor.spec_samples()
    }

    /// The read position of `get_next`.
    pub closed spec fn spec_position(&self) -> int {
        self.cursor.spec_position()
    }

    /// Generates the whole block for the given duration, rate and
    /// channel count, with the cursor at the start.
    pub fn new(duration_ms: u32, sample_rate: u32, channels: u16) -> (n: WhiteTriangularNoise)
        requires
            spec_generated_len(duration_ms, sample_rate, channels) <= usize::MAX,
        ensures
            n.spec_samples().len() == spec_generated_len(duration_ms, sample_rate, channels),
            n.spec_position() == 0,
    {
        let total = match generated_len(duration_ms, sample_rate, channels) {
            Some(n) => n,
            None => 0,
        };
        let samples = generate_white_triangular(total);
        WhiteTriangularNoise { cursor: NoiseCursor::from_samples(samples) }
    }

    /// A copy of the generated samples.
    pub fn get_samples(&self) -> (out: Vec<i16>)
        ensures
            out@ == self.spec_samples(),
    {
        self.cursor.snapshot()
    }

    /// The next sample, advancing the cursor; `None` past the end.
    pub fn get_next(&mut self) -> (r: Option<i16>)
        ensures
            old(self).spec_position() < old(self).spec_samples().len() ==> r == Some(
                old(self).spec_samples()[old(self).spec_position()],
            ) && final(self).spec_position() == old(self).spec_position() + 1,
            old(self).spec_position() >= old(self).spec_samples().len() ==> r is None && final(self).spec_position() == old(self).spec_position(),
            final(self).spec_samples() == old(self).spec_samples(),
    {
        self.cursor.next_sample()
    }

    /// Moves the cursor back to the start.
    pub fn reset(&mut self)
        ensures
            final(self).spec_position() == 0,
            final(self).spec_samples() == old(self).spec_samples(),
    {
        self.cursor.rewind()
    }
}

/// White uniform noise (standard random noise).
pub struct WhiteUniformNoise {
    cursor: NoiseCursor,
}

impl WhiteUniformNoise {
    /// The generated samples.
    pub closed spec fn spec_samples(&self) -> Seq<i16> {
        self.cursor.spec_samples()
    }

    /// The read position of `get_next`.
    pub closed spec fn spec_position(&self) -> int {
        self.cursor.spec_position()
    }

    /// Generates the whole block for the given duration, rate and
    /// channel count, with the cursor at the start.
    pub fn new(duration_ms: u32, sample_rate: u32, channels: u16) -> (n: WhiteUniformNoise)
        requires
            spec_generated_len(duration_ms, sample_rate, channels) <= usize::MAX,
        ensures
            n.spec_samples().len() == spec_generated_len(duration_ms, sample_rate, channels),
            n.spec_position() == 0,
    {
        let total = match generated_len(duration_ms, sample_rate, channels) {
            Some(n) => n,
            None => 0,
        };
        let samples = generate_white_uniform(total);
        WhiteUniformNoise { cursor: NoiseCursor::from_samples(samples) }
    }

    /// A copy of the generated samples.
    pub fn get_samples(&self) -> (out: Vec<i16>)
        ensures
            out@ == self.spec_samples(),
    {
        self.cursor.snapshot()
    }

    /// The next sample, advancing the cursor; `None` past the end.
    pub fn get_next(&mut self) -> (r: Option<i16>)
        ensures
            old(self).spec_position() < old(self).spec_samples().len() ==> r == Some(
                old(self).spec_samples()[old(self).spec_position()],
            ) && final(self).spec_position() == old(self).spec_position() + 1,
            old(self).spec_position() >= old(self).spec_samples().len() ==> r is None && final(self).spec_position() == old(self).spec_position(),
            final(self).spec_samples() == old(self).spec_samples(),
    {
        self.cursor.next_sample()
    }

    /// Moves the cursor back to the start.
    pub fn reset(&mut self)
        ensures
            final(self).spec_position() == 0,
            final(self).spec_samples() == old(self).spec_samples(),
    {
        self.cursor.rewind()
    }
}

/// Creates pink noise (one-over-f frequency spectrum).
pub fn pink(duration_ms: u32, sample_rate: u32, channels: u16) -> (n: PinkNoise)
    requires
        spec_generated_len(duration_ms, sample_rate, channels) <= usize::MAX,
    ensures
        n.spec_samples().len() == spec_generated_len(duration_ms, sample_rate, channels),
        n.spec_position() == 0,
{
    PinkNoise::new(duration_ms, sample_rate, channels)
}

/// Creates white noise (neutral frequency spectrum).
pub fn white(duration_ms: u32, sample_rate: u32, channels: u16) -> (n: WhiteUniformNoise)
    requires
        spec_generated_len(duration_ms, sample_rate, channels) <= usize::MAX,
    ensures
        n.spec_samples().len() == spec_generated_len(duration_ms, sample_rate, channels),
        n.spec_position() == 0,
{
    WhiteUniformNoise::new(duration_ms, sample_rate, channels)
}

} // verus!
