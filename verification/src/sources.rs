//! Silent signal sources and the shared sizing rule for generated blocks.
//!
//! The tone and noise generators elsewhere produce `duration * rate / 1000`
//! frames of `channels` samples each; the same rule is shared here. The
//! oscillator sources themselves (sine and friends) synthesize through
//! floating-point math and live with the playback layer outside this
//! crate; the silent sources and the sample bookkeeping are decided here.

use vstd::prelude::*;

verus! {

/// How many samples a generated block of `duration_ms` holds.
pub open spec fn spec_generated_len(duration_ms: u32, sample_rate: u32, channels: u16) -> int {
    (duration_ms * sample_rate / 1000) * channels
}

/// Computes the generated block length; `None` when it cannot be
/// represented on this machine.
pub fn generated_len(duration_ms: u32, sample_rate: u32, channels: u16) -> (r: Option<usize>)
    ensures
        spec_generated_len(duration_ms, sample_rate, channels) <= usize::MAX ==> r == Some(
            spec_generated_len(duration_ms, sample_rate, channels) as usize,
        ),
        spec_generated_len(duration_ms, sample_rate, channels) > usize::MAX ==> r is None,
{
    proof {
        vstd::arithmetic::mul::lemma_mul_upper_bound(
            duration_ms as int,
            0xFFFF_FFFF,
            sample_rate as int,
            0xFFFF_FFFF,
        );
    }
    let frames: u128 = (duration_ms as u128) * (sample_rate as u128) / 1000;
    proof {
        vstd::arithmetic::div_mod::lemma_div_nonincreasing(
            (duration_ms as int) * (sample_rate as int),
            1000,
        );
        vstd::arithmetic::div_mod::lemma_div_pos_is_pos(
            (duration_ms as int) * (sample_rate as int),
            1000,
        );
        vstd::arithmetic::mul::lemma_mul_upper_bound(
            frames as int,
            0xFFFF_FFFF_FFFF_FFFF,
            channels as int,
            0xFFFF,
        );
    }
    let total: u128 = frames * (channels as u128);
    if total <= usize::MAX as u128 {
        Some(total as usize)
    } else {
        None
    }
}

/// Audio source types (for generator sources).
#[derive(Clone, Copy, Debug, PartialEq, Eq, Structural)]
pub enum SourceType {
    Sine,
    Square,
    Sawtooth,
    Triangle,
    WhiteNoise,
    PinkNoise,
    BrownianNoise,
}

/// Empty audio source: pure silence at a fixed configuration.
pub struct Empty {
    sample_rate: u32,
    channels: u16,
}

impl Empty {
    /// The configured sample rate.
    pub closed spec fn spec_sample_rate(&self) -> u32 {
        self.sample_rate
    }

    /// The configured channel count.
    pub closed spec fn spec_channels(&self) -> u16 {
        self.channels
    }

    /// A silent source at the given configuration.
    pub fn new(sample_rate: u32, channels: u16) -> (e: Empty)
        ensures
            e.spec_sample_rate() == sample_rate,
            e.spec_channels() == channels,
    {
        Empty { sample_rate, channels }
    }

    /// A block of silence covering the given duration.
    pub fn get_samples(&self, duration_ms: u32) -> (out: Vec<i16>)
        requires
            spec_generated_len(duration_ms, self.spec_sample_rate(), self.spec_channels())
                <= usize::MAX,
        ensures
            out@ == Seq::new(
                spec_generated_len(
                    duration_ms,
                    self.spec_sample_rate(),
                    self.spec_channels(),
                ) as nat,
                |i: int| 0i16,
            ),
    {
        let n = match generated_len(duration_ms, self.sample_rate, self.channels) {
            Some(n) => n,
            None => 0,
        };
        crate::session::silence(n)
    }
}

/// Empty callback source: the silent configuration used when the caller
/// supplies samples from outside.
pub struct EmptyCallback {
    sample_rate: u32,
    channels: u16,
}

impl EmptyCallback {
    /// The configured sample rate.
    pub closed spec fn spec_sample_rate(&self) -> u32 {
        self.sample_rate
    }

    /// The configured channel count.
    pub closed spec fn spec_channels(&self) -> u16 {
        self.channels
    }

    /// A callback source at the given configuration.
    pub fn new(sample_rate: u32, channels: u16) -> (e: EmptyCallback)
        ensures
            e.spec_sample_rate() == sample_rate,
            e.spec_channels() == channels,
    {
        EmptyCallback { sample_rate, channels }
    }
}

/// Zero audio source: silence, generated on demand.
pub struct Zero {
    sample_rate: u32,
    channels: u16,
}

impl Zero {
    /// The configured sample rate.
    pub closed spec fn spec_sample_rate(&self) -> u32 {
        self.sample_rate
    }

    /// The configured channel count.
    pub closed spec fn spec_channels(&self) -> u16 {
        self.channels
    }

    /// A zero source at the given configuration.
    pub fn new(sample_rate: u32, channels: u16) -> (z: Zero)
        ensures
            z.spec_sample_rate() == sample_rate,
            z.spec_channels() == channels,
    {
        Zero { sample_rate, channels }
    }

    /// A block of silence covering the given duration.
    pub fn generate(&self, duration_ms: u32) -> (out: Vec<i16>)
        requires
            spec_generated_len(duration_ms, self.spec_sample_rate(), self.spec_channels())
                <= usize::MAX,
        ensures
            out@ == Seq::new(
                spec_generated_len(
                    duration_ms,
                    self.spec_sample_rate(),
                    self.spec_channels(),
                ) as nat,
                |i: int| 0i16,
            ),
    {
        let n = match generated_len(duration_ms, self.sample_rate, self.channels) {
            Some(n) => n,
            None => 0,
        };
        crate::session::silence(n)
    }
}

/// The samples that remain after skipping a prefix: used by sources that
/// start partway in. Skipping past the end leaves nothing.
pub fn skip_prefix(samples: &Vec<i16>, skip: usize) -> (out: Vec<i16>)
    ensures
        skip < samples@.len() ==> out@ == samples@.skip(skip as int),
        skip >= samples@.len() ==> out@ == Seq::<i16>::empty(),
{
    let mut out: Vec<i16> = Vec::new();
    if skip >= samples.len() {
        return out;
    }
    let mut i: usize = skip;
    while i < samples.len()
        invariant
            skip <= i <= samples@.len(),
            out@ == samples@.subrange(skip as int, i as int),
        decreases samples@.len() - i,
    {
        out.push(samples[i]);
        proof {
            assert(out@ =~= samples@.subrange(skip as int, i + 1));
        }
        i = i + 1;
    }
    proof {
        assert(out@ =~= samples@.skip(skip as int));
    }
    out
}

} // verus!
