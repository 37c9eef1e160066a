//! Simple white noise sources without a read cursor.

use vstd::prelude::*;

verus! {

use crate::sources::generated_len;
use crate::sources::spec_generated_len;

/// Simple white noise source: one pre-generated block.
pub struct White {
    samples: Vec<i16>,
}

impl White {
    /// The generated samples.
    pub closed spec fn spec_samples(&self) -> Seq<i16> {
        self.samples@
    }

    /// Generates the whole block for the given duration, rate and
    /// channel count.
    pub fn new(duration_ms: u32, sample_rate: u32, channels: u16) -> (w: White)
        requires
            spec_generated_len(duration_ms, sample_rate, channels) <= usize::MAX,
        ensures
            w.spec_samples().len() == spec_generated_len(duration_ms, sample_rate, channels),
    {
        let gen = crate::white::white_block(duration_ms, sample_rate, channels);
        White { samples: gen }
    }

    /// A copy of the generated samples.
    pub fn get_samples(&self) -> (out: Vec<i16>)
        ensures
            out@ == self.spec_samples(),
    {
        let out = self.samples.clone();
        proof {
            assert(out@ =~= self.samples@);
        }
        out
    }
}

/// White noise generator bound to a configuration, generating on demand.
pub struct WhiteGenerator {
    sample_rate: u32,
    channels: u16,
}

impl WhiteGenerator {
    /// The configured sample rate.
    pub closed spec fn spec_sample_rate(&self) -> u32 {
        self.sample_rate
    }

    /// The configured channel count.
    pub closed spec fn spec_channels(&self) -> u16 {
        self.channels
    }

    /// A generator at the given configuration.
    pub fn new(sample_rate: u32, channels: u16) -> (g: WhiteGenerator)
        ensures
            g.spec_sample_rate() == sample_rate,
            g.spec_channels() == channels,
    {
        WhiteGenerator { sample_rate, channels }
    }

    /// One block of white noise covering the given duration.
    pub fn generate(&self, duration_ms: u32) -> (out: Vec<i16>)
        requires
            spec_generated_len(duration_ms, self.spec_sample_rate(), self.spec_channels())
                <= usize::MAX,
        ensures
            out@.len() == spec_generated_len(
                duration_ms,
                self.spec_sample_rate(),
                self.spec_channels(),
            ),
    {
        white_block(duration_ms, self.sample_rate, self.channels)
    }
}

/// One block of uniformly random samples of the standard generated size.
pub fn white_block(duration_ms: u32, sample_rate: u32, channels: u16) -> (out: Vec<i16>)
    requires
        spec_generated_len(duration_ms, sample_rate, channels) <= usize::MAX,
    ensures
        out@.len() == spec_generated_len(duration_ms, sample_rate, channels),
{
    let total = match generated_len(duration_ms, sample_rate, channels) {
        Some(n) => n,
        None => 0,
    };
    let mut out: Vec<i16> = Vec::new();
    let mut i: usize = 0;
    while i < total
        invariant
            i <= total,
            out@.len() == i,
        decreases total - i,
    {
        out.push(rand::random::<i16>());
        i = i + 1;
    }
    out
}

} // verus!
