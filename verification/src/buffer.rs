//! Sample containers: a channel/rate-tagged buffer of canonical samples.

use vstd::prelude::*;

verus! {

/// One canonical sample decoded from two little-endian bytes, as a
/// two's-complement 16-bit value.
pub open spec fn sample_from_le(b0: u8, b1: u8) -> int {
    let v = b0 + b1 * 256;
    if v >= 32768 {
        v - 65536
    } else {
        v
    }
}

/// A buffer of canonical samples together with the channel count and
/// sample rate they were captured or decoded at.
pub struct SamplesBuffer {
    samples: Vec<i16>,
    channels: u16,
    sample_rate: u32,
}

impl SamplesBuffer {
    /// The stored samples.
    pub closed spec fn spec_samples(&self) -> Seq<i16> {
        self.samples@
    }

    /// The channel count.
    pub closed spec fn spec_channels(&self) -> u16 {
        self.channels
    }

    /// The sample rate.
    pub closed spec fn spec_sample_rate(&self) -> u32 {
        self.sample_rate
    }

    /// Builds a buffer from its parts.
    pub fn new(channels: u16, sample_rate: u32, samples: Vec<i16>) -> (b: SamplesBuffer)
        ensures
            b.spec_channels() == channels,
            b.spec_sample_rate() == sample_rate,
            b.spec_samples() == samples@,
    {
        SamplesBuffer { sample_rate, channels, samples }
    }

    /// Builds a buffer, taking the channel count as a wide integer (only
    /// its low 16 bits are meaningful).
    pub fn create(channels: u32, sample_rate: u32, samples: Vec<i16>) -> (b: SamplesBuffer)
        requires
            channels <= u16::MAX,
        ensures
            b.spec_channels() as int == channels as int,
            b.spec_sample_rate() == sample_rate,
            b.spec_samples() == samples@,
    {
        SamplesBuffer::new(channels as u16, sample_rate, samples)
    }

    /// The number of channels in this buffer (1 = mono, 2 = stereo).
    pub fn get_channels(&self) -> (r: u32)
        ensures
            r as int == self.spec_channels() as int,
    {
        self.channels as u32
    }

    /// The sample rate of this buffer.
    pub fn get_sample_rate(&self) -> (r: u32)
        ensures
            r == self.spec_sample_rate(),
    {
        self.sample_rate
    }

    /// The number of samples in this buffer.
    pub fn get_len(&self) -> (r: usize)
        ensures
            r == self.spec_samples().len(),
    {
        self.samples.len()
    }

    /// The duration of this buffer in milliseconds: samples divided by
    /// samples-per-millisecond, rounded down; 0 when the configuration is
    /// degenerate (zero rate or channels) or the value does not fit.
    pub fn get_duration_ms(&self) -> (r: u64)
        ensures
            self.spec_sample_rate() > 0 && self.spec_channels() > 0 && (
            self.spec_samples().len() * 1000) as int / (self.spec_sample_rate() as int
                * self.spec_channels() as int) <= u64::MAX ==> r == (self.spec_samples().len()
                * 1000) as int / (self.spec_sample_rate() as int * self.spec_channels() as int),
            self.spec_sample_rate() == 0 || self.spec_channels() == 0 ==> r == 0,
    {
        if self.sample_rate == 0 || self.channels == 0 {
            return 0;
        }
        let n = self.samples.len();
        proof {
            vstd::arithmetic::mul::lemma_mul_upper_bound(
                n as int,
                0xFFFF_FFFF_FFFF_FFFF,
                1000,
                1000,
            );
            vstd::arithmetic::mul::lemma_mul_upper_bound(
                self.sample_rate as int,
                0xFFFF_FFFF,
                self.channels as int,
                0xFFFF,
            );
            vstd::arithmetic::mul::lemma_mul_strictly_positive(
                self.sample_rate as int,
                self.channels as int,
            );
        }
        let total: u128 = (n as u128) * 1000;
        let per_ms: u128 = (self.sample_rate as u128) * (self.channels as u128);
        let ms: u128 = total / per_ms;
        if ms <= u64::MAX as u128 {
            ms as u64
        } else {
            0
        }
    }

    /// A copy of the samples in this buffer.
    pub fn get_samples(&self) -> (r: Vec<i16>)
        ensures
            r@ == self.spec_samples(),
    {
        let r = self.samples.clone();
        proof {
            assert(r@ =~= self.samples@);
        }
        r
    }

    /// Builds a buffer from raw bytes holding 16-bit little-endian
    /// samples; a trailing odd byte is ignored.
    pub fn from_bytes(bytes: Vec<u8>, channels: u32, sample_rate: u32) -> (b: SamplesBuffer)
        requires
            channels <= u16::MAX,
        ensures
            b.spec_channels() as int == channels as int,
            b.spec_sample_rate() == sample_rate,
            b.spec_samples().len() == bytes@.len() / 2,
            forall|i: int|
                0 <= i < b.spec_samples().len() ==> b.spec_samples()[i] == sample_from_le(
                    bytes@[2 * i],
                    bytes@[2 * i + 1],
                ),
    {
        let mut samples: Vec<i16> = Vec::new();
        let mut i: usize = 0;
        while i + 1 < bytes.len()
            invariant
                i % 2 == 0,
                i <= bytes@.len(),
                samples@.len() == i / 2,
                forall|j: int|
                    0 <= j < samples@.len() ==> samples@[j] == sample_from_le(
                        bytes@[2 * j],
                        bytes@[2 * j + 1],
                    ),
            decreases bytes@.len() - i,
        {
            let b0 = bytes[i];
            let b1 = bytes[i + 1];
            let w: i32 = (b0 as i32) + (b1 as i32) * 256;
            let s: i16 = if w >= 32768 {
                (w - 65536) as i16
            } else {
                w as i16
            };
            samples.push(s);
            i = i + 2;
        }
        proof {
            if i < bytes.len() {
                assert(i + 1 == bytes@.len());
            }
            assert(samples@.len() == bytes@.len() / 2);
        }
        SamplesBuffer::create(channels, sample_rate, samples)
    }
}

/// Static buffer that owns its audio data.
pub struct StaticSamplesBuffer {
    inner: SamplesBuffer,
}

impl StaticSamplesBuffer {
    /// The held buffer's samples.
    pub closed spec fn spec_inner(&self) -> SamplesBuffer {
        self.inner
    }

    /// Builds a static buffer from its parts.
    pub fn new(channels: u32, sample_rate: u32, samples: Vec<i16>) -> (b: StaticSamplesBuffer)
        requires
            channels <= u16::MAX,
        ensures
            b.spec_inner().spec_channels() as int == channels as int,
            b.spec_inner().spec_sample_rate() == sample_rate,
            b.spec_inner().spec_samples() == samples@,
    {
        StaticSamplesBuffer { inner: SamplesBuffer::create(channels, sample_rate, samples) }
    }

    /// A copy of the held buffer.
    pub fn get_inner(&self) -> (b: SamplesBuffer)
        ensures
            b.spec_channels() == self.spec_inner().spec_channels(),
            b.spec_sample_rate() == self.spec_inner().spec_sample_rate(),
            b.spec_samples() == self.spec_inner().spec_samples(),
    {
        SamplesBuffer::new(
            self.inner.get_channels() as u16,
            self.inner.get_sample_rate(),
            self.inner.get_samples(),
        )
    }
}

} // verus!
