//! Decoder configuration and the sample-level decoding policies.
//!
//! The codec itself is an external collaborator that yields normalized
//! samples plus channel/rate metadata; what is decided here is the
//! builder state handed to it and how decoded blocks are looped.

use vstd::prelude::*;

verus! {

/// The number of copies `decode_looped_samples` concatenates for a given
/// loop count: a count of `u32::MAX` means "repeat indefinitely", which a
/// one-shot decode caps at 4 copies for safety.
pub open spec fn spec_loop_copies(loop_count: u32) -> int {
    if loop_count == u32::MAX {
        4
    } else {
        loop_count as int
    }
}

/// `k` copies of `s`, concatenated.
pub open spec fn spec_repeated(s: Seq<i16>, k: int) -> Seq<i16>
    decreases k,
{
    if k <= 0 {
        Seq::empty()
    } else {
        spec_repeated(s, k - 1) + s
    }
}

/// Applies the loop count to one decoded take: an empty take or a count
/// of 1 passes through unchanged; otherwise the take is concatenated
/// `spec_loop_copies` times.
pub fn decode_looped_samples(samples: Vec<i16>, loop_count: u32) -> (out: Vec<i16>)
    requires
        samples@.len() * spec_loop_copies(loop_count) <= usize::MAX,
    ensures
        samples@.len() == 0 || loop_count == 1 ==> out@ == samples@,
        samples@.len() > 0 && loop_count != 1 ==> out@ == spec_repeated(
            samples@,
            spec_loop_copies(loop_count),
        ),
{
    if samples.len() == 0 || loop_count == 1 {
        return samples;
    }
    let copies: u32 = if loop_count == u32::MAX {
        4
    } else {
        loop_count
    };
    let mut out: Vec<i16> = Vec::new();
    let mut k: u32 = 0;
    while k < copies
        invariant
            k <= copies,
            copies == spec_loop_copies(loop_count),
            samples@.len() * spec_loop_copies(loop_count) <= usize::MAX,
            out@ == spec_repeated(samples@, k as int),
        decreases copies - k,
    {
        proof {
            assert(spec_repeated(samples@, k as int).len() == k * samples@.len()) by {
                lemma_repeated_len(samples@, k as int);
            }
            assert((k + 1) * samples@.len() <= spec_loop_copies(loop_count) * samples@.len())
                by (nonlinear_arith)
                requires
                    k + 1 <= spec_loop_copies(loop_count),
                    samples@.len() >= 0,
            ;
            assert(spec_loop_copies(loop_count) * samples@.len() == samples@.len()
                * spec_loop_copies(loop_count)) by (nonlinear_arith);
            assert((k + 1) * samples@.len() == k * samples@.len() + samples@.len())
                by (nonlinear_arith);
        }
        let ghost prior = out@;
        out.extend_from_slice(samples.as_slice());
        proof {
            assert(out@ =~= prior + samples@);
        }
        k = k + 1;
    }
    out
}

/// Concatenates exactly `times` copies of a block; none or one copy
/// passes the block through unchanged.
pub fn repeat_samples(samples: Vec<i16>, times: u32) -> (out: Vec<i16>)
    requires
        samples@.len() * times <= usize::MAX,
    ensures
        times <= 1 ==> out@ == samples@,
        times > 1 ==> out@ == spec_repeated(samples@, times as int),
{
    if times <= 1 {
        return samples;
    }
    let mut out: Vec<i16> = Vec::new();
    let mut k: u32 = 0;
    while k < times
        invariant
            k <= times,
            samples@.len() * times <= usize::MAX,
            out@ == spec_repeated(samples@, k as int),
        decreases times - k,
    {
        proof {
            assert(spec_repeated(samples@, k as int).len() == k * samples@.len()) by {
                lemma_repeated_len(samples@, k as int);
            }
            assert((k + 1) * samples@.len() <= times * samples@.len()) by (nonlinear_arith)
                requires
                    k + 1 <= times,
                    samples@.len() >= 0,
            ;
            assert(times * samples@.len() == samples@.len() * times) by (nonlinear_arith);
            assert((k + 1) * samples@.len() == k * samples@.len() + samples@.len())
                by (nonlinear_arith);
        }
        let ghost prior = out@;
        out.extend_from_slice(samples.as_slice());
        proof {
            assert(out@ =~= prior + samples@);
        }
        k = k + 1;
    }
    out
}

proof fn lemma_repeated_len(s: Seq<i16>, k: int)
    requires
        k >= 0,
    ensures
        spec_repeated(s, k).len() == k * s.len(),
    decreases k,
{
    if k > 0 {
        lemma_repeated_len(s, k - 1);
        assert(k * s.len() == (k - 1) * s.len() + s.len()) by (nonlinear_arith);
    } else {
        assert(spec_repeated(s, 0) =~= Seq::<i16>::empty());
        assert(k * s.len() == 0) by (nonlinear_arith)
            requires
                k == 0,
        ;
    }
}

/// Decoder builder settings, as plain data.
pub struct DecoderBuilderSettings {
    pub enable_looping: bool,
    pub loop_count: u32,
    pub sample_rate: Option<u32>,
    pub channels: Option<u16>,
}

/// Decoder builder for configuring decoder behavior; the codec layer
/// reads the finished settings when it opens a file or a byte buffer.
pub struct DecoderBuilder {
    enable_looping: bool,
    loop_count: u32,
    sample_rate: Option<u32>,
    channels: Option<u16>,
}

impl DecoderBuilder {
    /// Whether looping is enabled.
    pub closed spec fn spec_loop_enabled(&self) -> bool {
        self.enable_looping
    }

    /// The configured loop count.
    pub closed spec fn spec_loop_count(&self) -> u32 {
        self.loop_count
    }

    /// The requested sample rate, if any.
    pub closed spec fn spec_sample_rate(&self) -> Option<u32> {
        self.sample_rate
    }

    /// The requested channel count, if any.
    pub closed spec fn spec_channels(&self) -> Option<u16> {
        self.channels
    }

    /// A builder with looping disabled and no overrides.
    pub fn new() -> (b: DecoderBuilder)
        ensures
            !b.spec_loop_enabled(),
            b.spec_loop_count() == 1,
            b.spec_sample_rate() is None,
            b.spec_channels() is None,
    {
        DecoderBuilder { enable_looping: false, loop_count: 1, sample_rate: None, channels: None }
    }

    /// Enables or disables looping.
    pub fn set_loop_enabled(&mut self, enabled: bool)
        ensures
            final(self).spec_loop_enabled() == enabled,
            final(self).spec_loop_count() == old(self).spec_loop_count(),
            final(self).spec_sample_rate() == old(self).spec_sample_rate(),
            final(self).spec_channels() == old(self).spec_channels(),
    {
        self.enable_looping = enabled;
    }

    /// Sets the loop count.
    pub fn set_loop_count(&mut self, count: u32)
        ensures
            final(self).spec_loop_count() == count,
            final(self).spec_loop_enabled() == old(self).spec_loop_enabled(),
            final(self).spec_sample_rate() == old(self).spec_sample_rate(),
            final(self).spec_channels() == old(self).spec_channels(),
    {
        self.loop_count = count;
    }

    /// Requests a sample rate.
    pub fn set_sample_rate(&mut self, rate: u32)
        ensures
            final(self).spec_sample_rate() == Some(rate),
            final(self).spec_loop_enabled() == old(self).spec_loop_enabled(),
            final(self).spec_loop_count() == old(self).spec_loop_count(),
            final(self).spec_channels() == old(self).spec_channels(),
    {
        self.sample_rate = Some(rate);
    }

    /// Requests a channel count.
    pub fn set_channels(&mut self, channels: u16)
        ensures
            final(self).spec_channels() == Some(channels),
            final(self).spec_loop_enabled() == old(self).spec_loop_enabled(),
            final(self).spec_loop_count() == old(self).spec_loop_count(),
            final(self).spec_sample_rate() == old(self).spec_sample_rate(),
    {
        self.channels = Some(channels);
    }

    /// The finished settings, for the codec layer to act on.
    pub fn settings(&self) -> (s: DecoderBuilderSettings)
        ensures
            s.enable_looping == self.spec_loop_enabled(),
            s.loop_count == self.spec_loop_count(),
            s.sample_rate == self.spec_sample_rate(),
            s.channels == self.spec_channels(),
    {
        DecoderBuilderSettings {
            enable_looping: self.enable_looping,
            loop_count: self.loop_count,
            sample_rate: self.sample_rate,
            channels: self.channels,
        }
    }
}

impl Default for DecoderBuilder {
    /// Same as `DecoderBuilder::new`.
    fn default() -> (b: DecoderBuilder)
        ensures
            !b.spec_loop_enabled(),
            b.spec_loop_count() == 1,
            b.spec_sample_rate() is None,
            b.spec_channels() is None,
    {
        DecoderBuilder::new()
    }
}

} // verus!
