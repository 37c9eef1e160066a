//! Audio mixer: blends multiple sample sources into one output frame.
//!
//! Gains and pans are carried in thousandths of full scale, validated on
//! entry per the parameter rules: volume in [0, 1], pan in [-1, 1],
//! rejected before any state changes.

use vstd::prelude::*;

verus! {

use crate::sample::clamp_to_sample;
use crate::sample::div_trunc;
use crate::sample::div_trunc_i64;
use crate::text::chars_of;
use crate::text::vecs_equal;
use crate::types::ParamError;

/// Errors from mixer operations.
#[derive(Clone, Copy, Debug, PartialEq, Eq, Structural)]
pub enum MixerError {
    /// The mixer already holds its maximum number of sources.
    AtCapacity,
    /// No source has the given id.
    SourceNotFound,
    /// There is nothing to mix.
    NoSources,
}

/// A source that can be added to a mixer.
pub struct MixerSource {
    id: String,
    samples: Vec<i16>,
    sample_rate: u32,
    channels: u16,
    volume_milli: u32,
    pan_milli: i32,
    enabled: bool,
}

/// The sample offset a time point maps to at a rate and channel count.
pub open spec fn spec_time_offset(time_ms: int, sample_rate: int, channels: int) -> int {
    time_ms * sample_rate * channels / 1000
}

impl MixerSource {
    /// The source id.
    pub closed spec fn spec_id(&self) -> Seq<char> {
        self.id@
    }

    /// The held samples.
    pub closed spec fn spec_samples(&self) -> Seq<i16> {
        self.samples@
    }

    /// The sample rate.
    pub closed spec fn spec_sample_rate(&self) -> u32 {
        self.sample_rate
    }

    /// The channel count.
    pub closed spec fn spec_channels(&self) -> u16 {
        self.channels
    }

    /// The gain in thousandths.
    pub closed spec fn spec_volume_milli(&self) -> u32 {
        self.volume_milli
    }

    /// The pan in thousandths, negative left.
    pub closed spec fn spec_pan_milli(&self) -> i32 {
        self.pan_milli
    }

    /// Whether the source participates in mixing.
    pub closed spec fn spec_enabled(&self) -> bool {
        self.enabled
    }

    /// A source at unit gain, centered, enabled.
    pub fn new(id: String, samples: Vec<i16>, sample_rate: u32, channels: u16) -> (s: MixerSource)
        ensures
            s.spec_id() == id@,
            s.spec_samples() == samples@,
            s.spec_sample_rate() == sample_rate,
            s.spec_channels() == channels,
            s.spec_volume_milli() == 1000,
            s.spec_pan_milli() == 0,
            s.spec_enabled(),
    {
        MixerSource {
            id,
            samples,
            sample_rate,
            channels,
            volume_milli: 1000,
            pan_milli: 0,
            enabled: true,
        }
    }

    /// The source id.
    pub fn get_id(&self) -> (r: String)
        ensures
            r@ == self.spec_id(),
    {
        self.id.clone()
    }

    /// A copy of the held samples.
    pub fn get_samples(&self) -> (r: Vec<i16>)
        ensures
            r@ == self.spec_samples(),
    {
        let r = self.samples.clone();
        proof {
            assert(r@ =~= self.samples@);
        }
        r
    }

    /// The samples at a time point: one frame starting at the mapped
    /// offset, empty once the offset runs past the held samples.
    pub fn get_samples_at(&self, time_ms: u32) -> (out: Vec<i16>)
        ensures
            ({
                let off = spec_time_offset(
                    time_ms as int,
                    self.spec_sample_rate() as int,
                    self.spec_channels() as int,
                );
                if off >= self.spec_samples().len() {
                    out@ == Seq::<i16>::empty()
                } else {
                    out@ == self.spec_samples().subrange(
                        off,
                        if off + self.spec_channels() as int <= self.spec_samples().len() {
                            off + self.spec_channels() as int
                        } else {
                            self.spec_samples().len() as int
                        },
                    )
                }
            }),
    {
        proof {
            vstd::arithmetic::mul::lemma_mul_upper_bound(
                time_ms as int,
                0xFFFF_FFFF,
                self.sample_rate as int,
                0xFFFF_FFFF,
            );
            vstd::arithmetic::mul::lemma_mul_upper_bound(
                time_ms as int * self.sample_rate as int,
                0xFFFF_FFFFint * 0xFFFF_FFFF,
                self.channels as int,
                0xFFFF,
            );
            vstd::arithmetic::div_mod::lemma_div_nonincreasing(
                time_ms as int * self.sample_rate as int * self.channels as int,
                1000,
            );
            vstd::arithmetic::div_mod::lemma_div_pos_is_pos(
                time_ms as int * self.sample_rate as int * self.channels as int,
                1000,
            );
        }
        let off_wide: u128 = (time_ms as u128) * (self.sample_rate as u128)
            * (self.channels as u128) / 1000;
        let n = self.samples.len();
        if off_wide >= n as u128 {
            return Vec::new();
        }
        let off: usize = off_wide as usize;
        let remaining = n - off;
        let upper: usize = if (self.channels as usize) <= remaining {
            off + self.channels as usize
        } else {
            n
        };
        let mut out: Vec<i16> = Vec::new();
        let mut i: usize = off;
        while i < upper
            invariant
                off <= i <= upper <= n,
                n == self.spec_samples().len(),
                out@ == self.spec_samples().subrange(off as int, i as int),
            decreases upper - i,
        {
            out.push(self.samples[i]);
            proof {
                assert(out@ =~= self.spec_samples().subrange(off as int, i + 1));
            }
            i = i + 1;
        }
        out
    }

    /// The sample rate.
    pub fn get_sample_rate(&self) -> (r: u32)
        ensures
            r == self.spec_sample_rate(),
    {
        self.sample_rate
    }

    /// The channel count.
    pub fn get_channels(&self) -> (r: u16)
        ensures
            r == self.spec_channels(),
    {
        self.channels
    }

    /// Sets the gain in thousandths of full scale; above 1000 is
    /// rejected before any state changes.
    pub fn set_volume_milli(&mut self, volume_milli: u32) -> (r: Result<(), ParamError>)
        ensures
            volume_milli <= 1000 ==> r == Ok::<(), ParamError>(()) && final(self).spec_volume_milli() == volume_milli,
            volume_milli > 1000 ==> r == Err::<(), ParamError>(ParamError::OutOfRange) && *final(self) == *old(self),
            final(self).spec_id() == old(self).spec_id(),
            final(self).spec_samples() == old(self).spec_samples(),
            final(self).spec_sample_rate() == old(self).spec_sample_rate(),
            final(self).spec_channels() == old(self).spec_channels(),
            final(self).spec_pan_milli() == old(self).spec_pan_milli(),
            final(self).spec_enabled() == old(self).spec_enabled(),
    {
        if volume_milli > 1000 {
            return Err(ParamError::OutOfRange);
        }
        self.volume_milli = volume_milli;
        Ok(())
    }

    /// The gain in thousandths.
    pub fn get_volume_milli(&self) -> (r: u32)
        ensures
            r == self.spec_volume_milli(),
    {
        self.volume_milli
    }

    /// Sets the pan in thousandths (-1000 left, 0 center, 1000 right);
    /// outside that range is rejected before any state changes.
    pub fn set_pan_milli(&mut self, pan_milli: i32) -> (r: Result<(), ParamError>)
        ensures
            -1000 <= pan_milli <= 1000 ==> r == Ok::<(), ParamError>(()) && final(self).spec_pan_milli() == pan_milli,
            pan_milli < -1000 || pan_milli > 1000 ==> r == Err::<(), ParamError>(
                ParamError::OutOfRange,
            ) && *final(self) == *old(self),
            final(self).spec_id() == old(self).spec_id(),
            final(self).spec_samples() == old(self).spec_samples(),
            final(self).spec_sample_rate() == old(self).spec_sample_rate(),
            final(self).spec_channels() == old(self).spec_channels(),
            final(self).spec_volume_milli() == old(self).spec_volume_milli(),
            final(self).spec_enabled() == old(self).spec_enabled(),
    {
        if pan_milli < -1000 || pan_milli > 1000 {
            return Err(ParamError::OutOfRange);
        }
        self.pan_milli = pan_milli;
        Ok(())
    }

    /// The pan in thousandths.
    pub fn get_pan_milli(&self) -> (r: i32)
        ensures
            r == self.spec_pan_milli(),
    {
        self.pan_milli
    }

    /// Enables or disables the source.
    pub fn set_enabled(&mut self, enabled: bool)
        ensures
            final(self).spec_enabled() == enabled,
            final(self).spec_id() == old(self).spec_id(),
            final(self).spec_samples() == old(self).spec_samples(),
            final(self).spec_sample_rate() == old(self).spec_sample_rate(),
            final(self).spec_channels() == old(self).spec_channels(),
            final(self).spec_volume_milli() == old(self).spec_volume_milli(),
            final(self).spec_pan_milli() == old(self).spec_pan_milli(),
    {
        self.enabled = enabled;
    }

    /// Whether the source participates in mixing.
    pub fn is_enabled(&self) -> (r: bool)
        ensures
            r == self.spec_enabled(),
    {
        self.enabled
    }

    /// The source's duration in milliseconds (0 for a degenerate
    /// configuration or when the value does not fit).
    pub fn duration_ms(&self) -> (r: u64)
        ensures
            self.spec_sample_rate() > 0 && self.spec_channels() > 0 && (
            self.spec_samples().len() * 1000) as int / (self.spec_sample_rate() as int
                * self.spec_channels() as int) <= u64::MAX ==> r == (self.spec_samples().len()
                * 1000) as int / (self.spec_sample_rate() as int * self.spec_channels() as int),
            self.spec_sample_rate() == 0 || self.spec_channels() == 0 ==> r == 0,
    {
        if self.sample_rate == 0 || self.channels == 0 {
            return 0;
        }
        let n = self.samples.len();
        proof {
            vstd::arithmetic::mul::lemma_mul_upper_bound(
                n as int,
                0xFFFF_FFFF_FFFF_FFFF,
                1000,
                1000,
            );
            vstd::arithmetic::mul::lemma_mul_upper_bound(
                self.sample_rate as int,
                0xFFFF_FFFF,
                self.channels as int,
                0xFFFF,
            );
            vstd::arithmetic::mul::lemma_mul_strictly_positive(
                self.sample_rate as int,
                self.channels as int,
            );
        }
        let total: u128 = (n as u128) * 1000;
        let per_ms: u128 = (self.sample_rate as u128) * (self.channels as u128);
        let ms: u128 = total / per_ms;
        if ms <= u64::MAX as u128 {
            ms as u64
        } else {
            0
        }
    }
}

/// A field-for-field copy of a mixer source.
fn clone_source(s: &MixerSource) -> (r: MixerSource)
    ensures
        r.spec_id() == s.spec_id(),
        r.spec_samples() == s.spec_samples(),
        r.spec_sample_rate() == s.spec_sample_rate(),
        r.spec_channels() == s.spec_channels(),
        r.spec_volume_milli() == s.spec_volume_milli(),
        r.spec_pan_milli() == s.spec_pan_milli(),
        r.spec_enabled() == s.spec_enabled(),
{
    let samples = s.samples.clone();
    proof {
        assert(samples@ =~= s.samples@);
    }
    MixerSource {
        id: s.id.clone(),
        samples,
        sample_rate: s.sample_rate,
        channels: s.channels,
        volume_milli: s.volume_milli,
        pan_milli: s.pan_milli,
        enabled: s.enabled,
    }
}

/// The contribution of one source to output channel `i` at `time_ms`:
/// its sample `offset + i` when that falls inside the frame the source
/// yields at that time, 0 otherwise.
pub open spec fn spec_contribution(src: MixerSource, i: int, time_ms: int) -> int {
    let off = spec_time_offset(time_ms, src.spec_sample_rate() as int, src.spec_channels() as int);
    let upper = if off + src.spec_channels() as int <= src.spec_samples().len() {
        off + src.spec_channels() as int
    } else {
        src.spec_samples().len() as int
    };
    if off >= src.spec_samples().len() {
        0
    } else if off + i < upper {
        src.spec_samples()[off + i] as int
    } else {
        0
    }
}

/// The sum of the contributions of the first `k` sources to channel `i`.
pub open spec fn spec_mix_sum(sources: Seq<MixerSource>, k: int, i: int, time_ms: int) -> int
    decreases k,
{
    if k <= 0 {
        0
    } else {
        spec_mix_sum(sources, k - 1, i, time_ms) + spec_contribution(sources[k - 1], i, time_ms)
    }
}

/// A mixer that combines multiple sources into a single output frame.
pub struct Mixer {
    sources: Vec<MixerSource>,
    max_sources: usize,
    sample_rate: u32,
    channels: u16,
    volume_milli: u32,
}

impl Mixer {
    /// The source list never outgrows the capacity it was created with,
    /// which itself fits 32 bits.
    pub closed spec fn wf(&self) -> bool {
        &&& self.spec_sources().len() <= self.spec_max_sources()
        &&& self.spec_max_sources() <= u32::MAX
    }

    /// The held sources.
    pub closed spec fn spec_sources(&self) -> Seq<MixerSource> {
        self.sources@
    }

    /// The source capacity.
    pub closed spec fn spec_max_sources(&self) -> int {
        self.max_sources as int
    }

    /// The output sample rate.
    pub closed spec fn spec_sample_rate(&self) -> u32 {
        self.sample_rate
    }

    /// The output channel count.
    pub closed spec fn spec_channels(&self) -> u16 {
        self.channels
    }

    /// The master volume in thousandths.
    pub closed spec fn spec_volume_milli(&self) -> u32 {
        self.volume_milli
    }

    /// A mixer with default settings: 44100 Hz, stereo, at most 16
    /// sources.
    pub fn new() -> (m: Mixer)
        ensures
            m.wf(),
            m.spec_sources() == Seq::<MixerSource>::empty(),
            m.spec_max_sources() == 16,
            m.spec_sample_rate() == 44100,
            m.spec_channels() == 2,
            m.spec_volume_milli() == 1000,
    {
        Mixer::with_config(44100, 2, 16)
    }

    /// A mixer with the given configuration.
    pub fn with_config(sample_rate: u32, channels: u16, max_sources: u32) -> (m: Mixer)
        ensures
            m.wf(),
            m.spec_sources() == Seq::<MixerSource>::empty(),
            m.spec_max_sources() == max_sources,
            m.spec_sample_rate() == sample_rate,
            m.spec_channels() == channels,
            m.spec_volume_milli() == 1000,
    {
        Mixer {
            sources: Vec::new(),
            max_sources: max_sources as usize,
            sample_rate,
            channels,
            volume_milli: 1000,
        }
    }

    /// Adds a copy of the source; `AtCapacity` when the mixer is full,
    /// changing nothing.
    pub fn add_source(&mut self, source: &MixerSource) -> (r: Result<(), MixerError>)
        requires
            old(self).wf(),
        ensures
            final(self).wf(),
            old(self).spec_sources().len() >= old(self).spec_max_sources() ==> r == Err::<
                (),
                MixerError,
            >(MixerError::AtCapacity) && *final(self) == *old(self),
            old(self).spec_sources().len() < old(self).spec_max_sources() ==> {
                &&& r == Ok::<(), MixerError>(())
                &&& final(self).spec_sources().len() == old(self).spec_sources().len() + 1
                &&& final(self).spec_sources().take(old(self).spec_sources().len() as int)
                    == old(self).spec_sources()
                &&& final(self).spec_sources().last().spec_id() == source.spec_id()
                &&& final(self).spec_sources().last().spec_samples() == source.spec_samples()
            },
            final(self).spec_max_sources() == old(self).spec_max_sources(),
            final(self).spec_sample_rate() == old(self).spec_sample_rate(),
            final(self).spec_channels() == old(self).spec_channels(),
            final(self).spec_volume_milli() == old(self).spec_volume_milli(),
    {
        if self.sources.len() >= self.max_sources {
            return Err(MixerError::AtCapacity);
        }
        self.sources.push(clone_source(source));
        proof {
            assert(self.sources@.take(self.sources@.len() - 1) =~= old(self).sources@);
        }
        Ok(())
    }

    /// Removes the first source whose id matches; `SourceNotFound` when
    /// and only when none does.
    pub fn remove_source(&mut self, source_id: String) -> (r: Result<(), MixerError>)
        requires
            old(self).wf(),
        ensures
            final(self).wf(),
            (exists|p: int|
                0 <= p < old(self).spec_sources().len() && #[trigger] old(
                    self,
                ).spec_sources()[p].spec_id() == source_id@) ==> r is Ok,
            r is Ok ==> exists|p: int|
                {
                    &&& 0 <= p < old(self).spec_sources().len()
                    &&& #[trigger] old(self).spec_sources()[p].spec_id() == source_id@
                    &&& final(self).spec_sources() == old(self).spec_sources().remove(p)
                },
            r is Err ==> r == Err::<(), MixerError>(MixerError::SourceNotFound) && *final(self)
                == *old(self) && (forall|j: int|
                0 <= j < old(self).spec_sources().len() ==> old(self).spec_sources()[j].spec_id()
                    != source_id@),
            final(self).spec_max_sources() == old(self).spec_max_sources(),
            final(self).spec_sample_rate() == old(self).spec_sample_rate(),
            final(self).spec_channels() == old(self).spec_channels(),
            final(self).spec_volume_milli() == old(self).spec_volume_milli(),
    {
        let target = chars_of(source_id.as_str());
        let mut i: usize = 0;
        while i < self.sources.len()
            invariant
                i <= self.sources@.len(),
                target@ == source_id@,
                old(self).wf(),
                *self == *old(self),
                forall|j: int| 0 <= j < i ==> self.sources@[j].spec_id() != source_id@,
            decreases self.sources@.len() - i,
        {
            let candidate = chars_of(self.sources[i].id.as_str());
            if vecs_equal(&candidate, &target) {
                proof {
                    assert(old(self).spec_sources()[i as int].spec_id() == source_id@);
                }
                let _ = self.sources.remove(i);
                proof {
                    assert(self.spec_sources().len() == old(self).spec_sources().len() - 1);
                    assert(self.wf());
                    assert(exists|p: int|
                        0 <= p < old(self).spec_sources().len() && #[trigger] old(
                            self,
                        ).spec_sources()[p].spec_id() == source_id@ && self.spec_sources() == old(
                            self,
                        ).spec_sources().remove(p));
                }
                return Ok(());
            }
            i = i + 1;
        }
        Err(MixerError::SourceNotFound)
    }

    /// Copies of all held sources, in order.
    pub fn get_sources(&self) -> (out: Vec<MixerSource>)
        ensures
            out@.len() == self.spec_sources().len(),
            forall|i: int|
                0 <= i < out@.len() ==> #[trigger] out@[i].spec_id()
                    == self.spec_sources()[i].spec_id(),
    {
        let mut out: Vec<MixerSource> = Vec::new();
        let mut i: usize = 0;
        while i < self.sources.len()
            invariant
                i <= self.sources@.len(),
                out@.len() == i,
                forall|j: int|
                    0 <= j < i ==> #[trigger] out@[j].spec_id()
                        == self.sources@[j].spec_id(),
            decreases self.sources@.len() - i,
        {
            out.push(clone_source(&self.sources[i]));
            i = i + 1;
        }
        out
    }

    /// How many sources are held.
    pub fn get_source_count(&self) -> (n: usize)
        ensures
            n == self.spec_sources().len(),
    {
        self.sources.len()
    }

    /// Removes all sources.
    pub fn clear(&mut self)
        requires
            old(self).wf(),
        ensures
            final(self).wf(),
            final(self).spec_sources() == Seq::<MixerSource>::empty(),
            final(self).spec_max_sources() == old(self).spec_max_sources(),
            final(self).spec_sample_rate() == old(self).spec_sample_rate(),
            final(self).spec_channels() == old(self).spec_channels(),
            final(self).spec_volume_milli() == old(self).spec_volume_milli(),
    {
        self.sources.clear();
    }

    /// Mixes all sources at a time point into one output frame: the
    /// per-channel sum of every source's contribution, averaged over the
    /// number of sources and clamped to the sample range. An empty mixer
    /// yields an empty frame.
    pub fn sample_at(&self, time_ms: u32) -> (out: Vec<i16>)
        requires
            self.wf(),
        ensures
            self.spec_sources().len() == 0 ==> out@ == Seq::<i16>::empty(),
            self.spec_sources().len() > 0 ==> {
                &&& out@.len() == self.spec_channels() as int
                &&& forall|i: int|
                    0 <= i < out@.len() ==> #[trigger] out@[i] as int == {
                        let avg = div_trunc(
                            spec_mix_sum(
                                self.spec_sources(),
                                self.spec_sources().len() as int,
                                i,
                                time_ms as int,
                            ),
                            self.spec_sources().len() as int,
                        );
                        if avg < -32768 {
                            -32768int
                        } else if avg > 32767 {
                            32767int
                        } else {
                            avg
                        }
                    }
            },
    {
        let count = self.sources.len();
        if count == 0 {
            return Vec::new();
        }
        let ch = self.channels as usize;
        let mut mixed: Vec<i64> = Vec::new();
        let mut i: usize = 0;
        while i < ch
            invariant
                i <= ch,
                mixed@.len() == i,
                forall|t: int| 0 <= t < i ==> mixed@[t] == 0,
            decreases ch - i,
        {
            mixed.push(0i64);
            i = i + 1;
        }
        proof {
            assert forall|t: int| 0 <= t < ch implies mixed@[t] == spec_mix_sum(
                self.spec_sources(),
                0,
                t,
                time_ms as int,
            ) by {}
        }
        let mut k: usize = 0;
        while k < count
            invariant
                k <= count,
                count == self.spec_sources().len(),
                count <= u32::MAX,
                ch == self.spec_channels() as int,
                mixed@.len() == ch,
                forall|t: int|
                    0 <= t < ch ==> #[trigger] mixed@[t] == spec_mix_sum(
                        self.spec_sources(),
                        k as int,
                        t,
                        time_ms as int,
                    ),
                forall|t: int|
                    0 <= t < ch ==> -32768 * (k as int) <= #[trigger] mixed@[t] as int <= 32767
                        * (k as int),
            decreases count - k,
        {
            let frame = self.sources[k].get_samples_at(time_ms);
            let ghost src_k = self.spec_sources()[k as int];
            let ghost tm = time_ms as int;
            proof {
                let off = spec_time_offset(
                    tm,
                    src_k.spec_sample_rate() as int,
                    src_k.spec_channels() as int,
                );
                assert forall|u: int| 0 <= u < frame@.len() implies #[trigger] frame@[u] as int
                    == spec_contribution(src_k, u, tm) by {
                    assert(frame@[u] == src_k.spec_samples()[off + u]);
                }
                assert forall|u: int|
                    u >= frame@.len() implies #[trigger] spec_contribution(src_k, u, tm)
                    == 0 by {}
            }
            let ghost before = mixed@;
            let mut t: usize = 0;
            while t < ch
                invariant
                    t <= ch,
                    mixed@.len() == ch,
                    k < count,
                    count == self.spec_sources().len(),
                    src_k == self.spec_sources()[k as int],
                    tm == time_ms as int,
                    forall|u: int|
                        0 <= u < t ==> #[trigger] mixed@[u] as int == before[u]
                            + spec_contribution(src_k, u, tm),
                    forall|u: int| t <= u < ch ==> #[trigger] mixed@[u] == before[u],
                    forall|u: int|
                        0 <= u < ch ==> -32768 * (k as int) <= #[trigger] before[u] as int
                            <= 32767 * (k as int),
                    k as int + 1 <= u32::MAX,
                    forall|u: int|
                        0 <= u < frame@.len() ==> #[trigger] frame@[u] as int
                            == spec_contribution(src_k, u, tm),
                    forall|u: int|
                        u >= frame@.len() ==> #[trigger] spec_contribution(src_k, u, tm) == 0,
                decreases ch - t,
            {
                let add: i64 = if t < frame.len() {
                    frame[t] as i64
                } else {
                    proof {
                        assert(spec_contribution(src_k, t as int, tm) == 0);
                    }
                    0
                };
                proof {
                    assert(add as int == spec_contribution(src_k, t as int, tm));
                    assert(-32768 <= add <= 32767);
                }
                let cur = mixed[t];
                mixed.set(t, cur + add);
                t = t + 1;
            }
            proof {
                assert forall|t: int| 0 <= t < ch implies #[trigger] mixed@[t] == spec_mix_sum(
                    self.spec_sources(),
                    k as int + 1,
                    t,
                    time_ms as int,
                ) by {
                    assert(mixed@[t] as int == before[t] + spec_contribution(src_k, t, tm));
                    assert(spec_mix_sum(self.spec_sources(), k as int + 1, t, tm)
                        == spec_mix_sum(self.spec_sources(), k as int, t, tm)
                        + spec_contribution(self.spec_sources()[k as int], t, tm));
                }
            }
            k = k + 1;
        }
        let mut out: Vec<i16> = Vec::new();
        let mut t: usize = 0;
        while t < ch
            invariant
                t <= ch,
                ch == self.spec_channels() as int,
                count == self.spec_sources().len(),
                count >= 1,
                count <= u32::MAX,
                mixed@.len() == ch,
                forall|u: int|
                    0 <= u < ch ==> -32768 * (count as int) <= #[trigger] mixed@[u] as int
                        <= 32767 * (count as int),
                forall|u: int|
                    0 <= u < ch ==> #[trigger] mixed@[u] == spec_mix_sum(
                        self.spec_sources(),
                        count as int,
                        u,
                        time_ms as int,
                    ),
                out@.len() == t,
                forall|u: int|
                    0 <= u < t ==> #[trigger] out@[u] as int == {
                        let avg = div_trunc(
                            spec_mix_sum(
                                self.spec_sources(),
                                count as int,
                                u,
                                time_ms as int,
                            ),
                            count as int,
                        );
                        if avg < -32768 {
                            -32768int
                        } else if avg > 32767 {
                            32767int
                        } else {
                            avg
                        }
                    },
            decreases ch - t,
        {
            let sum = mixed[t];
            let avg = div_trunc_i64(sum, count as i64);
            let narrowed: i32 = if avg > 0x7FFF_FFFFi64 {
                0x7FFF_FFFFi32
            } else if avg < -0x8000_0000i64 {
                -0x8000_0000i32
            } else {
                avg as i32
            };
            out.push(clamp_to_sample(narrowed));
            t = t + 1;
        }
        out
    }

    /// Checks there is something to mix; `NoSources` otherwise.
    pub fn start_mixing(&self) -> (r: Result<(), MixerError>)
        ensures
            self.spec_sources().len() == 0 ==> r == Err::<(), MixerError>(MixerError::NoSources),
            self.spec_sources().len() > 0 ==> r == Ok::<(), MixerError>(()),
    {
        if self.sources.len() == 0 {
            return Err(MixerError::NoSources);
        }
        Ok(())
    }

    /// Stops mixing; nothing to do for a pull-based mixer.
    pub fn stop_mixing(&self) {
    }

    /// The output sample rate.
    pub fn get_sample_rate(&self) -> (r: u32)
        ensures
            r == self.spec_sample_rate(),
    {
        self.sample_rate
    }

    /// The output channel count.
    pub fn get_channels(&self) -> (r: u16)
        ensures
            r == self.spec_channels(),
    {
        self.channels
    }

    /// Sets the master volume in thousandths of full scale; above 1000
    /// is rejected before any state changes.
    pub fn set_master_volume_milli(&mut self, volume_milli: u32) -> (r: Result<(), ParamError>)
        ensures
            volume_milli <= 1000 ==> r == Ok::<(), ParamError>(()) && final(self).spec_volume_milli() == volume_milli,
            volume_milli > 1000 ==> r == Err::<(), ParamError>(ParamError::OutOfRange) && *final(self) == *old(self),
            final(self).spec_sources() == old(self).spec_sources(),
            final(self).spec_max_sources() == old(self).spec_max_sources(),
            final(self).spec_sample_rate() == old(self).spec_sample_rate(),
            final(self).spec_channels() == old(self).spec_channels(),
    {
        if volume_milli > 1000 {
            return Err(ParamError::OutOfRange);
        }
        self.volume_milli = volume_milli;
        Ok(())
    }

    /// The master volume in thousandths.
    pub fn get_master_volume_milli(&self) -> (r: u32)
        ensures
            r == self.spec_volume_milli(),
    {
        self.volume_milli
    }
}

/// Creates a mixer at the default configuration, optionally bounding
/// the number of sources (16 when absent).
pub fn mixer(max_sources: Option<u32>) -> (m: Mixer)
    ensures
        m.spec_sources() == Seq::<MixerSource>::empty(),
        m.spec_max_sources() == (match max_sources {
            Some(n) => n as int,
            None => 16,
        }),
        m.spec_sample_rate() == 44100,
        m.spec_channels() == 2,
        m.spec_volume_milli() == 1000,
{
    let cap = match max_sources {
        Some(n) => n,
        None => 16,
    };
    Mixer::with_config(44100, 2, cap)
}

} // verus!
