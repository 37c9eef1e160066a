//! Capture session: records from one input device into an in-memory
//! sample history, optionally mirroring into a bounded ring for consumers
//! that want streaming access, without output playback.
//!
//! As with the passthrough session, the hardware side lives outside this
//! crate: it feeds each captured block into
//! [`RecorderEngine::process_capture_block`]. Once recording, per-block
//! work is best-effort and never surfaces errors.

use vstd::prelude::*;

verus! {

use crate::buffer::SamplesBuffer;
use crate::meter::Levels;
use crate::meter::compute_levels;
use crate::meter::peak_of;
use crate::meter::rms_of;
use crate::ring::TransferBuffer;
use crate::ring::pop_remainder;
use crate::ring::pop_result;
use crate::ring::push_result;
use crate::types::AudioError;

/// The recorder state: the `recording` gate, the negotiated
/// configuration, the full capture history, and an optional bounded
/// mirror ring.
pub struct RecorderEngine {
    recording: bool,
    sample_rate: u32,
    channels: u16,
    history: Vec<i16>,
    mirror: Option<TransferBuffer>,
    levels: Levels,
    observer_registered: bool,
}

impl RecorderEngine {
    /// Whether a recording is in progress.
    pub closed spec fn spec_recording(&self) -> bool {
        self.recording
    }

    /// The negotiated sample rate.
    pub closed spec fn spec_sample_rate(&self) -> u32 {
        self.sample_rate
    }

    /// The negotiated channel count.
    pub closed spec fn spec_channels(&self) -> u16 {
        self.channels
    }

    /// The accumulated capture history, oldest first.
    pub closed spec fn spec_history(&self) -> Seq<i16> {
        self.history@
    }

    /// Whether a mirror ring has been allocated.
    pub closed spec fn has_mirror(&self) -> bool {
        self.mirror is Some
    }

    /// The samples currently waiting in the mirror ring.
    pub closed spec fn mirrored(&self) -> Seq<i16> {
        match self.mirror {
            Some(b) => b@,
            None => Seq::empty(),
        }
    }

    /// The mirror ring's capacity (0 when none is allocated).
    pub closed spec fn mirror_capacity(&self) -> nat {
        match self.mirror {
            Some(b) => b.spec_capacity(),
            None => 0,
        }
    }

    /// The latest level snapshot.
    pub closed spec fn spec_levels(&self) -> Levels {
        self.levels
    }

    /// Whether a level observer has been registered.
    pub closed spec fn spec_observer(&self) -> bool {
        self.observer_registered
    }

    /// Internal consistency of the mirror ring, if any.
    pub closed spec fn wf(&self) -> bool {
        match self.mirror {
            Some(b) => b.wf(),
            None => true,
        }
    }

    /// A fresh recorder: not recording, empty history, no mirror ring.
    pub fn new() -> (e: RecorderEngine)
        ensures
            e.wf(),
            !e.spec_recording(),
            e.spec_sample_rate() == 44100,
            e.spec_channels() == 1,
            e.spec_history() == Seq::<i16>::empty(),
            !e.has_mirror(),
            e.spec_levels().peak == 0,
            e.spec_levels().rms == 0,
            !e.spec_observer(),
    {
        RecorderEngine {
            recording: false,
            sample_rate: 44100,
            channels: 1,
            history: Vec::new(),
            mirror: None,
            levels: Levels::silent(),
            observer_registered: false,
        }
    }

    /// Allocates (or replaces) the mirror ring with the given capacity in
    /// samples. The underlying ring refuses a zero capacity, so that
    /// input is excluded.
    pub fn set_ring_buffer_size(&mut self, size_samples: u32)
        requires
            old(self).wf(),
            size_samples >= 1,
        ensures
            final(self).wf(),
            final(self).has_mirror(),
            final(self).mirrored() == Seq::<i16>::empty(),
            final(self).mirror_capacity() == size_samples,
            final(self).spec_recording() == old(self).spec_recording(),
            final(self).spec_sample_rate() == old(self).spec_sample_rate(),
            final(self).spec_channels() == old(self).spec_channels(),
            final(self).spec_history() == old(self).spec_history(),
            final(self).spec_levels() == old(self).spec_levels(),
            final(self).spec_observer() == old(self).spec_observer(),
    {
        self.mirror = Some(TransferBuffer::new(size_samples as usize));
    }

    /// Registers a level observer: from now on every captured block asks
    /// for a dispatch of its level snapshot.
    pub fn set_on_levels(&mut self)
        requires
            old(self).wf(),
        ensures
            final(self).wf(),
            final(self).spec_observer(),
            final(self).spec_recording() == old(self).spec_recording(),
            final(self).spec_sample_rate() == old(self).spec_sample_rate(),
            final(self).spec_channels() == old(self).spec_channels(),
            final(self).spec_history() == old(self).spec_history(),
            final(self).has_mirror() == old(self).has_mirror(),
            final(self).mirrored() == old(self).mirrored(),
            final(self).mirror_capacity() == old(self).mirror_capacity(),
            final(self).spec_levels() == old(self).spec_levels(),
    {
        self.observer_registered = true;
    }

    /// First phase of `start`: fails with `AlreadyRecording` if a
    /// recording is active (leaving the recorder exactly as before);
    /// otherwise adopts the negotiated configuration and clears the
    /// history for the new take, leaving the recorder not yet recording.
    pub fn prepare_start(&mut self, sample_rate: u32, channels: u16) -> (r: Result<
        (),
        AudioError,
    >)
        requires
            old(self).wf(),
        ensures
            final(self).wf(),
            old(self).spec_recording() ==> r == Err::<(), AudioError>(AudioError::AlreadyRecording)
                && *final(self) == *old(self),
            !old(self).spec_recording() ==> {
                &&& r == Ok::<(), AudioError>(())
                &&& !final(self).spec_recording()
                &&& final(self).spec_sample_rate() == sample_rate
                &&& final(self).spec_channels() == channels
                &&& final(self).spec_history() == Seq::<i16>::empty()
                &&& final(self).has_mirror() == old(self).has_mirror()
                &&& final(self).mirrored() == old(self).mirrored()
                &&& final(self).mirror_capacity() == old(self).mirror_capacity()
                &&& final(self).spec_levels() == old(self).spec_levels()
                &&& final(self).spec_observer() == old(self).spec_observer()
            },
    {
        if self.recording {
            return Err(AudioError::AlreadyRecording);
        }
        self.sample_rate = sample_rate;
        self.channels = channels;
        self.history.clear();
        Ok(())
    }

    /// Final phase of `start`: marks the recorder recording, once the
    /// input stream is confirmed started.
    pub fn commit_start(&mut self)
        requires
            old(self).wf(),
        ensures
            final(self).wf(),
            final(self).spec_recording(),
            final(self).spec_sample_rate() == old(self).spec_sample_rate(),
            final(self).spec_channels() == old(self).spec_channels(),
            final(self).spec_history() == old(self).spec_history(),
            final(self).has_mirror() == old(self).has_mirror(),
            final(self).mirrored() == old(self).mirrored(),
            final(self).mirror_capacity() == old(self).mirror_capacity(),
            final(self).spec_levels() == old(self).spec_levels(),
            final(self).spec_observer() == old(self).spec_observer(),
    {
        self.recording = true;
    }

    /// Stops recording: idempotent, never fails, and afterwards the
    /// recorder is never recording. The flag is lowered first so stale
    /// callbacks become no-ops; the owner then drops the input stream.
    /// History and mirror ring are kept for later reads.
    pub fn stop(&mut self)
        requires
            old(self).wf(),
        ensures
            final(self).wf(),
            !final(self).spec_recording(),
            !old(self).spec_recording() ==> *final(self) == *old(self),
            final(self).spec_sample_rate() == old(self).spec_sample_rate(),
            final(self).spec_channels() == old(self).spec_channels(),
            final(self).spec_history() == old(self).spec_history(),
            final(self).has_mirror() == old(self).has_mirror(),
            final(self).mirrored() == old(self).mirrored(),
            final(self).mirror_capacity() == old(self).mirror_capacity(),
            final(self).spec_levels() == old(self).spec_levels(),
            final(self).spec_observer() == old(self).spec_observer(),
    {
        if !self.recording {
            return ;
        }
        self.recording = false;
    }

    /// Whether a recording is in progress.
    pub fn is_recording(&self) -> (r: bool)
        ensures
            r == self.spec_recording(),
    {
        self.recording
    }

    /// Everything the input callback does with a captured block: when
    /// recording, append it to the history, mirror it into the ring if
    /// one is allocated, meter it, and say whether an observer dispatch
    /// is owed; when not recording, the callback is a no-op.
    pub fn process_capture_block(&mut self, samples: &[i16]) -> (dispatch: Option<Levels>)
        requires
            old(self).wf(),
        ensures
            final(self).wf(),
            !old(self).spec_recording() ==> *final(self) == *old(self) && dispatch is None,
            old(self).spec_recording() ==> {
                &&& final(self).spec_history() == old(self).spec_history() + samples@
                &&& old(self).has_mirror() ==> final(self).mirrored() == push_result(
                    old(self).mirrored(),
                    old(self).mirror_capacity(),
                    samples@,
                )
                &&& !old(self).has_mirror() ==> final(self).mirrored() == old(self).mirrored()
                &&& final(self).has_mirror() == old(self).has_mirror()
                &&& final(self).mirror_capacity() == old(self).mirror_capacity()
                &&& final(self).spec_levels().peak == peak_of(samples@)
                &&& final(self).spec_levels().rms == rms_of(samples@)
                &&& final(self).spec_recording()
                &&& final(self).spec_sample_rate() == old(self).spec_sample_rate()
                &&& final(self).spec_channels() == old(self).spec_channels()
                &&& final(self).spec_observer() == old(self).spec_observer()
                &&& dispatch == if old(self).spec_observer() {
                    Some(final(self).spec_levels())
                } else {
                    None::<Levels>
                }
            },
    {
        if !self.recording {
            return None;
        }
        let ghost prior = self.history@;
        self.history.extend_from_slice(samples);
        proof {
            assert(self.history@ =~= prior + samples@);
        }
        match &mut self.mirror {
            Some(b) => {
                let _ = b.push_slice(samples);
            },
            None => {},
        }
        let levels = compute_levels(samples);
        self.levels = levels;
        if self.observer_registered {
            Some(levels)
        } else {
            None
        }
    }

    /// A snapshot copy of the accumulated history as a channel/rate-
    /// tagged sample container.
    pub fn get_buffer(&self) -> (b: SamplesBuffer)
        ensures
            b.spec_channels() == self.spec_channels(),
            b.spec_sample_rate() == self.spec_sample_rate(),
            b.spec_samples() == self.spec_history(),
    {
        let samples = self.history.clone();
        proof {
            assert(samples@ =~= self.history@);
        }
        SamplesBuffer::new(self.channels, self.sample_rate, samples)
    }

    /// Drains whatever is currently waiting in the mirror ring;
    /// non-blocking, empty when no ring is allocated or nothing waits.
    pub fn get_ring_buffer_samples(&mut self) -> (out: Vec<i16>)
        requires
            old(self).wf(),
        ensures
            final(self).wf(),
            !old(self).has_mirror() ==> *final(self) == *old(self) && out@ == Seq::<i16>::empty(),
            old(self).has_mirror() ==> {
                &&& out@ == old(self).mirrored()
                &&& final(self).mirrored() == Seq::<i16>::empty()
                &&& final(self).has_mirror()
                &&& final(self).mirror_capacity() == old(self).mirror_capacity()
                &&& final(self).spec_recording() == old(self).spec_recording()
                &&& final(self).spec_sample_rate() == old(self).spec_sample_rate()
                &&& final(self).spec_channels() == old(self).spec_channels()
                &&& final(self).spec_history() == old(self).spec_history()
                &&& final(self).spec_levels() == old(self).spec_levels()
                &&& final(self).spec_observer() == old(self).spec_observer()
            },
    {
        match &mut self.mirror {
            Some(b) => {
                let ghost prior = b@;
                let avail = b.len();
                let out = b.pop(avail);
                proof {
                    assert(pop_result(prior, prior.len()) =~= prior);
                    assert(pop_remainder(prior, prior.len()) =~= Seq::<i16>::empty());
                }
                out
            },
            None => Vec::new(),
        }
    }

    /// Discards the accumulated history without stopping capture.
    pub fn clear(&mut self)
        requires
            old(self).wf(),
        ensures
            final(self).wf(),
            final(self).spec_history() == Seq::<i16>::empty(),
            final(self).spec_recording() == old(self).spec_recording(),
            final(self).spec_sample_rate() == old(self).spec_sample_rate(),
            final(self).spec_channels() == old(self).spec_channels(),
            final(self).has_mirror() == old(self).has_mirror(),
            final(self).mirrored() == old(self).mirrored(),
            final(self).mirror_capacity() == old(self).mirror_capacity(),
            final(self).spec_levels() == old(self).spec_levels(),
            final(self).spec_observer() == old(self).spec_observer(),
    {
        self.history.clear();
    }

    /// The negotiated sample rate.
    pub fn get_sample_rate(&self) -> (r: u32)
        ensures
            r == self.spec_sample_rate(),
    {
        self.sample_rate
    }

    /// The negotiated channel count.
    pub fn get_channels(&self) -> (r: u16)
        ensures
            r == self.spec_channels(),
    {
        self.channels
    }

    /// The latest level snapshot.
    pub fn get_levels(&self) -> (l: Levels)
        ensures
            l == self.spec_levels(),
    {
        self.levels
    }
}

} // verus!
