//! Device session for real-time passthrough: the state shared between the
//! session owner and the two hardware callbacks, and every decision those
//! callbacks make.
//!
//! The hardware side (device resolution, stream construction, the driver
//! threads themselves) lives outside this crate; it feeds captured blocks
//! into [`PassthroughEngine::process_input_block`] and drains playback
//! blocks from [`PassthroughEngine::fill_output_block`]. The lifecycle is
//! two-phase so that a failed start never leaves a half-initialized
//! session: `prepare_start` allocates, `commit_start` flips the running
//! flag only after both hardware streams are confirmed started, and
//! `abort_start` releases everything `prepare_start` allocated.

use vstd::prelude::*;

verus! {

use crate::meter::Levels;
use crate::meter::compute_levels;
use crate::meter::peak_of;
use crate::meter::rms_of;
use crate::ring::TransferBuffer;
use crate::ring::pop_result;
use crate::ring::pop_remainder;
use crate::ring::push_result;
use crate::types::AudioError;

/// Transfer-buffer sizing: the samples produced in one latency window,
/// times a safety factor of 4 to absorb jitter between the producer and
/// consumer callback cadences; at least 1.
pub open spec fn spec_transfer_capacity(sample_rate: u32, channels: u16, latency_ms: u32) -> int {
    let raw = sample_rate * channels * latency_ms / 1000 * 4;
    if raw < 1 {
        1
    } else {
        raw
    }
}

/// Computes the transfer-buffer capacity for a negotiated configuration,
/// or reports that it cannot be represented on this machine.
pub fn transfer_capacity(sample_rate: u32, channels: u16, latency_ms: u32) -> (r: Option<usize>)
    ensures
        spec_transfer_capacity(sample_rate, channels, latency_ms) <= usize::MAX ==> r == Some(
            spec_transfer_capacity(sample_rate, channels, latency_ms) as usize,
        ),
        spec_transfer_capacity(sample_rate, channels, latency_ms) > usize::MAX ==> r is None,
        r is Some ==> r->0 >= 1,
{
    proof {
        vstd::arithmetic::mul::lemma_mul_upper_bound(
            sample_rate as int,
            0xFFFF_FFFF,
            channels as int,
            0xFFFF,
        );
    }
    let per_frame: u128 = (sample_rate as u128) * (channels as u128);
    proof {
        vstd::arithmetic::mul::lemma_mul_upper_bound(
            per_frame as int,
            0xFFFF_FFFFint * 0xFFFF,
            latency_ms as int,
            0xFFFF_FFFF,
        );
    }
    let scaled: u128 = per_frame * (latency_ms as u128);
    proof {
        vstd::arithmetic::div_mod::lemma_div_nonincreasing(scaled as int, 1000);
        vstd::arithmetic::div_mod::lemma_div_pos_is_pos(scaled as int, 1000);
    }
    let window: u128 = scaled / 1000 * 4;
    let raw: u128 = if window < 1 {
        1
    } else {
        window
    };
    if raw <= usize::MAX as u128 {
        Some(raw as usize)
    } else {
        None
    }
}

/// The passthrough session state: one `running` gate, the negotiated
/// configuration, the transfer buffer between the two callbacks, and the
/// latest level snapshot.
pub struct PassthroughEngine {
    running: bool,
    sample_rate: u32,
    channels: u16,
    buffer: Option<TransferBuffer>,
    levels: Levels,
    observer_registered: bool,
}

impl PassthroughEngine {
    /// Whether the session is running (both streams started, not stopped).
    pub closed spec fn spec_running(&self) -> bool {
        self.running
    }

    /// The negotiated sample rate.
    pub closed spec fn spec_sample_rate(&self) -> u32 {
        self.sample_rate
    }

    /// The negotiated channel count.
    pub closed spec fn spec_channels(&self) -> u16 {
        self.channels
    }

    /// The latest level snapshot.
    pub closed spec fn spec_levels(&self) -> Levels {
        self.levels
    }

    /// Whether a transfer buffer is currently allocated.
    pub closed spec fn has_buffer(&self) -> bool {
        self.buffer is Some
    }

    /// The samples currently queued from input to output, oldest first.
    pub closed spec fn buffered(&self) -> Seq<i16> {
        match self.buffer {
            Some(b) => b@,
            None => Seq::empty(),
        }
    }

    /// The allocated transfer buffer's capacity (0 when none is allocated).
    pub closed spec fn buffer_capacity(&self) -> nat {
        match self.buffer {
            Some(b) => b.spec_capacity(),
            None => 0,
        }
    }

    /// Whether a level observer has been registered.
    pub closed spec fn spec_observer(&self) -> bool {
        self.observer_registered
    }

    /// Internal consistency of the allocated buffer, if any.
    pub closed spec fn wf(&self) -> bool {
        match self.buffer {
            Some(b) => b.wf(),
            None => true,
        }
    }

    /// A fresh, stopped session with the default configuration.
    pub fn new() -> (e: PassthroughEngine)
        ensures
            e.wf(),
            !e.spec_running(),
            e.spec_sample_rate() == 44100,
            e.spec_channels() == 1,
            !e.has_buffer(),
            e.spec_levels().peak == 0,
            e.spec_levels().rms == 0,
            !e.spec_observer(),
    {
        PassthroughEngine {
            running: false,
            sample_rate: 44100,
            channels: 1,
            buffer: None,
            levels: Levels::silent(),
            observer_registered: false,
        }
    }

    /// Registers a level observer: from now on every processed input
    /// block asks for a dispatch of its level snapshot.
    pub fn set_on_levels(&mut self)
        requires
            old(self).wf(),
        ensures
            final(self).wf(),
            final(self).spec_observer(),
            final(self).spec_running() == old(self).spec_running(),
            final(self).spec_sample_rate() == old(self).spec_sample_rate(),
            final(self).spec_channels() == old(self).spec_channels(),
            final(self).has_buffer() == old(self).has_buffer(),
            final(self).buffered() == old(self).buffered(),
            final(self).buffer_capacity() == old(self).buffer_capacity(),
            final(self).spec_levels() == old(self).spec_levels(),
    {
        self.observer_registered = true;
    }

    /// First phase of `start`: adopts the negotiated configuration and
    /// allocates the transfer buffer, leaving the session not yet running.
    /// Fails with `AlreadyRunning` if a session is active, and with
    /// `ConfigurationError` if the buffer cannot be represented; on any
    /// failure the session is exactly as before.
    pub fn prepare_start(&mut self, sample_rate: u32, channels: u16, latency_ms: u32) -> (r:
        Result<(), AudioError>)
        requires
            old(self).wf(),
        ensures
            final(self).wf(),
            old(self).spec_running() ==> r == Err::<(), AudioError>(AudioError::AlreadyRunning)
                && *final(self) == *old(self),
            !old(self).spec_running() && spec_transfer_capacity(sample_rate, channels, latency_ms)
                > usize::MAX ==> r == Err::<(), AudioError>(AudioError::ConfigurationError)
                && *final(self) == *old(self),
            !old(self).spec_running() && spec_transfer_capacity(sample_rate, channels, latency_ms)
                <= usize::MAX ==> {
                &&& r == Ok::<(), AudioError>(())
                &&& !final(self).spec_running()
                &&& final(self).spec_sample_rate() == sample_rate
                &&& final(self).spec_channels() == channels
                &&& final(self).has_buffer()
                &&& final(self).buffered() == Seq::<i16>::empty()
                &&& final(self).buffer_capacity() == spec_transfer_capacity(
                    sample_rate,
                    channels,
                    latency_ms,
                )
                &&& final(self).spec_levels() == old(self).spec_levels()
                &&& final(self).spec_observer() == old(self).spec_observer()
            },
    {
        if self.running {
            return Err(AudioError::AlreadyRunning);
        }
        match transfer_capacity(sample_rate, channels, latency_ms) {
            None => Err(AudioError::ConfigurationError),
            Some(cap) => {
                self.sample_rate = sample_rate;
                self.channels = channels;
                self.buffer = Some(TransferBuffer::new(cap));
                Ok(())
            },
        }
    }

    /// Final phase of `start`: marks the session running. Called only
    /// after both hardware streams are confirmed started, so a stale
    /// callback can never observe `running` before the streams exist.
    pub fn commit_start(&mut self)
        requires
            old(self).wf(),
        ensures
            final(self).wf(),
            final(self).spec_running(),
            final(self).spec_sample_rate() == old(self).spec_sample_rate(),
            final(self).spec_channels() == old(self).spec_channels(),
            final(self).has_buffer() == old(self).has_buffer(),
            final(self).buffered() == old(self).buffered(),
            final(self).buffer_capacity() == old(self).buffer_capacity(),
            final(self).spec_levels() == old(self).spec_levels(),
            final(self).spec_observer() == old(self).spec_observer(),
    {
        self.running = true;
    }

    /// Releases whatever `prepare_start` allocated after a later start
    /// step failed, so the error is returned with no partially-constructed
    /// state left behind.
    pub fn abort_start(&mut self)
        requires
            old(self).wf(),
        ensures
            final(self).wf(),
            !final(self).spec_running(),
            !final(self).has_buffer(),
            final(self).buffered() == Seq::<i16>::empty(),
            final(self).spec_sample_rate() == old(self).spec_sample_rate(),
            final(self).spec_channels() == old(self).spec_channels(),
            final(self).spec_levels() == old(self).spec_levels(),
            final(self).spec_observer() == old(self).spec_observer(),
    {
        self.running = false;
        self.buffer = None;
    }

    /// Stops the session: idempotent, a no-op when not running. The
    /// running flag is lowered first, so in-flight callbacks observe it
    /// and exit early; the owner then drops the hardware streams and this
    /// releases the transfer buffer. Stopping never fails and afterwards
    /// the session is never running — calling it twice, or before any
    /// start, is harmless.
    pub fn stop(&mut self)
        requires
            old(self).wf(),
        ensures
            final(self).wf(),
            !final(self).spec_running(),
            !old(self).spec_running() ==> *final(self) == *old(self),
            old(self).spec_running() ==> !final(self).has_buffer() && final(self).buffered()
                == Seq::<i16>::empty(),
            final(self).spec_sample_rate() == old(self).spec_sample_rate(),
            final(self).spec_channels() == old(self).spec_channels(),
            final(self).spec_levels() == old(self).spec_levels(),
            final(self).spec_observer() == old(self).spec_observer(),
    {
        if !self.running {
            return ;
        }
        self.running = false;
        self.buffer = None;
    }

    /// Everything the input callback does with a captured block: when
    /// running, meter the block, store the snapshot, queue the samples for
    /// the output side, and say whether an observer dispatch is owed; when
    /// not running, the callback is a no-op.
    pub fn process_input_block(&mut self, samples: &[i16]) -> (dispatch: Option<Levels>)
        requires
            old(self).wf(),
        ensures
            final(self).wf(),
            !old(self).spec_running() ==> *final(self) == *old(self) && dispatch is None,
            old(self).spec_running() ==> {
                &&& final(self).spec_levels().peak == peak_of(samples@)
                &&& final(self).spec_levels().rms == rms_of(samples@)
                &&& old(self).has_buffer() ==> final(self).buffered() == push_result(
                    old(self).buffered(),
                    old(self).buffer_capacity(),
                    samples@,
                )
                &&& !old(self).has_buffer() ==> final(self).buffered() == old(self).buffered()
                &&& final(self).has_buffer() == old(self).has_buffer()
                &&& final(self).buffer_capacity() == old(self).buffer_capacity()
                &&& final(self).spec_running()
                &&& final(self).spec_sample_rate() == old(self).spec_sample_rate()
                &&& final(self).spec_channels() == old(self).spec_channels()
                &&& final(self).spec_observer() == old(self).spec_observer()
                &&& dispatch == if old(self).spec_observer() {
                    Some(final(self).spec_levels())
                } else {
                    None::<Levels>
                }
            },
    {
        if !self.running {
            return None;
        }
        let levels = compute_levels(samples);
        self.levels = levels;
        match &mut self.buffer {
            Some(b) => {
                let _ = b.push_slice(samples);
            },
            None => {},
        }
        if self.observer_registered {
            Some(levels)
        } else {
            None
        }
    }

    /// Everything the output callback does: it always delivers exactly
    /// `count` samples within its deadline. When the session is not
    /// running, or no buffer exists, that is pure silence; otherwise it is
    /// whatever is queued, padded with silence on underrun.
    pub fn fill_output_block(&mut self, count: usize) -> (out: Vec<i16>)
        requires
            old(self).wf(),
        ensures
            final(self).wf(),
            out@.len() == count,
            !(old(self).spec_running() && old(self).has_buffer()) ==> *final(self) == *old(self)
                && out@ == Seq::new(count as nat, |i: int| 0i16),
            old(self).spec_running() && old(self).has_buffer() ==> {
                &&& out@ == pop_result(old(self).buffered(), count as nat)
                &&& final(self).buffered() == pop_remainder(old(self).buffered(), count as nat)
                &&& final(self).has_buffer()
                &&& final(self).buffer_capacity() == old(self).buffer_capacity()
                &&& final(self).spec_running() == old(self).spec_running()
                &&& final(self).spec_sample_rate() == old(self).spec_sample_rate()
                &&& final(self).spec_channels() == old(self).spec_channels()
                &&& final(self).spec_levels() == old(self).spec_levels()
                &&& final(self).spec_observer() == old(self).spec_observer()
            },
    {
        if !self.running {
            return silence(count);
        }
        match &mut self.buffer {
            Some(b) => b.pop(count),
            None => silence(count),
        }
    }

    /// Whether the session is running.
    pub fn is_running(&self) -> (r: bool)
        ensures
            r == self.spec_running(),
    {
        self.running
    }

    /// The latest level snapshot; always available, never blocks.
    pub fn get_levels(&self) -> (l: Levels)
        ensures
            l == self.spec_levels(),
    {
        self.levels
    }

    /// The negotiated sample rate.
    pub fn get_sample_rate(&self) -> (r: u32)
        ensures
            r == self.spec_sample_rate(),
    {
        self.sample_rate
    }

    /// The negotiated channel count.
    pub fn get_channels(&self) -> (r: u16)
        ensures
            r == self.spec_channels(),
    {
        self.channels
    }
}

/// A block of digital silence.
pub fn silence(count: usize) -> (out: Vec<i16>)
    ensures
        out@ == Seq::new(count as nat, |i: int| 0i16),
{
    let mut out: Vec<i16> = Vec::new();
    let mut i: usize = 0;
    while i < count
        invariant
            i <= count,
            out@ =~= Seq::new(i as nat, |j: int| 0i16),
        decreases count - i,
    {
        out.push(0i16);
        proof {
            assert(out@ =~= Seq::new((i + 1) as nat, |j: int| 0i16));
        }
        i = i + 1;
    }
    proof {
        assert(out@ =~= Seq::new(count as nat, |j: int| 0i16));
    }
    out
}

} // verus!
