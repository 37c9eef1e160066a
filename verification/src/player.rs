//! Player lifecycle and position tracking: every decision the audio
//! player makes, free of the playback hardware.
//!
//! The playback layer outside this crate owns the sink and decoder; it
//! reports loads and supplies the current wall-clock time in
//! nanoseconds. Position is tracked from wall-clock timestamps with
//! explicit pause accounting (saturating subtraction of accumulated
//! paused time), so reported positions are best-effort, not
//! sample-accurate.

use vstd::prelude::*;

verus! {

use crate::types::ParamError;
use crate::types::PlayError;
use crate::types::PlaybackState;
use crate::types::SeekError;

/// `a - b`, floored at zero: how elapsed times are formed so that clock
/// adjustments never underflow.
pub open spec fn saturating_sub(a: int, b: int) -> int {
    if a >= b {
        a - b
    } else {
        0
    }
}

/// The player state: lifecycle, volume, what is loaded, and the
/// wall-clock bookkeeping for position reporting.
pub struct PlayerEngine {
    state: PlaybackState,
    volume_milli: u32,
    duration_ms: u64,
    has_file: bool,
    has_buffer: bool,
    initialized: bool,
    start_ns: Option<u128>,
    total_paused_ns: u128,
}

impl PlayerEngine {
    /// The lifecycle state.
    pub closed spec fn spec_state(&self) -> PlaybackState {
        self.state
    }

    /// The volume, in thousandths of full scale.
    pub closed spec fn spec_volume_milli(&self) -> u32 {
        self.volume_milli
    }

    /// The loaded take's duration in milliseconds.
    pub closed spec fn spec_duration_ms(&self) -> u64 {
        self.duration_ms
    }

    /// Whether a file is loaded.
    pub closed spec fn spec_has_file(&self) -> bool {
        self.has_file
    }

    /// Whether an in-memory buffer is loaded.
    pub closed spec fn spec_has_buffer(&self) -> bool {
        self.has_buffer
    }

    /// Whether the player was ever initialized by a load.
    pub closed spec fn spec_initialized(&self) -> bool {
        self.initialized
    }

    /// The reference timestamp: playback start while playing, pause
    /// start while paused.
    pub closed spec fn spec_start_ns(&self) -> Option<u128> {
        self.start_ns
    }

    /// Accumulated paused time.
    pub closed spec fn spec_total_paused_ns(&self) -> u128 {
        self.total_paused_ns
    }

    /// A fresh player: stopped, nothing loaded, full volume.
    pub fn new() -> (p: PlayerEngine)
        ensures
            p.spec_state() == PlaybackState::Stopped,
            p.spec_volume_milli() == 1000,
            p.spec_duration_ms() == 0,
            !p.spec_has_file(),
            !p.spec_has_buffer(),
            !p.spec_initialized(),
            p.spec_start_ns() is None,
            p.spec_total_paused_ns() == 0,
    {
        PlayerEngine {
            state: PlaybackState::Stopped,
            volume_milli: 1000,
            duration_ms: 0,
            has_file: false,
            has_buffer: false,
            initialized: false,
            start_ns: None,
            total_paused_ns: 0,
        }
    }

    /// Records a successful file load: the previous take is gone, the
    /// new duration adopted, and the player is ready to play.
    pub fn load_file_done(&mut self, duration_ms: u64)
        ensures
            final(self).spec_state() == PlaybackState::Loaded,
            final(self).spec_duration_ms() == duration_ms,
            final(self).spec_has_file(),
            !final(self).spec_has_buffer(),
            final(self).spec_initialized(),
            final(self).spec_start_ns() is None,
            final(self).spec_total_paused_ns() == 0,
            final(self).spec_volume_milli() == old(self).spec_volume_milli(),
    {
        self.initialized = true;
        self.state = PlaybackState::Loaded;
        self.duration_ms = duration_ms;
        self.has_file = true;
        self.has_buffer = false;
        self.start_ns = None;
        self.total_paused_ns = 0;
    }

    /// Records a successful buffer load, as `load_file_done`.
    pub fn load_buffer_done(&mut self, duration_ms: u64)
        ensures
            final(self).spec_state() == PlaybackState::Loaded,
            final(self).spec_duration_ms() == duration_ms,
            !final(self).spec_has_file(),
            final(self).spec_has_buffer(),
            final(self).spec_initialized(),
            final(self).spec_start_ns() is None,
            final(self).spec_total_paused_ns() == 0,
            final(self).spec_volume_milli() == old(self).spec_volume_milli(),
    {
        self.initialized = true;
        self.state = PlaybackState::Loaded;
        self.duration_ms = duration_ms;
        self.has_file = false;
        self.has_buffer = true;
        self.start_ns = None;
        self.total_paused_ns = 0;
    }

    /// Starts or resumes playback at wall-clock time `now_ns`. Fails
    /// when nothing is loaded, changing nothing. Resuming from pause
    /// adds the paused interval to the pause account; any other start
    /// resets the account.
    pub fn play(&mut self, now_ns: u128) -> (r: Result<(), PlayError>)
        ensures
            !old(self).spec_has_file() && !old(self).spec_has_buffer() ==> r == Err::<
                (),
                PlayError,
            >(PlayError::NotLoaded) && *final(self) == *old(self),
            old(self).spec_has_file() || old(self).spec_has_buffer() ==> {
                &&& r == Ok::<(), PlayError>(())
                &&& final(self).spec_state() == PlaybackState::Playing
                &&& final(self).spec_start_ns() == Some(now_ns)
                &&& (if old(self).spec_state() == PlaybackState::Paused {
                    final(self).spec_total_paused_ns() as int == {
                        let paused = match old(self).spec_start_ns() {
                            Some(pause_start) => saturating_sub(now_ns as int, pause_start as int),
                            None => 0,
                        };
                        if old(self).spec_total_paused_ns() + paused <= u128::MAX {
                            old(self).spec_total_paused_ns() + paused
                        } else {
                            u128::MAX as int
                        }
                    }
                } else {
                    final(self).spec_total_paused_ns() == 0
                })
                &&& final(self).spec_duration_ms() == old(self).spec_duration_ms()
                &&& final(self).spec_volume_milli() == old(self).spec_volume_milli()
                &&& final(self).spec_has_file() == old(self).spec_has_file()
                &&& final(self).spec_has_buffer() == old(self).spec_has_buffer()
                &&& final(self).spec_initialized() == old(self).spec_initialized()
            },
    {
        if !self.has_buffer && !self.has_file {
            return Err(PlayError::NotLoaded);
        }
        if self.state == PlaybackState::Paused {
            match self.start_ns {
                Some(pause_start) => {
                    let paused: u128 = if now_ns >= pause_start {
                        now_ns - pause_start
                    } else {
                        0
                    };
                    // The pause account grows by at most the current
                    // clock reading, which cannot overflow in practice;
                    // saturate rather than fail in the audio path.
                    self.total_paused_ns = if self.total_paused_ns <= u128::MAX - paused {
                        self.total_paused_ns + paused
                    } else {
                        u128::MAX
                    };
                },
                None => {},
            }
        } else {
            self.total_paused_ns = 0;
        }
        self.start_ns = Some(now_ns);
        self.state = PlaybackState::Playing;
        Ok(())
    }

    /// Pauses playback at wall-clock time `now_ns`: a no-op when already
    /// paused or stopped; otherwise the pause start is recorded.
    pub fn pause(&mut self, now_ns: u128)
        ensures
            old(self).spec_state() == PlaybackState::Paused || old(self).spec_state()
                == PlaybackState::Stopped ==> *final(self) == *old(self),
            old(self).spec_state() != PlaybackState::Paused && old(self).spec_state()
                != PlaybackState::Stopped ==> {
                &&& final(self).spec_state() == PlaybackState::Paused
                &&& final(self).spec_start_ns() == Some(now_ns)
                &&& final(self).spec_total_paused_ns() == old(self).spec_total_paused_ns()
                &&& final(self).spec_duration_ms() == old(self).spec_duration_ms()
                &&& final(self).spec_volume_milli() == old(self).spec_volume_milli()
                &&& final(self).spec_has_file() == old(self).spec_has_file()
                &&& final(self).spec_has_buffer() == old(self).spec_has_buffer()
                &&& final(self).spec_initialized() == old(self).spec_initialized()
            },
    {
        if self.state == PlaybackState::Paused || self.state == PlaybackState::Stopped {
            return ;
        }
        self.start_ns = Some(now_ns);
        self.state = PlaybackState::Paused;
    }

    /// Stops playback and unloads the take. Fails only when the player
    /// was never initialized by a load, changing nothing.
    pub fn stop(&mut self) -> (r: Result<(), PlayError>)
        ensures
            !old(self).spec_initialized() ==> r == Err::<(), PlayError>(PlayError::NotLoaded)
                && *final(self) == *old(self),
            old(self).spec_initialized() ==> {
                &&& r == Ok::<(), PlayError>(())
                &&& final(self).spec_state() == PlaybackState::Stopped
                &&& !final(self).spec_has_file()
                &&& !final(self).spec_has_buffer()
                &&& final(self).spec_start_ns() is None
                &&& final(self).spec_total_paused_ns() == 0
                &&& final(self).spec_duration_ms() == old(self).spec_duration_ms()
                &&& final(self).spec_volume_milli() == old(self).spec_volume_milli()
                &&& final(self).spec_initialized() == old(self).spec_initialized()
            },
    {
        if !self.initialized {
            return Err(PlayError::NotLoaded);
        }
        self.start_ns = None;
        self.total_paused_ns = 0;
        self.has_buffer = false;
        self.has_file = false;
        self.state = PlaybackState::Stopped;
        Ok(())
    }

    /// Sets the volume, in thousandths of full scale; values above 1000
    /// are rejected before any state changes.
    pub fn set_volume_milli(&mut self, volume_milli: u32) -> (r: Result<(), ParamError>)
        ensures
            volume_milli <= 1000 ==> r == Ok::<(), ParamError>(()) && final(self).spec_volume_milli() == volume_milli,
            volume_milli > 1000 ==> r == Err::<(), ParamError>(ParamError::OutOfRange) && *final(self) == *old(self),
            final(self).spec_state() == old(self).spec_state(),
            final(self).spec_duration_ms() == old(self).spec_duration_ms(),
            final(self).spec_has_file() == old(self).spec_has_file(),
            final(self).spec_has_buffer() == old(self).spec_has_buffer(),
            final(self).spec_initialized() == old(self).spec_initialized(),
            final(self).spec_start_ns() == old(self).spec_start_ns(),
            final(self).spec_total_paused_ns() == old(self).spec_total_paused_ns(),
    {
        if volume_milli > 1000 {
            return Err(ParamError::OutOfRange);
        }
        self.volume_milli = volume_milli;
        Ok(())
    }

    /// Seeks to `position_ms` at wall-clock time `now_ns` and resumes
    /// playing from there. Rejected past the duration, or when nothing
    /// is loaded; failures change nothing. On success the clock is
    /// rewound so the elapsed time reads as the seek position.
    pub fn seek_to(&mut self, position_ms: u64, now_ns: u128) -> (r: Result<(), SeekError>)
        ensures
            position_ms > old(self).spec_duration_ms() ==> r == Err::<(), SeekError>(
                SeekError::OutOfBounds,
            ) && *final(self) == *old(self),
            position_ms <= old(self).spec_duration_ms() && !old(self).spec_has_file() && !old(self).spec_has_buffer() ==> r == Err::<(), SeekError>(SeekError::NotSeekable) && *final(self) == *old(self),
            position_ms <= old(self).spec_duration_ms() && (old(self).spec_has_file() || old(self).spec_has_buffer()) ==> {
                &&& r == Ok::<(), SeekError>(())
                &&& final(self).spec_state() == PlaybackState::Playing
                &&& final(self).spec_start_ns() == Some(
                    saturating_sub(
                        now_ns as int,
                        position_ms as int * 1_000_000,
                    ) as u128,
                )
                &&& final(self).spec_total_paused_ns() == 0
                &&& final(self).spec_duration_ms() == old(self).spec_duration_ms()
                &&& final(self).spec_volume_milli() == old(self).spec_volume_milli()
                &&& final(self).spec_has_file() == old(self).spec_has_file()
                &&& final(self).spec_has_buffer() == old(self).spec_has_buffer()
                &&& final(self).spec_initialized() == old(self).spec_initialized()
            },
    {
        if position_ms > self.duration_ms {
            return Err(SeekError::OutOfBounds);
        }
        if !self.has_file && !self.has_buffer {
            return Err(SeekError::NotSeekable);
        }
        let position_ns: u128 = (position_ms as u128) * 1_000_000;
        self.start_ns = Some(
            if now_ns >= position_ns {
                now_ns - position_ns
            } else {
                0
            },
        );
        self.total_paused_ns = 0;
        self.state = PlaybackState::Playing;
        Ok(())
    }

    /// The elapsed playing time at wall-clock time `now_ns`, in
    /// nanoseconds: time since the reference timestamp minus the pause
    /// account, floored at zero; 0 when no playback was ever started.
    pub fn current_time_ns(&self, now_ns: u128) -> (r: u128)
        ensures
            self.spec_start_ns() is None ==> r == 0,
            self.spec_start_ns() is Some ==> r == saturating_sub(
                saturating_sub(now_ns as int, self.spec_start_ns()->0 as int),
                self.spec_total_paused_ns() as int,
            ),
    {
        match self.start_ns {
            None => 0,
            Some(start) => {
                let since: u128 = if now_ns >= start {
                    now_ns - start
                } else {
                    0
                };
                if since >= self.total_paused_ns {
                    since - self.total_paused_ns
                } else {
                    0
                }
            },
        }
    }

    /// Whether the player is in the playing state.
    pub fn is_playing(&self) -> (r: bool)
        ensures
            r == (self.spec_state() == PlaybackState::Playing),
    {
        self.state == PlaybackState::Playing
    }

    /// The lifecycle state.
    pub fn get_state(&self) -> (r: PlaybackState)
        ensures
            r == self.spec_state(),
    {
        self.state
    }

    /// The volume, in thousandths of full scale.
    pub fn get_volume_milli(&self) -> (r: u32)
        ensures
            r == self.spec_volume_milli(),
    {
        self.volume_milli
    }

    /// The loaded take's duration in milliseconds.
    pub fn get_duration_ms(&self) -> (r: u64)
        ensures
            r == self.spec_duration_ms(),
    {
        self.duration_ms
    }
}

} // verus!
