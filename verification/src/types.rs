//! Shared data types: device descriptions, stream configurations, playback
//! state, and the error taxonomy.

use vstd::prelude::*;

verus! {

/// Audio sample rate (typically 44100 or 48000 Hz).
pub type SampleRate = u32;

/// Audio channel count (1 = mono, 2 = stereo, and so on).
pub type ChannelCount = u16;

/// Why a session or recorder failed to start. Setup-time failures are the
/// only errors this engine reports: once running, overrun and underrun
/// degrade to data loss or silence and are never surfaced.
#[derive(Clone, Copy, Debug, PartialEq, Eq, Structural)]
pub enum AudioError {
    /// A passthrough session is already active.
    AlreadyRunning,
    /// A recording is already in progress.
    AlreadyRecording,
    /// The device id string is not of the form `"<host>:<index>"` with a
    /// numeric index.
    InvalidDeviceId,
    /// No device matched the requested id, or no default device exists.
    DeviceNotFound,
    /// The device's default configuration is unavailable or unusable.
    ConfigurationError,
    /// A hardware stream could not be built or started.
    StreamStartError,
}

/// One enumerable audio endpoint.
#[derive(Clone, Debug)]
pub struct AudioDeviceInfo {
    /// Unique id across hosts, of the form `"<host>:<index>"`.
    pub id: String,
    /// Human-readable device name.
    pub name: String,
    /// The host backend this device belongs to.
    pub host: String,
    /// Whether this is the host's default device for its direction.
    pub is_default: bool,
}

/// One host backend (such as ALSA or WASAPI).
#[derive(Clone, Debug)]
pub struct AudioHostInfo {
    /// The backend identifier.
    pub id: String,
    /// A display name for the backend.
    pub name: String,
}

/// Lists of enumerable input devices.
pub type InputDevices = Vec<AudioDeviceInfo>;

/// Lists of enumerable output devices.
pub type OutputDevices = Vec<AudioDeviceInfo>;

/// Player lifecycle state.
#[derive(Clone, Copy, Debug, PartialEq, Eq, Structural)]
pub enum PlaybackState {
    Stopped,
    Loaded,
    Playing,
    Paused,
}

/// A parameter outside its documented range, rejected before any state
/// changes.
#[derive(Clone, Copy, Debug, PartialEq, Eq, Structural)]
pub enum ParamError {
    OutOfRange,
}

/// Errors from queue operations.
#[derive(Clone, Copy, Debug, PartialEq, Eq, Structural)]
pub enum QueueError {
    /// No queued source has the given id.
    SourceNotFound,
    /// The cursor is past the last queued source.
    QueueEmpty,
    /// The requested cursor position is past the end.
    IndexOutOfBounds,
}

/// Error types for device operations.
#[derive(Clone, Copy, Debug, PartialEq, Eq, Structural)]
pub enum DevicesError {
    NoDevicesFound,
    PermissionDenied,
    InvalidDevice,
    NotInitialized,
}

/// Audio source function types (for generator sources).
#[derive(Clone, Copy, Debug, PartialEq, Eq, Structural)]
pub enum SourceFunction {
    Sine,
    Square,
    Sawtooth,
    Triangle,
    WhiteNoise,
    PinkNoise,
    BrownNoise,
}

/// Error types for stream operations.
#[derive(Clone, Copy, Debug, PartialEq, Eq, Structural)]
pub enum StreamError {
    NotPlaying,
    EndOfFile,
    InvalidData,
    UnsupportedFormat,
}

/// Play error for stream operations.
#[derive(Clone, Copy, Debug, PartialEq, Eq, Structural)]
pub enum PlayError {
    AlreadyPlaying,
    NotLoaded,
    SystemError,
}

/// Seek error types.
#[derive(Clone, Copy, Debug, PartialEq, Eq, Structural)]
pub enum SeekError {
    InvalidPosition,
    NotSeekable,
    OutOfBounds,
}

/// Decoder error types (for audio decoding operations).
#[derive(Clone, Copy, Debug, PartialEq, Eq, Structural)]
pub enum DecoderError {
    InvalidFormat,
    CorruptedData,
    UnsupportedCodec,
    IoError,
}

/// Stream play error.
#[derive(Clone, Copy, Debug, PartialEq, Eq, Structural)]
pub enum StreamPlayError {
    AlreadyPlaying,
    NotReady,
    SystemError,
}

/// Supported stream configuration.
#[derive(Clone, Copy, Debug, PartialEq, Eq, Structural)]
pub struct SupportedStreamConfig {
    pub sample_rate: SampleRate,
    pub channel_count: ChannelCount,
    pub sample_width: u8,
}

/// Stream output configuration.
#[derive(Clone, Copy, Debug, PartialEq, Eq, Structural)]
pub struct StreamOutputConfig {
    pub sample_rate: Option<SampleRate>,
    pub channels: Option<ChannelCount>,
    pub buffer_size: Option<u32>,
}

} // verus!
