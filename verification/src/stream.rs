//! Stream configuration: the builder for output streams and the
//! configurations the playback side reports as supported.

use vstd::prelude::*;

verus! {

use crate::types::StreamOutputConfig;
use crate::types::SupportedStreamConfig;

/// Stream builder for creating audio streams with a specific
/// configuration; the playback layer opens the stream from the finished
/// configuration.
pub struct AudioStreamBuilder {
    sample_rate: Option<u32>,
    channels: Option<u16>,
    buffer_size: Option<u32>,
}

impl AudioStreamBuilder {
    /// The requested sample rate, if any.
    pub closed spec fn spec_sample_rate(&self) -> Option<u32> {
        self.sample_rate
    }

    /// The requested channel count, if any.
    pub closed spec fn spec_channels(&self) -> Option<u16> {
        self.channels
    }

    /// The requested buffer size, if any.
    pub closed spec fn spec_buffer_size(&self) -> Option<u32> {
        self.buffer_size
    }

    /// A builder with no overrides.
    pub fn new() -> (b: AudioStreamBuilder)
        ensures
            b.spec_sample_rate() is None,
            b.spec_channels() is None,
            b.spec_buffer_size() is None,
    {
        AudioStreamBuilder { sample_rate: None, channels: None, buffer_size: None }
    }

    /// Requests a sample rate.
    pub fn set_sample_rate(&mut self, rate: u32)
        ensures
            final(self).spec_sample_rate() == Some(rate),
            final(self).spec_channels() == old(self).spec_channels(),
            final(self).spec_buffer_size() == old(self).spec_buffer_size(),
    {
        self.sample_rate = Some(rate);
    }

    /// Requests a channel count.
    pub fn set_channels(&mut self, channels: u8)
        ensures
            final(self).spec_channels() == Some(channels as u16),
            final(self).spec_sample_rate() == old(self).spec_sample_rate(),
            final(self).spec_buffer_size() == old(self).spec_buffer_size(),
    {
        self.channels = Some(channels as u16);
    }

    /// Requests a buffer size.
    pub fn set_buffer_size(&mut self, size: u32)
        ensures
            final(self).spec_buffer_size() == Some(size),
            final(self).spec_sample_rate() == old(self).spec_sample_rate(),
            final(self).spec_channels() == old(self).spec_channels(),
    {
        self.buffer_size = Some(size);
    }

    /// The finished configuration, for the playback layer to open.
    pub fn config(&self) -> (c: StreamOutputConfig)
        ensures
            c.sample_rate == self.spec_sample_rate(),
            c.channels == self.spec_channels(),
            c.buffer_size == self.spec_buffer_size(),
    {
        StreamOutputConfig {
            sample_rate: self.sample_rate,
            channels: self.channels,
            buffer_size: self.buffer_size,
        }
    }
}

impl Default for AudioStreamBuilder {
    /// Same as `AudioStreamBuilder::new`.
    fn default() -> (b: AudioStreamBuilder)
        ensures
            b.spec_sample_rate() is None,
            b.spec_channels() is None,
            b.spec_buffer_size() is None,
    {
        AudioStreamBuilder::new()
    }
}

/// The stream configurations reported as supported: 16-bit stereo at the
/// three common rates.
pub fn supported_output_configs() -> (v: Vec<SupportedStreamConfig>)
    ensures
        v@.len() == 3,
        v@[0] == (SupportedStreamConfig { sample_rate: 44100, channel_count: 2, sample_width: 16 }),
        v@[1] == (SupportedStreamConfig { sample_rate: 48000, channel_count: 2, sample_width: 16 }),
        v@[2] == (SupportedStreamConfig { sample_rate: 96000, channel_count: 2, sample_width: 16 }),
{
    let mut v: Vec<SupportedStreamConfig> = Vec::new();
    v.push(SupportedStreamConfig { sample_rate: 44100, channel_count: 2, sample_width: 16 });
    v.push(SupportedStreamConfig { sample_rate: 48000, channel_count: 2, sample_width: 16 });
    v.push(SupportedStreamConfig { sample_rate: 96000, channel_count: 2, sample_width: 16 });
    v
}

} // verus!
