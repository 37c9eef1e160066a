use audio_engine::convert::ChannelCountConverter;
use audio_engine::convert::SampleRateConverter;
use audio_engine::convert::SampleTypeConverter;
use audio_engine::decoder::decode_looped_samples;
use audio_engine::decoder::repeat_samples;
use audio_engine::decoder::DecoderBuilder;
use audio_engine::devices::format_device_id;
use audio_engine::devices::host_display_name;
use audio_engine::devices::parse_device_id;
use audio_engine::devices::select_first_real_input;
use audio_engine::formats::get_supported_formats;
use audio_engine::formats::is_format_supported;
use audio_engine::mixer::mixer;
use audio_engine::mixer::Mixer;
use audio_engine::mixer::MixerError;
use audio_engine::mixer::MixerSource;
use audio_engine::noise::pink;
use audio_engine::noise::white;
use audio_engine::noise::BlueNoise;
use audio_engine::noise::BrownianNoise;
use audio_engine::noise::PinkNoise;
use audio_engine::noise::VelvetNoise;
use audio_engine::noise::VioletNoise;
use audio_engine::noise::WhiteGaussianNoise;
use audio_engine::noise::WhiteTriangularNoise;
use audio_engine::noise::WhiteUniformNoise;
use audio_engine::player::PlayerEngine;
use audio_engine::queue::AudioSourceQueue;
use audio_engine::queue::SourcesQueueInput;
use audio_engine::queue::SourcesQueueOutput;
use audio_engine::sources::skip_prefix;
use audio_engine::sources::Empty;
use audio_engine::sources::Zero;
use audio_engine::stream::supported_output_configs;
use audio_engine::stream::AudioStreamBuilder;
use audio_engine::types::AudioError;
use audio_engine::types::ParamError;
use audio_engine::types::PlaybackState;
use audio_engine::types::QueueError;
use audio_engine::white::White;
use audio_engine::white::WhiteGenerator;

#[test]
fn test_supported_formats() {
    let formats = get_supported_formats();
    assert!(formats.contains(&"mp3".to_string()));
    assert!(formats.contains(&"wav".to_string()));
}

#[test]
fn test_format_support() {
    assert!(is_format_supported("mp3".to_string()));
    assert!(!is_format_supported("unknown".to_string()));
}

#[test]
fn test_formats() {
    assert!(is_format_supported("mp3".to_string()));
    assert!(!is_format_supported("xyz".to_string()));
}

#[test]
fn format_support_is_case_insensitive() {
    assert!(is_format_supported("FLAC".to_string()));
    assert!(is_format_supported("Wma".to_string()));
}

#[test]
fn device_id_parsing() {
    let sel = parse_device_id("Alsa:13").unwrap();
    assert_eq!(sel.host.iter().collect::<String>(), "Alsa");
    assert_eq!(sel.index, 13);

    let bare = parse_device_id("7").unwrap();
    assert!(bare.host.is_empty());
    assert_eq!(bare.index, 7);

    let fallback = parse_device_id("abc").unwrap();
    assert_eq!(fallback.index, 0);

    assert!(parse_device_id("Alsa:x9").is_err());
    assert!(parse_device_id("Alsa:").is_err());
}

#[test]
fn device_id_parsing_is_total() {
    // Parsing succeeds exactly when the index field after the first
    // colon is a nonempty digit string that fits an index.
    assert_eq!(parse_device_id("Host:000").unwrap().index, 0);
    assert_eq!(parse_device_id("a:1:2").unwrap().index, 1);
    assert!(parse_device_id("a:b:2").is_err());
    assert!(parse_device_id(":5").unwrap().host.is_empty());
    assert!(parse_device_id("Host:99999999999999999999999999").is_err());
    assert!(parse_device_id("").unwrap().host.is_empty());
}

#[test]
fn device_host_matching_is_case_insensitive() {
    let hosts = vec!["CoreAudio".to_string(), "Alsa".to_string()];
    let sel = parse_device_id("alsa:2").unwrap();
    assert_eq!(audio_engine::devices::find_host_index(&hosts, &sel.host), Some(1));
    let missing = parse_device_id("BogusHost:999").unwrap();
    assert_eq!(audio_engine::devices::find_host_index(&hosts, &missing.host), None);
}

#[test]
fn device_default_input_skips_virtual_endpoints() {
    let names = vec![
        "Null Output".to_string(),
        "Virtual Cable".to_string(),
        "USB Microphone".to_string(),
    ];
    assert_eq!(select_first_real_input(&names), Some(2));
    let none = vec!["null sink".to_string()];
    assert_eq!(select_first_real_input(&none), None);
}

#[test]
fn device_id_formatting() {
    assert_eq!(format_device_id("Alsa", 13), "Alsa:13");
    assert_eq!(format_device_id("CoreAudio", 0), "CoreAudio:0");
}

#[test]
fn host_display_names() {
    assert_eq!(host_display_name("Alsa"), "ALSA (Linux Standard)");
    assert_eq!(host_display_name("wasapi"), "WASAPI (Windows Standard)");
    assert_eq!(host_display_name("Oddball"), "Oddball");
}

#[test]
fn queue_ids_and_lookup() {
    let mut q = AudioSourceQueue::new();
    let id0 = q.add_source("a.wav".to_string(), None);
    let id1 = q.add_buffer(vec![1, 2], Some("two".to_string()));
    assert_eq!(id0, "source_0");
    assert_eq!(id1, "source_1");
    assert_eq!(q.get_length(), 2);

    let found = q.get_source("source_1".to_string()).unwrap();
    assert_eq!(found.buffer, Some(vec![1, 2]));
    assert_eq!(found.title, Some("two".to_string()));
    assert_eq!(
        q.get_source("nope".to_string()).unwrap_err(),
        QueueError::SourceNotFound
    );

    q.remove_source("source_0".to_string()).unwrap();
    assert_eq!(q.get_length(), 1);
    assert_eq!(
        q.remove_source("source_0".to_string()).unwrap_err(),
        QueueError::SourceNotFound
    );
}

#[test]
fn queue_cursor_rules() {
    let mut q = AudioSourceQueue::new();
    q.add_source("a".to_string(), None);
    q.add_source("b".to_string(), None);
    assert_eq!(q.set_current_index(1), Ok(()));
    assert_eq!(q.get_current_index(), 1);
    assert_eq!(q.set_current_index(2), Err(QueueError::IndexOutOfBounds));
    q.set_playing(true);
    assert!(q.is_playing());
    q.clear();
    assert_eq!(q.get_length(), 0);
    assert!(!q.is_playing());
}

#[test]
fn queue_output_consumes_in_order() {
    let mut input = SourcesQueueInput::new();
    input.push_file("a.wav".to_string());
    let id = input.push_buffer(vec![3]);
    input.set_title(id.clone(), "named".to_string()).unwrap();
    assert_eq!(
        input.set_title("missing".to_string(), "x".to_string()).unwrap_err(),
        QueueError::SourceNotFound
    );

    let mut out = SourcesQueueOutput::new();
    assert!(!out.has_next());
    assert_eq!(out.get_remaining(), 0);
    assert_eq!(out.peek().unwrap_err(), QueueError::QueueEmpty);
    assert_eq!(out.pop().unwrap_err(), QueueError::QueueEmpty);
}

#[test]
fn channel_conversion_mono_stereo() {
    let c = ChannelCountConverter::new(1, 2);
    assert_eq!(c.convert(vec![1, 2]), vec![1, 1, 2, 2]);
    assert_eq!(c.source_channels(), 1);
    assert_eq!(c.target_channels(), 2);
}

#[test]
fn channel_conversion_stereo_mono_averages() {
    let c = ChannelCountConverter::new(2, 1);
    assert_eq!(c.convert(vec![10, 20, -5, -9]), vec![15, -7]);
}

#[test]
fn channel_conversion_general_cases() {
    let same = ChannelCountConverter::new(3, 3);
    assert_eq!(same.convert(vec![7, 8]), vec![7, 8]);

    let up = ChannelCountConverter::new(2, 3);
    assert_eq!(up.convert(vec![8, -9]), vec![4, 4, 4, -4, -4, -4]);

    let down = ChannelCountConverter::new(4, 2);
    assert_eq!(down.convert(vec![4, 4, 4, 4]), vec![8]);
}

#[test]
fn depth_conversion_exact_values() {
    assert_eq!(SampleTypeConverter::new(8, 16).convert(vec![200]), vec![18432]);
    assert_eq!(SampleTypeConverter::new(16, 8).convert(vec![-300]), vec![127]);
    assert_eq!(SampleTypeConverter::new(24, 16).convert(vec![8388607]), vec![32767]);
    assert_eq!(SampleTypeConverter::new(32, 16).convert(vec![2147483647]), vec![32766]);
    assert_eq!(SampleTypeConverter::new(16, 24).convert(vec![100]), vec![25600]);
    assert_eq!(SampleTypeConverter::new(16, 32).convert(vec![1]), vec![65536]);
    assert_eq!(SampleTypeConverter::new(24, 32).convert(vec![-2]), vec![-512]);
    assert_eq!(SampleTypeConverter::new(32, 24).convert(vec![-256]), vec![-1]);
    assert_eq!(SampleTypeConverter::new(8, 24).convert(vec![0]), vec![-8388608]);
    assert_eq!(SampleTypeConverter::new(24, 8).convert(vec![-8388608]), vec![0]);
    assert_eq!(SampleTypeConverter::new(32, 8).convert(vec![i32::MIN]), vec![0]);
    // Unknown pairs pass through.
    assert_eq!(SampleTypeConverter::new(12, 16).convert(vec![42]), vec![42]);
}

#[test]
fn rate_conversion_upsamples_by_interpolation() {
    let c = SampleRateConverter::new(100, 200);
    assert_eq!(c.convert(vec![0, 100]), vec![0, 50, 100, 100]);
    assert_eq!(c.source_rate(), 100);
    assert_eq!(c.target_rate(), 200);
}

#[test]
fn rate_conversion_downsamples_by_stride() {
    let c = SampleRateConverter::new(4, 2);
    assert_eq!(c.convert(vec![1, 2, 3, 4]), vec![1, 3]);
    let same = SampleRateConverter::new(44100, 44100);
    assert_eq!(same.convert(vec![5, 6]), vec![5, 6]);
}

#[test]
fn noise_generators_fill_exact_blocks() {
    // 10 ms at 1000 Hz, stereo: 20 samples.
    assert_eq!(BlueNoise::new(10, 1000, 2).get_samples().len(), 20);
    assert_eq!(BrownianNoise::new(10, 1000, 2).get_samples().len(), 20);
    assert_eq!(PinkNoise::new(10, 1000, 2).get_samples().len(), 20);
    assert_eq!(VelvetNoise::new(10, 1000, 2).get_samples().len(), 20);
    assert_eq!(VioletNoise::new(10, 1000, 2).get_samples().len(), 20);
    assert_eq!(WhiteGaussianNoise::new(10, 1000, 2, None).get_samples().len(), 20);
    assert_eq!(WhiteGaussianNoise::new(10, 1000, 2, Some(500)).get_samples().len(), 20);
    assert_eq!(WhiteTriangularNoise::new(10, 1000, 2).get_samples().len(), 20);
    assert_eq!(WhiteUniformNoise::new(10, 1000, 2).get_samples().len(), 20);
    assert_eq!(pink(5, 1000, 1).get_samples().len(), 5);
    assert_eq!(white(5, 1000, 1).get_samples().len(), 5);
}

#[test]
fn noise_cursor_walks_and_rewinds() {
    let mut n = WhiteUniformNoise::new(3, 1000, 1);
    let all = n.get_samples();
    assert_eq!(all.len(), 3);
    assert_eq!(n.get_next(), Some(all[0]));
    assert_eq!(n.get_next(), Some(all[1]));
    assert_eq!(n.get_next(), Some(all[2]));
    assert_eq!(n.get_next(), None);
    n.reset();
    assert_eq!(n.get_next(), Some(all[0]));
}

#[test]
fn white_sources_fill_exact_blocks() {
    assert_eq!(White::new(10, 1000, 2).get_samples().len(), 20);
    let g = WhiteGenerator::new(1000, 2);
    assert_eq!(g.generate(10).len(), 20);
}

#[test]
fn player_lifecycle_and_clock() {
    let mut p = PlayerEngine::new();
    assert_eq!(p.get_volume_milli(), 1000);
    assert_eq!(p.get_state(), PlaybackState::Stopped);
    assert_eq!(p.play(0), Err(audio_engine::types::PlayError::NotLoaded));

    p.load_file_done(5000);
    assert_eq!(p.get_state(), PlaybackState::Loaded);
    assert_eq!(p.get_duration_ms(), 5000);

    let t0: u128 = 1_000_000_000_000;
    p.play(t0).unwrap();
    assert!(p.is_playing());
    assert_eq!(p.current_time_ns(t0 + 2_000_000_000), 2_000_000_000);

    p.pause(t0 + 2_000_000_000);
    assert_eq!(p.get_state(), PlaybackState::Paused);
    p.pause(t0 + 2_500_000_000);
    assert_eq!(p.get_state(), PlaybackState::Paused);

    p.play(t0 + 3_000_000_000).unwrap();
    // Position is best-effort wall-clock accounting: resuming restarts
    // the reference timestamp while keeping the pause account, so one
    // second after the resume the position still reads zero.
    assert_eq!(p.current_time_ns(t0 + 4_000_000_000), 0);
    assert_eq!(p.current_time_ns(t0 + 5_000_000_000), 1_000_000_000);

    p.seek_to(1000, t0 + 4_000_000_000).unwrap();
    assert_eq!(p.current_time_ns(t0 + 4_000_000_000), 1_000_000_000);
    assert!(p.is_playing());

    assert_eq!(p.seek_to(6000, t0), Err(audio_engine::types::SeekError::OutOfBounds));
    assert_eq!(p.set_volume_milli(1001), Err(ParamError::OutOfRange));
    p.set_volume_milli(250).unwrap();
    assert_eq!(p.get_volume_milli(), 250);

    p.stop().unwrap();
    assert_eq!(p.get_state(), PlaybackState::Stopped);
    assert_eq!(p.current_time_ns(t0), 0);
}

#[test]
fn player_stop_requires_initialization() {
    let mut p = PlayerEngine::new();
    assert!(p.stop().is_err());
    p.load_buffer_done(100);
    assert!(p.stop().is_ok());
}

#[test]
fn mixer_blends_and_averages() {
    let mut m = Mixer::with_config(1000, 2, 4);
    let s1 = MixerSource::new("one".to_string(), vec![100, 200], 1000, 2);
    let s2 = MixerSource::new("two".to_string(), vec![50, 70], 1000, 2);
    m.add_source(&s1).unwrap();
    m.add_source(&s2).unwrap();
    assert_eq!(m.get_source_count(), 2);
    assert_eq!(m.sample_at(0), vec![75, 135]);

    m.remove_source("one".to_string()).unwrap();
    assert_eq!(m.sample_at(0), vec![50, 70]);
    assert_eq!(
        m.remove_source("one".to_string()).unwrap_err(),
        MixerError::SourceNotFound
    );
}

#[test]
fn mixer_capacity_and_validation() {
    let mut m = mixer(Some(1));
    let s = MixerSource::new("only".to_string(), vec![1, 2], 44100, 2);
    m.add_source(&s).unwrap();
    assert_eq!(m.add_source(&s).unwrap_err(), MixerError::AtCapacity);
    assert!(m.start_mixing().is_ok());
    assert_eq!(m.set_master_volume_milli(2000), Err(ParamError::OutOfRange));
    m.set_master_volume_milli(300).unwrap();
    assert_eq!(m.get_master_volume_milli(), 300);

    let empty = Mixer::new();
    assert_eq!(empty.sample_at(0), Vec::<i16>::new());
    assert_eq!(empty.start_mixing().unwrap_err(), MixerError::NoSources);
}

#[test]
fn mixer_source_parameters() {
    let mut s = MixerSource::new("s".to_string(), vec![1, 2, 3, 4], 1000, 2);
    assert_eq!(s.get_id(), "s");
    assert_eq!(s.get_sample_rate(), 1000);
    assert_eq!(s.get_channels(), 2);
    assert!(s.is_enabled());
    s.set_enabled(false);
    assert!(!s.is_enabled());
    assert_eq!(s.set_volume_milli(1500), Err(ParamError::OutOfRange));
    assert_eq!(s.set_pan_milli(-2000), Err(ParamError::OutOfRange));
    s.set_pan_milli(-500).unwrap();
    assert_eq!(s.get_pan_milli(), -500);
    // 1 ms at 1000 Hz stereo covers two samples.
    assert_eq!(s.get_samples_at(1), vec![3, 4]);
    assert_eq!(s.get_samples_at(2), Vec::<i16>::new());
    assert_eq!(s.duration_ms(), 2);
}

#[test]
fn silent_sources_generate_zeros() {
    let e = Empty::new(1000, 2);
    assert_eq!(e.get_samples(10), vec![0; 20]);
    let z = Zero::new(1000, 1);
    assert_eq!(z.generate(4), vec![0; 4]);
}

#[test]
fn skip_prefix_drops_consumed_samples() {
    assert_eq!(skip_prefix(&vec![1, 2, 3, 4], 2), vec![3, 4]);
    assert_eq!(skip_prefix(&vec![1, 2], 5), Vec::<i16>::new());
}

#[test]
fn repeat_samples_exact_copies() {
    assert_eq!(repeat_samples(vec![1, 2], 3), vec![1, 2, 1, 2, 1, 2]);
    assert_eq!(repeat_samples(vec![1, 2], 1), vec![1, 2]);
    assert_eq!(repeat_samples(vec![1, 2], 0), vec![1, 2]);
}

#[test]
fn looped_decode_repeats_takes() {
    assert_eq!(decode_looped_samples(vec![1, 2], 3), vec![1, 2, 1, 2, 1, 2]);
    assert_eq!(decode_looped_samples(vec![1, 2], 1), vec![1, 2]);
    assert_eq!(decode_looped_samples(Vec::new(), 9), Vec::<i16>::new());
    assert_eq!(decode_looped_samples(vec![7], u32::MAX), vec![7, 7, 7, 7]);
}

#[test]
fn decoder_builder_settings() {
    let mut b = DecoderBuilder::new();
    b.set_loop_enabled(true);
    b.set_loop_count(3);
    b.set_sample_rate(48000);
    b.set_channels(2);
    let s = b.settings();
    assert!(s.enable_looping);
    assert_eq!(s.loop_count, 3);
    assert_eq!(s.sample_rate, Some(48000));
    assert_eq!(s.channels, Some(2));
}

#[test]
fn stream_builder_configuration() {
    let mut b = AudioStreamBuilder::new();
    b.set_sample_rate(48000);
    b.set_channels(2);
    b.set_buffer_size(1024);
    let c = b.config();
    assert_eq!(c.sample_rate, Some(48000));
    assert_eq!(c.channels, Some(2));
    assert_eq!(c.buffer_size, Some(1024));

    let configs = supported_output_configs();
    assert_eq!(configs.len(), 3);
    assert_eq!(configs[0].sample_rate, 44100);
    assert_eq!(configs[1].sample_rate, 48000);
    assert_eq!(configs[2].sample_rate, 96000);
    assert!(configs.iter().all(|c| c.channel_count == 2 && c.sample_width == 16));
}

#[test]
fn invalid_device_id_error() {
    assert_eq!(
        parse_device_id("Alsa:x9").unwrap_err(),
        AudioError::InvalidDeviceId
    );
}

#[test]
fn configuration_error_when_buffer_cannot_be_sized() {
    let mut e = audio_engine::session::PassthroughEngine::new();
    assert_eq!(
        e.prepare_start(u32::MAX, u16::MAX, u32::MAX),
        Err(AudioError::ConfigurationError)
    );
    assert!(!e.is_running());
}

#[test]
fn seek_without_audio_is_not_seekable() {
    let mut p = PlayerEngine::new();
    assert_eq!(p.seek_to(0, 0), Err(audio_engine::types::SeekError::NotSeekable));
}

#[test]
fn session_error_taxonomy_is_distinct() {
    assert_ne!(AudioError::AlreadyRunning, AudioError::DeviceNotFound);
    assert_ne!(AudioError::ConfigurationError, AudioError::StreamStartError);
    assert_ne!(AudioError::InvalidDeviceId, AudioError::AlreadyRecording);
}
