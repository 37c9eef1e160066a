use audio_engine::buffer::SamplesBuffer;
use audio_engine::buffer::StaticSamplesBuffer;
use audio_engine::capture::RecorderEngine;
use audio_engine::meter::compute_levels;
use audio_engine::ring::TransferBuffer;
use audio_engine::sample::clamp_to_sample;
use audio_engine::sample::denormalize_u16;
use audio_engine::sample::normalize_i8;
use audio_engine::sample::normalize_i8_block;
use audio_engine::sample::normalize_u16;
use audio_engine::sample::normalize_u16_block;
use audio_engine::session::transfer_capacity;
use audio_engine::session::PassthroughEngine;
use audio_engine::types::AudioError;

#[test]
fn transfer_buffer_fifo_order() {
    let mut b = TransferBuffer::new(8);
    b.push_slice(&[1, 2, 3, 4, 5]);
    let out = b.pop(5);
    assert_eq!(out, vec![1, 2, 3, 4, 5]);
}

#[test]
fn transfer_buffer_underrun_yields_zeros() {
    let mut b = TransferBuffer::new(4);
    let out = b.pop(7);
    assert_eq!(out, vec![0, 0, 0, 0, 0, 0, 0]);
}

#[test]
fn transfer_buffer_overflow_keeps_latest() {
    let capacity: usize = 10;
    let mut b = TransferBuffer::new(capacity);
    let input: Vec<i16> = (1..=(capacity as i16 + 5)).collect();
    b.push_slice(&input);
    let out = b.pop(capacity);
    let expected: Vec<i16> = (6..=(capacity as i16 + 5)).collect();
    assert_eq!(out, expected);
}

#[test]
fn transfer_buffer_partial_underrun_pads() {
    let mut b = TransferBuffer::new(8);
    b.push_slice(&[9, 8]);
    let out = b.pop(4);
    assert_eq!(out, vec![9, 8, 0, 0]);
    assert_eq!(b.len(), 0);
}

#[test]
fn transfer_buffer_interleaved_producer_consumer() {
    // One side pushes 44100 samples in blocks of 441 while the other pops
    // in blocks of 256; the mutex discipline makes any concurrent run
    // equivalent to an interleaving like this one. A reference model
    // tracks what FIFO accounting requires at every step.
    let capacity: usize = 4410;
    let mut b = TransferBuffer::new(capacity);
    let mut model: Vec<i16> = Vec::new();
    let mut produced: usize = 0;
    let mut transferred: usize = 0;
    while produced < 44100 {
        let block: Vec<i16> = (0..441).map(|k| ((produced + k) % 30000) as i16).collect();
        b.push_slice(&block);
        model.extend_from_slice(&block);
        if model.len() > capacity {
            model.drain(..model.len() - capacity);
        }
        produced += 441;
        let out = b.pop(256);
        let expect_real = model.len().min(256);
        let mut expected: Vec<i16> = model.drain(..expect_real).collect();
        expected.resize(256, 0);
        assert_eq!(out, expected);
        transferred += expect_real;
    }
    // Drain what is left and check the total accounting.
    let rest = b.len();
    let out = b.pop(rest);
    let expected: Vec<i16> = model.drain(..).collect();
    assert_eq!(out, expected);
    transferred += rest;
    assert!(transferred <= 44100);
    assert_eq!(b.len(), 0);
}

#[test]
fn levels_empty_block_is_silent() {
    let l = compute_levels(&[]);
    assert_eq!(l.peak, 0);
    assert_eq!(l.rms, 0);
}

#[test]
fn levels_all_zero_block_is_silent() {
    let l = compute_levels(&[0; 480]);
    assert_eq!(l.peak, 0);
    assert_eq!(l.rms, 0);
}

#[test]
fn levels_constant_magnitude_peak_equals_rms() {
    let samples: Vec<i16> = vec![16384, -16384, 16384, -16384];
    let l = compute_levels(&samples);
    assert_eq!(l.peak, 16384);
    assert_eq!(l.rms, 16384);
}

#[test]
fn levels_bounded_for_any_block() {
    let samples: Vec<i16> = vec![i16::MIN, i16::MAX, 0, -1, 1, 12345, -23456];
    let l = compute_levels(&samples);
    assert!(l.peak <= 32768);
    assert!(l.rms <= 32768);
    assert_eq!(l.peak, 32768);
}

#[test]
fn levels_rms_exact_value() {
    // sum of squares 900000000 over 2 samples: mean 450000000,
    // whose integer square root is 21213.
    let l = compute_levels(&[0, 30000]);
    assert_eq!(l.peak, 30000);
    assert_eq!(l.rms, 21213);
}

#[test]
fn normalizer_exact_scale_factors() {
    assert_eq!(normalize_i8(-128), -32768);
    assert_eq!(normalize_i8(127), 32512);
    assert_eq!(normalize_i8(0), 0);
    assert_eq!(normalize_u16(0), -32768);
    assert_eq!(normalize_u16(32768), 0);
    assert_eq!(normalize_u16(65535), 32767);
}

#[test]
fn normalizer_u16_round_trip() {
    for s in [0u16, 1, 32767, 32768, 40000, 65535] {
        assert_eq!(denormalize_u16(normalize_u16(s)), s);
    }
}

#[test]
fn normalizer_blocks_preserve_amplitudes() {
    assert_eq!(normalize_i8_block(&[-128, 0, 127]), vec![-32768, 0, 32512]);
    assert_eq!(normalize_u16_block(&[0, 32768, 65535]), vec![-32768, 0, 32767]);
}

#[test]
fn clamp_to_sample_edges() {
    assert_eq!(clamp_to_sample(-40000), -32768);
    assert_eq!(clamp_to_sample(40000), 32767);
    assert_eq!(clamp_to_sample(-32768), -32768);
    assert_eq!(clamp_to_sample(32767), 32767);
    assert_eq!(clamp_to_sample(5), 5);
}

#[test]
fn passthrough_stop_is_idempotent() {
    let mut e = PassthroughEngine::new();
    e.stop();
    assert!(!e.is_running());
    e.stop();
    assert!(!e.is_running());

    e.prepare_start(44100, 2, 20).unwrap();
    e.commit_start();
    assert!(e.is_running());
    e.stop();
    assert!(!e.is_running());
    e.stop();
    assert!(!e.is_running());
}

#[test]
fn passthrough_failed_start_leaves_session_stopped() {
    let mut e = PassthroughEngine::new();
    // Resolution of "BogusHost:999" fails before the session is touched.
    let sel = audio_engine::devices::parse_device_id("BogusHost:999").unwrap();
    let hosts = vec!["Alsa".to_string(), "CoreAudio".to_string()];
    assert!(audio_engine::devices::find_host_index(&hosts, &sel.host).is_none());
    assert!(!e.is_running());

    // A later start step failing is rolled back by abort_start.
    e.prepare_start(48000, 2, 20).unwrap();
    e.abort_start();
    assert!(!e.is_running());
}

#[test]
fn passthrough_rejects_double_start() {
    let mut e = PassthroughEngine::new();
    e.prepare_start(44100, 1, 20).unwrap();
    e.commit_start();
    assert_eq!(e.prepare_start(44100, 1, 20), Err(AudioError::AlreadyRunning));
    assert!(e.is_running());
    assert_eq!(e.get_sample_rate(), 44100);
    assert_eq!(e.get_channels(), 1);
}

#[test]
fn passthrough_relays_input_to_output() {
    let mut e = PassthroughEngine::new();
    e.set_on_levels();
    e.prepare_start(44100, 2, 20).unwrap();
    e.commit_start();

    let dispatch = e.process_input_block(&[1000, -1000, 500, -500]);
    let levels = dispatch.expect("observer dispatch owed while running");
    assert_eq!(levels.peak, 1000);
    assert_eq!(e.get_levels(), levels);

    let out = e.fill_output_block(6);
    assert_eq!(out, vec![1000, -1000, 500, -500, 0, 0]);
}

#[test]
fn passthrough_callbacks_are_noops_when_stopped() {
    let mut e = PassthroughEngine::new();
    assert_eq!(e.process_input_block(&[1, 2, 3]), None);
    assert_eq!(e.fill_output_block(3), vec![0, 0, 0]);
    assert_eq!(e.get_levels().peak, 0);
}

#[test]
fn transfer_capacity_sizing_rule() {
    // 44100 Hz, 2 channels, 20 ms: 1764 samples per window, times 4.
    assert_eq!(transfer_capacity(44100, 2, 20), Some(7056));
    // Degenerate windows still allocate one slot.
    assert_eq!(transfer_capacity(1, 1, 0), Some(1));
}

#[test]
fn recorder_accumulates_history_and_mirrors() {
    let mut r = RecorderEngine::new();
    r.set_ring_buffer_size(4);
    r.prepare_start(48000, 1).unwrap();
    r.commit_start();
    assert!(r.is_recording());

    r.process_capture_block(&[1, 2, 3]);
    r.process_capture_block(&[4, 5, 6]);

    let buf = r.get_buffer();
    assert_eq!(buf.get_samples(), vec![1, 2, 3, 4, 5, 6]);
    assert_eq!(buf.get_sample_rate(), 48000);
    assert_eq!(buf.get_channels(), 1);

    // The mirror ring only keeps the most recent four samples.
    assert_eq!(r.get_ring_buffer_samples(), vec![3, 4, 5, 6]);
    assert_eq!(r.get_ring_buffer_samples(), vec![]);

    r.clear();
    assert_eq!(r.get_buffer().get_samples(), vec![]);
    assert!(r.is_recording());

    r.stop();
    assert!(!r.is_recording());
    r.stop();
    assert!(!r.is_recording());
}

#[test]
fn recorder_rejects_double_start() {
    let mut r = RecorderEngine::new();
    r.prepare_start(44100, 2).unwrap();
    r.commit_start();
    assert_eq!(r.prepare_start(44100, 2), Err(AudioError::AlreadyRecording));
}

#[test]
fn recorder_ignores_blocks_when_stopped() {
    let mut r = RecorderEngine::new();
    assert_eq!(r.process_capture_block(&[7, 8, 9]), None);
    assert_eq!(r.get_buffer().get_samples(), vec![]);
}

#[test]
fn samples_buffer_round_trip() {
    let b = SamplesBuffer::new(2, 44100, vec![10, -20, 30]);
    assert_eq!(b.get_channels(), 2);
    assert_eq!(b.get_sample_rate(), 44100);
    assert_eq!(b.get_len(), 3);
    assert_eq!(b.get_samples(), vec![10, -20, 30]);
}

#[test]
fn samples_buffer_from_le_bytes() {
    let b = SamplesBuffer::from_bytes(vec![0x34, 0x12, 0xFF, 0xFF, 0x01], 1, 8000);
    assert_eq!(b.get_samples(), vec![0x1234, -1]);
}

#[test]
fn samples_buffer_duration() {
    let b = SamplesBuffer::new(1, 44100, vec![0; 44100]);
    assert_eq!(b.get_duration_ms(), 1000);
    let stereo = SamplesBuffer::new(2, 44100, vec![0; 44100]);
    assert_eq!(stereo.get_duration_ms(), 500);
}

#[test]
fn static_samples_buffer_exposes_inner() {
    let s = StaticSamplesBuffer::new(1, 22050, vec![5, 6]);
    let inner = s.get_inner();
    assert_eq!(inner.get_sample_rate(), 22050);
    assert_eq!(inner.get_samples(), vec![5, 6]);
}
