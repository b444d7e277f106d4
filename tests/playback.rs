use noir_audio::callback::{end_action, CallbackMode, EndAction, RenderTracker};
use noir_audio::chunk::PendingChunks;
use noir_audio::decoder::DecoderProgress;
use noir_audio::engine::{preload_plan, seek_path, seek_progress_ms, seek_target_samples, PlaybackState, PreloadPlan, SeekLimiter, SeekPath, UNIT_VOLUME_BITS};
use noir_audio::engine::PlaybackErrorCode;
use noir_audio::eq::EqSharedState;
use noir_audio::layout::{interleave_planes, write_interleaved, write_planar};
use noir_audio::session::{
    choose_probe, is_plausible_rate, needs_fallback_probe, pre_roll_samples, ring_capacity, samples_for_ms, seek_prefill_samples, AudioInfo,
    StreamingState,
};

fn info(rate: u32, frames: u64) -> AudioInfo {
    AudioInfo::for_session(rate, None, Some(2), Some(frames), Some(16))
}

#[test]
fn probe_results() {
    assert!(is_plausible_rate(44100));
    assert!(!is_plausible_rate(8000));
    assert!(is_plausible_rate(384000));
    assert!(!is_plausible_rate(384001));
    let i = AudioInfo::from_codec_params(Some(44100), None, Some(441000), Some(16)).unwrap();
    assert_eq!(i.channels, 2);
    assert_eq!(i.duration_ms(), 10000);
    assert!(AudioInfo::from_codec_params(Some(44100), Some(2), None, None).is_none());
    assert!(AudioInfo::from_codec_params(None, Some(2), None, Some(16)).is_none());
    let t = AudioInfo::from_tag_properties(Some(48000), None, Some(1), 2500).unwrap();
    assert_eq!(t.total_frames, 120000);
    assert_eq!(t.bit_depth, 24);
    assert_eq!(t.channels, 1);
    assert_eq!(AudioInfo::from_tag_properties(None, None, None, 0).unwrap_err(), "Could not determine sample rate from file");
    assert_eq!(AudioInfo::from_tag_properties(Some(0), None, None, 1000).unwrap_err(), "Implausible sample rate: 0 Hz");
    assert!(AudioInfo::from_tag_properties(Some(400000), None, None, 1000).is_err());
}

#[test]
fn session_sizes() {
    assert_eq!(ring_capacity(44100, 2), 441000);
    assert_eq!(pre_roll_samples(441000), 44100);
    assert_eq!(seek_prefill_samples(44100, 2), 26460);
    assert_eq!(samples_for_ms(1500, 48000, 2), 144000);
    assert_eq!(samples_for_ms(u64::MAX, u32::MAX, 2), u64::MAX);
    let i = AudioInfo::for_session(44100, Some(88200), Some(2), Some(44100), Some(16));
    assert_eq!(i.output_frames(), 88200);
    assert_eq!(i.duration_samples(), 176400);
    assert_eq!(info(44100, 44100 * 120).duration_ms(), 120000);
}

#[test]
fn seek_handshake_flags() {
    let mut s = StreamingState::new(info(44100, 441000), 441000);
    s.begin_seek(1000);
    assert!(s.seeking && !s.flush_buffer && !s.flush_complete);
    s.request_flush();
    assert!(s.seeking && s.flush_buffer);
    s.acknowledge_flush();
    assert!(!s.flush_buffer && s.flush_complete && s.seeking);
    s.reposition(2000);
    assert_eq!(s.seek_position, 2000);
    s.abandon_seek();
    assert!(!s.seeking && !s.flush_buffer);
    s.set_position_samples(5);
    assert_eq!(s.position_samples(), 5);
    s.mark_complete();
    assert!(s.decoding_complete);
}

#[test]
fn decoder_pre_roll_and_prefill_thresholds() {
    let mut s = StreamingState::new(info(44100, 441000), 441000);
    let mut d = DecoderProgress::new(&s, 100, 50, 2);
    assert!(!d.record_written(&mut s, 60));
    assert!(d.record_written(&mut s, 40));
    assert!(!d.record_written(&mut s, 1000));
    assert_eq!(s.total_decoded, 1100);
    // A seek: pre-fill is counted from zero; seeking stays up while a flush is pending.
    s.begin_seek(0);
    s.request_flush();
    d.record_written(&mut s, 100);
    assert!(s.seeking);
    s.acknowledge_flush();
    d.repositioned(&mut s, 1000);
    assert_eq!(d.file_position, 88200);
    assert_eq!(s.seek_position, 88200);
    // Only samples written after the reposition count towards the pre-fill.
    assert_eq!(s.samples_since_seek, 0);
    d.record_written(&mut s, 10);
    assert!(s.seeking);
    d.record_written(&mut s, 40);
    assert!(!s.seeking);
    assert_eq!(d.file_position, 88250);
}

fn tracker() -> RenderTracker {
    // One second of 48 kHz stereo.
    RenderTracker::new(48000, 2, 96000, 1000, 0)
}

#[test]
fn callback_modes() {
    let t = tracker();
    assert_eq!(t.mode(true, true, false, false), CallbackMode::Silence);
    assert_eq!(t.mode(false, false, false, false), CallbackMode::Silence);
    assert_eq!(t.mode(false, true, true, true), CallbackMode::Flush);
    assert_eq!(t.mode(false, true, false, true), CallbackMode::AwaitPrefill);
    assert_eq!(t.mode(false, true, false, false), CallbackMode::Play);
    let mut ended = tracker();
    ended.on_track_end();
    assert_eq!(ended.mode(false, true, true, false), CallbackMode::Silence);
}

#[test]
fn position_never_passes_the_end() {
    let mut t = tracker();
    assert!(!t.on_read(90000, false));
    assert!(!t.on_read(90000, false));
    assert_eq!(t.playback_samples, 96000);
    t.follow_seek(500000);
    assert_eq!(t.playback_samples, 96000);
    let start = RenderTracker::new(48000, 2, 96000, 1000, 200000);
    assert_eq!(start.playback_samples, 96000);
}

#[test]
fn flush_moves_to_seek_position() {
    let mut s = StreamingState::new(info(48000, 48000), 96000);
    s.begin_seek(4800);
    s.request_flush();
    let mut t = tracker();
    t.on_read(100, false);
    t.on_read(0, false);
    t.on_flushed(&mut s);
    assert_eq!(t.playback_samples, 4800);
    assert_eq!(t.empty_callbacks, 0);
    assert!(s.flush_complete && !s.flush_buffer);
}

#[test]
fn end_confirmed_after_three_empty_reads() {
    let mut t = tracker();
    t.on_read(1000, true);
    assert!(!t.on_read(0, true));
    assert!(!t.on_read(0, true));
    assert!(t.on_read(0, true));
    assert_eq!(end_action(true, true), EndAction::GaplessSwap);
    assert_eq!(end_action(true, false), EndAction::Ended);
    assert_eq!(end_action(false, true), EndAction::Ended);
    // Empty reads while the decoder still runs do not end the track.
    let mut u = tracker();
    for _ in 0..10 {
        assert!(!u.on_read(0, false));
    }
}

#[test]
fn gapless_swap_restarts_tracking() {
    let mut t = tracker();
    t.on_read(96000, true);
    t.on_read(0, true);
    t.on_read(0, true);
    assert!(t.on_read(0, true));
    t.on_gapless_swap(192000, 2000);
    assert_eq!(t.playback_samples, 0);
    assert_eq!(t.duration_samples, 192000);
    assert_eq!(t.mode(false, true, false, false), CallbackMode::Play);
    assert!(!t.on_read(0, true));
}

#[test]
fn progress_every_interval_and_capped() {
    let mut t = tracker();
    assert_eq!(t.emit_interval, 1600);
    assert_eq!(t.tick_progress(1000), None);
    t.on_read(48000, false);
    assert_eq!(t.tick_progress(600), Some(500));
    assert_eq!(t.emit_counter, 0);
    t.on_read(48000, false);
    // At the very end the position shown stops at 0.999 of the length.
    assert_eq!(t.progress_ms(), 999);
}

#[test]
fn interleaved_output_is_bit_exact() {
    let scratch: Vec<u32> = (1..=1024).collect();
    let mut out = vec![7u32; 1100];
    write_interleaved(&scratch, 1024, &mut out, 0);
    assert_eq!(&out[..1024], &scratch[..]);
    assert!(out[1024..].iter().all(|&x| x == 0));
}

#[test]
fn planar_output_takes_each_channel() {
    let scratch = vec![10, 20, 11, 21, 12, 22];
    let mut left = vec![9; 4];
    let mut right = vec![9; 4];
    write_planar(&scratch, 5, 2, 0, &mut left, 0);
    write_planar(&scratch, 5, 2, 1, &mut right, 0);
    assert_eq!(left, vec![10, 11, 0, 0]);
    assert_eq!(right, vec![20, 21, 0, 0]);
}

#[test]
fn planes_interleave_frame_by_frame() {
    let planes = vec![vec![1, 2, 3], vec![-1, -2, -3]];
    assert_eq!(interleave_planes(&planes, 3), vec![1, -1, 2, -2, 3, -3]);
    assert_eq!(interleave_planes(&planes, 0), Vec::<i32>::new());
}

#[test]
fn chunks_deinterleave_and_pad() {
    let mut p: PendingChunks<i32> = PendingChunks::new(2, 2);
    assert_eq!(p.samples_per_chunk(), 4);
    p.extend(&[1, -1, 2, -2, 3]);
    assert!(p.has_chunk());
    let c = p.take_chunk();
    assert_eq!(c, vec![vec![1, 2], vec![-1, -2]]);
    assert_eq!(p.pending, vec![3]);
    assert!(!p.has_chunk());
    p.pad_to_chunk(0);
    assert_eq!(p.pending, vec![3, 0, 0, 0]);
    let mut empty: PendingChunks<i32> = PendingChunks::new(2, 2);
    empty.pad_to_chunk(0);
    assert!(empty.pending.is_empty());
}

#[test]
fn seek_limiter_rate_limits() {
    let mut g = SeekLimiter::new(0);
    assert!(!g.accept(10, 5000));
    assert!(g.accept(100, 5000));
    assert!(!g.accept(200, 5050));
    assert!(g.accept(200, 5100));
    assert!(!g.accept(220, 9000));
}

#[test]
fn seek_paths_and_progress() {
    assert_eq!(seek_path(Some(true), true, 1000, 2000), SeekPath::Restart);
    assert_eq!(seek_path(None, false, 0, 2000), SeekPath::Handshake);
    assert_eq!(seek_path(Some(false), true, 30000, 90000), SeekPath::Handshake);
    assert_eq!(seek_path(Some(false), true, 0, 0), SeekPath::PublishOnly);
    assert_eq!(seek_progress_ms(90000, 120000), 90000);
    assert_eq!(seek_progress_ms(500000, 120000), 119880);
    assert_eq!(seek_progress_ms(120000, 120000), 120000);
    assert_eq!(seek_progress_ms(119950, 120000), 119950);
    assert_eq!(seek_progress_ms(120001, 120000), 119880);
    assert_eq!(seek_target_samples(90000, 44100, 2), 7938000);
}

#[test]
fn preload_uses_stream_rate() {
    assert_eq!(preload_plan(false, Some(48000), 44100), PreloadPlan::Ignore);
    assert_eq!(preload_plan(true, Some(48000), 44100), PreloadPlan::Start { target_rate: Some(48000) });
    assert_eq!(preload_plan(true, Some(44100), 44100), PreloadPlan::Start { target_rate: None });
    assert_eq!(preload_plan(true, None, 44100), PreloadPlan::Start { target_rate: None });
}

#[test]
fn playback_state_transitions() {
    let mut p = PlaybackState::new();
    assert_eq!(p.volume, UNIT_VOLUME_BITS);
    assert_eq!(f32::from_bits(p.volume as u32), 1.0f32);
    p.set_duration_ms(120000);
    p.set_position_ms(30000);
    assert_eq!((p.duration, p.position), (120000, 30000));
    p.playing();
    assert!(p.is_audible());
    p.set_paused(true);
    assert!(!p.is_audible());
    p.session_started(96000, 2, 5000, 1000);
    assert_eq!((p.sample_rate, p.duration, p.position), (96000, 5000, 1000));
    p.stopped();
    assert!(!p.is_playing && p.position == 0);
    p.set_seeking(true);
    p.reset_for_load();
    assert!(!p.is_seeking);
}

#[test]
fn eq_settings() {
    let mut e = EqSharedState::new();
    assert!(!e.is_enabled());
    e.set_enabled(true);
    assert!(e.is_enabled());
    e.set_gain_bits(2, 6.0f32.to_bits());
    e.set_gain_bits(8, 1);
    assert_eq!(f32::from_bits(e.gain_bits(2)), 6.0);
    assert_eq!(e.gain_bits(8), 0);
    assert_eq!(e.gain_bits(0), 0);
}

#[test]
fn completion_survives_later_changes() {
    let mut s = StreamingState::new(info(44100, 441000), 441000);
    s.mark_complete();
    s.begin_seek(10);
    s.request_flush();
    s.acknowledge_flush();
    s.abandon_seek();
    s.set_position_samples(3);
    assert!(s.decoding_complete);
    assert!(s.is_handshake_consistent());
}

#[test]
fn error_codes_are_stable() {
    assert_eq!(PlaybackErrorCode::FileNotFound.code(), "file_not_found");
    assert_eq!(PlaybackErrorCode::StreamCreateFailed.code(), "stream_create_failed");
    assert_eq!(PlaybackErrorCode::ExclusiveModeFailed.code(), "exclusive_mode_failed");
}

#[test]
fn pre_roll_does_not_end_a_seek() {
    let mut s = StreamingState::new(info(44100, 441000), 441000);
    let mut d = DecoderProgress::new(&s, 100, 500, 2);
    s.begin_seek(0);
    assert!(d.record_written(&mut s, 100));
    assert!(s.seeking);
    d.record_written(&mut s, 400);
    assert!(!s.seeking);
}

#[test]
fn probe_choice_requires_a_plausible_rate() {
    let good = AudioInfo::from_codec_params(Some(44100), Some(2), Some(100), Some(16));
    assert!(!needs_fallback_probe(&good));
    assert_eq!(choose_probe(good, Err("unused".to_string())).unwrap(), good.unwrap());
    let zero = AudioInfo::from_codec_params(Some(0), Some(2), Some(100), Some(16));
    assert!(needs_fallback_probe(&zero));
    assert!(needs_fallback_probe(&None));
    let tagged = AudioInfo::from_tag_properties(Some(48000), Some(16), Some(2), 1000);
    assert_eq!(choose_probe(zero, tagged.clone()).unwrap().sample_rate, 48000);
    assert_eq!(choose_probe(None, Err("Lofty open failed".to_string())).unwrap_err(), "Lofty open failed");
    let odd = AudioInfo { sample_rate: 0, output_sample_rate: 0, channels: 2, total_frames: 0, bit_depth: 16, is_resampled: false };
    assert_eq!(choose_probe(zero, Ok(odd)).unwrap_err(), "Implausible sample rate: 0 Hz");
}
