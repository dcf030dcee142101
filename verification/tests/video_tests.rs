use openh264::encoder::{Encoder, EncoderConfig};
use openh264::OpenH264API;
use remotecontrol::annexb::is_keyframe;
use remotecontrol::stream::{
    newest_frame, FrameOutcome,
    bgra_to_rgba, CaptureStats, StreamConfig, StreamConfigBuilder, StreamLifecycle, StreamStats, StreamError,
    stream_error_text, WindowsScreenCapture,
};
use remotecontrol::video_encoder::{
    complete_frame, EncodedFrame, H264VideoEncoder, KeyframeSchedule, NetworkQuality, VideoCodec,
    VideoEncoderConfig, VideoEncoderFactory, FPS_15_BITS, FPS_30_BITS, FPS_60_BITS,
};
use remotecontrol::video_track::{
    adaptation_step, adaptation_allowed, adapted_config, approx_equal, blank_rgba, bootstrap_wanted, change_wanted,
    keepalive_continue, keepalive_wanted, keyframe_overdue, rtp_bytes_total, samples_increment, EncoderSlots,
    FrameSender, TrackCounters,
};

fn small_config() -> VideoEncoderConfig {
    VideoEncoderConfig { width: 64, height: 64, fps_bits: FPS_30_BITS, bitrate: 500_000, codec: VideoCodec::VP8, quality: 60 }
}

fn new_encoder(config: VideoEncoderConfig) -> H264VideoEncoder {
    let encoder = Encoder::with_api_config(OpenH264API::from_source(), EncoderConfig::new()).expect("encoder");
    H264VideoEncoder::new(config, encoder)
}

#[test]
fn float_bit_patterns() {
    assert_eq!(FPS_15_BITS, 15.0f32.to_bits());
    assert_eq!(FPS_30_BITS, 30.0f32.to_bits());
    assert_eq!(FPS_60_BITS, 60.0f32.to_bits());
}

#[test]
fn default_encoder_config() {
    let c = VideoEncoderConfig::default();
    assert_eq!((c.width, c.height, c.bitrate, c.quality), (1920, 1080, 2_000_000, 75));
    assert_eq!(f32::from_bits(c.fps_bits), 30.0);
}

#[test]
fn factory_presets() {
    let h = VideoEncoderFactory::adaptive_config(1280, 720, NetworkQuality::Excellent);
    assert_eq!((h.width, h.height, h.bitrate, h.quality, h.fps_bits), (1280, 720, 8_000_000, 90, FPS_60_BITS));
    let g = VideoEncoderFactory::adaptive_config(1280, 720, NetworkQuality::Good);
    assert_eq!((g.bitrate, g.quality, g.fps_bits), (2_000_000, 75, FPS_30_BITS));
    let p = VideoEncoderFactory::adaptive_config(1280, 720, NetworkQuality::Poor);
    assert_eq!((p.bitrate, p.quality, p.fps_bits), (800_000, 60, FPS_30_BITS));
}

#[test]
fn first_encoded_frame_is_keyframe() {
    let mut enc = new_encoder(small_config());
    let frame = enc.encode_frame_sync(&blank_rgba(&small_config()), 0).expect("encodes");
    assert!(!frame.data.is_empty());
    assert!(frame.is_keyframe);
    assert_eq!(frame.is_keyframe, is_keyframe(&frame.data));
    let s = enc.get_schedule();
    assert_eq!((s.frame_count, s.last_keyframe, s.next_force_keyframe), (1, 1, false));
}

#[test]
fn requested_keyframe_comes_next() {
    let mut enc = new_encoder(small_config());
    let blank = blank_rgba(&small_config());
    enc.encode_frame_sync(&blank, 0).unwrap();
    let second = enc.encode_frame_sync(&blank, 0).unwrap();
    assert!(!second.is_keyframe);
    enc.request_keyframe();
    assert!(enc.get_schedule().next_force_keyframe);
    let third = enc.encode_frame_sync(&blank, 0).unwrap();
    assert!(third.is_keyframe);
}

#[test]
fn schedule_forces_after_thirty_frames() {
    let mut s = KeyframeSchedule::new();
    assert!(s.take_request());
    s.count_frame();
    s.end_frame(true);
    for _ in 0..30 {
        s.count_frame();
        assert!(!s.take_request());
        s.end_frame(false);
    }
    assert!(!s.next_force_keyframe);
    s.count_frame();
    s.end_frame(false);
    assert!(s.next_force_keyframe);
    assert_eq!((s.frame_count, s.last_keyframe), (32, 1));
}

#[test]
fn complete_frame_records_keyframe() {
    let mut s = KeyframeSchedule { frame_count: 5, last_keyframe: 1, next_force_keyframe: false };
    let f = complete_frame(&mut s, vec![0, 0, 0, 1, 0x65, 1]);
    assert!(f.is_keyframe);
    assert_eq!(s.last_keyframe, 5);
    let g = complete_frame(&mut s, vec![0, 0, 0, 1, 0x41, 1]);
    assert!(!g.is_keyframe);
    assert_eq!(s.last_keyframe, 5);
}

#[test]
fn conversion_error_for_short_buffer() {
    let mut enc = new_encoder(small_config());
    let err = enc.encode_frame_sync(&[0u8; 16], 0).unwrap_err();
    assert_eq!(err, remotecontrol::video_encoder::EncodeError::Conversion);
    assert_eq!(enc.get_schedule().frame_count, 1);
    assert!(enc.get_schedule().next_force_keyframe);
}

#[test]
fn timestamp_steps() {
    assert_eq!(samples_increment(None), 3000);
    assert_eq!(samples_increment(Some(33_333)), 2999);
    assert_eq!(samples_increment(Some(5)), 1);
    assert_eq!(samples_increment(Some(0)), 1);
}

#[test]
fn keyframe_plan_sends_parameter_sets_first() {
    let mut sender = FrameSender::new();
    let data = vec![0, 0, 0, 1, 0x67, 1, 0, 0, 0, 1, 0x68, 2, 0, 0, 1, 0x65, 3];
    let frame = EncodedFrame { data, is_keyframe: true };
    let plan = sender.plan_frame(&frame, 1_000_000);
    assert_eq!(plan.len(), 4);
    assert_eq!(plan[0].data, vec![0x78, 0, 2, 0x67, 1, 0, 2, 0x68, 2]);
    assert_eq!((plan[0].samples, plan[0].marker, plan[0].parameter_sets), (0, false, true));
    assert!(!plan[1].parameter_sets);
    assert_eq!(plan[1].data, vec![0x67, 1]);
    assert_eq!((plan[1].samples, plan[1].marker), (3000, false));
    assert_eq!(plan[3].data, vec![0x65, 3]);
    assert_eq!((plan[3].samples, plan[3].marker), (0, true));
    assert_eq!(sender.last_sps, Some(vec![0x67, 1]));
    assert_eq!(sender.last_pps, Some(vec![0x68, 2]));
    assert_eq!(sender.last_send_us, Some(1_000_000));

    // A delta frame 33.3 ms later: one payload, timestamp step from the clock.
    let delta = EncodedFrame { data: vec![0, 0, 0, 1, 0x41, 9], is_keyframe: false };
    let plan = sender.plan_frame(&delta, 1_033_333);
    assert_eq!(plan.len(), 1);
    assert_eq!((plan[0].samples, plan[0].marker), (2999, true));
    assert_eq!(sender.last_sps, Some(vec![0x67, 1]));
}

#[test]
fn empty_frame_sends_nothing() {
    let mut sender = FrameSender::new();
    let plan = sender.plan_frame(&EncodedFrame { data: vec![], is_keyframe: true }, 7);
    assert!(plan.is_empty());
    assert_eq!(sender.last_send_us, None);
}

#[test]
fn wire_bytes_add_rtp_headers() {
    assert_eq!(rtp_bytes_total(&vec![100, 1188, 5]), 100 + 1188 + 5 + 36);
    assert_eq!(rtp_bytes_total(&vec![]), 0);
}

#[test]
fn track_counters() {
    let mut c = TrackCounters::new();
    c.record_sent(100, true);
    c.record_sent(50, false);
    c.record_error();
    assert_eq!((c.frames_sent, c.bytes_sent, c.keyframes_sent, c.transmission_errors), (2, 150, 1, 1));
}

#[test]
fn pending_encoder_takes_over_on_keyframe() {
    let mut slots = EncoderSlots::new(new_encoder(small_config()));
    let blank = blank_rgba(&small_config());
    assert!(slots.encode_rgba_sync(&blank).unwrap().is_some());
    let mut next = small_config();
    next.bitrate = 300_000;
    assert!(slots.config_changed(&next));
    assert!(!slots.config_changed(&small_config()));
    slots.stage_encoder(next, new_encoder(next));
    assert_eq!(slots.get_config(), next);
    // The staged encoder was asked for a key frame: its first frame is one and it takes over.
    let f = slots.encode_rgba_sync(&blank).unwrap().expect("key frame");
    assert!(f.is_keyframe);
    assert!(slots.encode_rgba_sync(&blank).unwrap().is_some());
}

#[test]
fn approx_equal_percentages() {
    assert!(approx_equal(100, 115, 15));
    assert!(!approx_equal(100, 118, 15));
    assert!(approx_equal(118, 100, 16));
    assert!(approx_equal(0, 0, 0));
}

#[test]
fn adaptation_targets() {
    let cur = VideoEncoderConfig { width: 1280, height: 720, fps_bits: FPS_30_BITS, bitrate: 300_000, codec: VideoCodec::VP8, quality: 75 };
    let poor = adapted_config(NetworkQuality::Poor, &cur, 15.0f32.to_bits());
    assert_eq!((poor.width, poor.height, poor.bitrate, poor.quality), (1920, 1080, 200_000, 60));
    let good = adapted_config(NetworkQuality::Good, &cur, 0);
    assert_eq!((good.bitrate, good.quality, good.fps_bits), (2_000_000, 75, FPS_30_BITS));
    let excellent = adapted_config(NetworkQuality::Excellent, &cur, 0);
    assert_eq!((excellent.bitrate, excellent.quality, excellent.fps_bits), (5_000_000, 90, FPS_60_BITS));
    // Same quality, bitrate and frame rate within bounds: no change.
    let near = VideoEncoderConfig { bitrate: 1_900_000, ..good };
    assert!(!change_wanted(&good, &near, 30, 28));
    assert!(change_wanted(&good, &near, 30, 20));
    assert!(change_wanted(&excellent, &good, 60, 60));
}

#[test]
fn bootstrap_and_keepalive_decisions() {
    assert!(bootstrap_wanted(false, 0));
    assert!(!bootstrap_wanted(true, 0));
    assert!(!bootstrap_wanted(false, 1));
    assert!(keepalive_wanted(4));
    assert!(!keepalive_wanted(5));
    assert!(keyframe_overdue(None));
    assert!(!keyframe_overdue(Some(3_000_000_000)));
    assert!(keyframe_overdue(Some(3_000_000_001)));
}

#[test]
fn blank_frame_size() {
    let b = blank_rgba(&small_config());
    assert_eq!(b.len(), 64 * 64 * 4);
    assert!(b.iter().all(|&x| x == 0));
}

#[test]
fn windows_pixels_become_rgba() {
    assert_eq!(bgra_to_rgba(&[1, 2, 3, 4, 5, 6, 7, 8, 9]), vec![3, 2, 1, 4, 7, 6, 5, 8]);
    let w = WindowsScreenCapture { screen_width: 1920, screen_height: 1080 };
    assert_eq!(w.pixel_buffer_len(), 1920 * 1080 * 4);
}

#[test]
fn stream_presets() {
    let h = StreamConfig::high_quality();
    assert_eq!((h.video_config.width, h.video_config.height, h.video_config.bitrate), (1920, 1080, 8_000_000));
    assert_eq!(h.video_config.fps_bits, FPS_60_BITS);
    assert_eq!(h.capture_config.max_fps_bits, FPS_60_BITS);
    assert_eq!(h.network_quality, NetworkQuality::Excellent);
    let l = StreamConfig::low_latency();
    assert_eq!((l.capture_config.target_width, l.capture_config.target_height), (1280, 720));
    assert_eq!((l.video_config.bitrate, l.video_config.fps_bits), (500_000, FPS_15_BITS));
    assert_eq!(l.video_config.quality, 75);
    assert!(l.adaptive_quality);
    assert_eq!(f64::from_bits(l.quality_adapt_interval_bits), 5.0);
    assert_eq!(StreamConfig::for_quality(NetworkQuality::Good), StreamConfig::standard_quality());
}

#[test]
fn builder_sets_fields() {
    let c = StreamConfigBuilder::new().resolution(640, 480).bitrate(123).fps(FPS_15_BITS).build();
    assert_eq!((c.video_config.width, c.capture_config.target_height, c.video_config.bitrate), (640, 480, 123));
    assert_eq!(c.capture_config.max_fps_bits, FPS_15_BITS);
    assert_eq!(c.network_quality, NetworkQuality::Good);
}

#[test]
fn stream_lifecycle() {
    let mut l = StreamLifecycle::new();
    assert!(l.begin_start().is_ok());
    assert_eq!(l.begin_start(), Err(StreamError::AlreadyActive));
    assert_eq!(stream_error_text(StreamError::AlreadyActive), "视频流已在运行或正在启动");
    l.started();
    assert!(l.begin_stop());
    l.tasks_ended();
    assert!(!l.begin_stop());
    assert!(l.begin_start().is_ok());
}

#[test]
fn stream_stats_merge() {
    let mut s = StreamStats::new();
    s.record_frame_sent();
    s.record_encoding_error();
    s.record_transmission_error();
    let mut t = TrackCounters::new();
    t.record_sent(10, false);
    let mut c = CaptureStats::new();
    c.record_capture_error();
    let m = s.merged(&t, &c);
    assert_eq!((m.frames_captured, m.frames_encoded, m.encoding_errors), (1, 1, 1));
    assert_eq!((m.frames_transmitted, m.total_bytes_sent, m.transmission_errors), (1, 10, 0));
    assert_eq!((m.capture_errors, m.frames_dropped), (1, 0));
}

#[test]
fn default_stream_config() {
    let c = StreamConfig::default();
    assert_eq!(c.video_config, VideoEncoderConfig::default());
    assert_eq!((c.capture_config.target_width, c.capture_config.target_height), (1920, 1080));
    assert_eq!(c.capture_config.max_fps_bits, FPS_30_BITS);
    assert_eq!(c.network_quality, NetworkQuality::Good);
}

#[test]
fn staged_encoder_keeps_current_for_black_frames() {
    let mut slots = EncoderSlots::new(new_encoder(small_config()));
    let mut next = small_config();
    next.quality = 90;
    slots.stage_encoder(next, new_encoder(next));
    let (cfg, schedule) = slots.next_encoder_state();
    assert_eq!(cfg, next);
    assert!(schedule.next_force_keyframe);
    let (cur, _) = slots.current_state();
    assert_eq!(cur, small_config());
    let f = slots.encode_keyframe_with_current(&blank_rgba(&small_config())).unwrap();
    assert!(f.is_keyframe);
}

#[test]
fn pending_encoder_keeps_waiting_after_conversion_error() {
    let mut slots = EncoderSlots::new(new_encoder(small_config()));
    let mut next = small_config();
    next.bitrate = 250_000;
    slots.stage_encoder(next, new_encoder(next));
    let err = slots.encode_rgba_sync(&[0u8; 16]).unwrap_err();
    assert_eq!(err, remotecontrol::video_encoder::EncodeError::Conversion);
    // The frame was counted by the pending encoder, whose key-frame request stands.
    let (cfg, schedule) = slots.next_encoder_state();
    assert_eq!(cfg, next);
    assert_eq!(schedule.frame_count, 1);
    assert!(schedule.next_force_keyframe);
    let (cur, cur_schedule) = slots.current_state();
    assert_eq!(cur, small_config());
    assert_eq!(cur_schedule.frame_count, 0);
}

#[test]
fn frame_rate_compared_as_float() {
    let slots = EncoderSlots::new(new_encoder(small_config()));
    let mut zero = small_config();
    zero.fps_bits = 0.0f32.to_bits();
    let mut slots_zero = EncoderSlots::new(new_encoder(zero));
    let mut neg_zero = small_config();
    neg_zero.fps_bits = (-0.0f32).to_bits();
    assert!(!slots_zero.config_changed(&neg_zero));
    let mut nan = small_config();
    nan.fps_bits = f32::NAN.to_bits();
    slots_zero.stage_encoder(nan, new_encoder(nan));
    assert!(slots_zero.config_changed(&nan));
    assert!(!slots.config_changed(&small_config()));
}

#[test]
fn keepalive_and_cooldown_decisions() {
    assert!(keepalive_continue(0, 0));
    assert!(keepalive_continue(29, 4));
    assert!(!keepalive_continue(30, 0));
    assert!(!keepalive_continue(3, 5));
    assert!(!adaptation_allowed(9_999_999_999));
    assert!(adaptation_allowed(10_000_000_000));
}

#[test]
fn counters_keep_keyframes_within_frames() {
    let mut c = TrackCounters::new();
    c.record_sent(10, true);
    c.record_error();
    c.record_sent(5, false);
    c.record_sent(7, true);
    assert!(c.keyframes_sent <= c.frames_sent);
    assert_eq!((c.frames_sent, c.keyframes_sent, c.bytes_sent, c.transmission_errors), (3, 2, 22, 1));
}

#[test]
fn encode_planes_after_count() {
    let mut enc = new_encoder(small_config());
    let y = vec![16u8; 64 * 64];
    let u = vec![128u8; 32 * 32];
    let v = vec![128u8; 32 * 32];
    let frame = enc.encode_planes(y, u, v).expect("encodes");
    // The first frame is forced to be a key frame.
    assert!(frame.is_keyframe);
    assert!(!enc.get_schedule().next_force_keyframe);
}

#[test]
fn adaptation_round() {
    let cur = VideoEncoderConfig { width: 1920, height: 1080, fps_bits: FPS_30_BITS, bitrate: 2_000_000, codec: VideoCodec::VP8, quality: 75 };
    // Within the cooldown nothing is applied.
    assert_eq!(adaptation_step(1_000, NetworkQuality::Excellent, &cur, FPS_15_BITS, 15, 30), None);
    // Good network with the good settings already in place: nothing to change.
    assert_eq!(adaptation_step(20_000_000_000, NetworkQuality::Good, &cur, FPS_15_BITS, 15, 30), None);
    let poor = adaptation_step(20_000_000_000, NetworkQuality::Poor, &cur, FPS_15_BITS, 15, 30).unwrap();
    assert_eq!((poor.bitrate, poor.quality, poor.fps_bits), (1_000_000, 60, FPS_15_BITS));
}

#[test]
fn frame_outcomes_and_newest_frame() {
    let mut s = StreamStats::new();
    s.record_outcome(FrameOutcome::Sent);
    s.record_outcome(FrameOutcome::Warming);
    s.record_outcome(FrameOutcome::SendFailed);
    s.record_outcome(FrameOutcome::EncodeFailed);
    assert_eq!((s.frames_captured, s.frames_encoded, s.transmission_errors, s.encoding_errors), (1, 1, 1, 1));
    assert_eq!(newest_frame(1, vec![]), 1);
    assert_eq!(newest_frame(1, vec![2, 3]), 3);
}
