//! Behavior of the QoS feedback loops and the encoder wrapper.

use capture_agent::encoder::{
    create_encoder_config, fallback_configs, is_keyframe_from_video_frame, video_frame_to_bytes,
    EncodeOutcome, EncoderError, EnhancedVideoEncoder, FrameSizeTracker, VideoEncoderConfig,
};
use capture_agent::qos::{Quality, RttCalculator, UserDelay, VideoQoS};
use capture_agent::video::{
    base_bitrate, codec_thread_num, get_codec_type_id, validate_yuv_conversion,
    would_block_if_equal, CodecFormat, ConvertError, EncodeYuvFormat, EncodedVideoFrame,
    EncodedVideoFrames, Pixfmt, VideoFrame, YuvConverter,
};

fn vp8_frame(data: Vec<u8>, key: bool) -> VideoFrame {
    let mut vf = VideoFrame::new();
    vf.set_vp8s(EncodedVideoFrames {
        frames: vec![EncodedVideoFrame { data, key, pts: 0 }],
    });
    vf
}

#[test]
fn qos_ramp_down_under_delay() {
    // Start at the defaults: 30 FPS, balanced ratio 0.67.
    let mut qos = VideoQoS::new(0);
    qos.on_connection_open(7, 0);
    assert_eq!(qos.fps(), 30);
    assert_eq!(qos.ratio(), 670);
    // Fifteen delay reports of 250 ms at 0.2 s intervals.
    for i in 0..15u64 {
        qos.user_network_delay(7, 250, i * 200);
    }
    assert!(qos.fps() <= 12, "terminal fps {} should be at most 12", qos.fps());
    assert!(qos.ratio() < 670, "terminal ratio {} should fall below 0.67", qos.ratio());
}

#[test]
fn qos_state_stays_in_bounds() {
    let mut qos = VideoQoS::new(0);
    qos.on_connection_open(1, 0);
    for i in 0..30u64 {
        qos.user_network_delay(1, 900, i * 100);
    }
    assert!(qos.fps() >= 1 && qos.fps() <= 120);
    assert!(qos.ratio() >= 100 && qos.ratio() <= 4000);
    for i in 0..30u64 {
        qos.user_network_delay(1, 1, 3000 + i * 100);
    }
    assert!(qos.fps() >= 1 && qos.fps() <= 120);
    assert!(qos.ratio() >= 100 && qos.ratio() <= 4000);
}

#[test]
fn qos_ratio_tracks_quality_outside_vbr() {
    let mut qos = VideoQoS::new(0);
    qos.on_connection_open(1, 0);
    qos.new_display(0);
    // The display's encoder cannot change quality, so the controller
    // leaves VBR state and the ratio follows the target quality exactly.
    qos.set_support_changing_quality(0, false);
    assert!(!qos.in_vbr_state());
    qos.update_display_data(0, 10, 5000);
    assert_eq!(qos.ratio(), Quality::Balanced.ratio_milli());
}

#[test]
fn rtt_calculator_warms_up() {
    let mut rtt = RttCalculator::new();
    for _ in 0..9 {
        rtt.update(50);
    }
    assert_eq!(rtt.get_rtt(), None);
    rtt.update(40);
    // Ten samples: the global minimum is reported.
    assert_eq!(rtt.get_rtt(), Some(40));
    for _ in 0..50 {
        rtt.update(60);
    }
    // A full window: the smoothed value is the mean of the global and
    // window minima, here (40 + 40) / 2 while 40 is still inside.
    assert_eq!(rtt.get_rtt(), Some(40));
}

#[test]
fn user_delay_average_subtracts_rtt() {
    let mut d = UserDelay::new();
    assert_eq!(d.avg_delay(), 150);
    d.add_delay(100);
    d.add_delay(200);
    assert_eq!(d.avg_delay(), 150);
}

#[test]
fn encoder_rejects_bad_dimensions() {
    let cfg = VideoEncoderConfig::new(0, 1080);
    assert_eq!(
        EnhancedVideoEncoder::new(cfg, true).err(),
        Some(EncoderError::InvalidDimensions)
    );
    let mut cfg = VideoEncoderConfig::new(1920, 1080);
    cfg.width = 5000;
    assert_eq!(
        EnhancedVideoEncoder::new(cfg, true).err(),
        Some(EncoderError::DimensionsTooLarge)
    );
    let mut cfg = VideoEncoderConfig::new(1920, 1080);
    cfg.height = 1079;
    assert_eq!(
        EnhancedVideoEncoder::new(cfg, true).err(),
        Some(EncoderError::OddDimensions)
    );
}

#[test]
fn encoder_dimensions_always_even_and_bounded() {
    // Odd requests are aligned down before the encoder sees them.
    let cfg = VideoEncoderConfig::new(1921, 1081);
    assert_eq!((cfg.width, cfg.height), (1920, 1080));
    let enc = EnhancedVideoEncoder::new(cfg, true).expect("valid after alignment");
    let (w, h) = enc.target_dimensions();
    assert!(w % 2 == 0 && h % 2 == 0 && w <= 4096 && h <= 4096);
}

#[test]
fn oversize_frame_is_dropped_and_counted() {
    let cfg = VideoEncoderConfig::new(1920, 1080);
    let mut enc = EnhancedVideoEncoder::new(cfg, true).expect("valid config");
    assert_eq!(enc.encode_stats.skipped_frames, 0);
    // A 3 MB payload at 1080p exceeds twice the 1.2 MB bound.
    let huge = vp8_frame(vec![0x01u8; 3_000_000], false);
    let out = enc.encode_input(EncodeOutcome::Frame(huge), 100);
    assert!(out.is_none(), "the oversize frame must not be enqueued");
    assert_eq!(enc.encode_stats.skipped_frames, 1);
    // An ordinary frame still passes afterwards.
    let ok = vp8_frame(vec![0x01u8; 1000], false);
    let out = enc.encode_input(EncodeOutcome::Frame(ok), 200);
    assert_eq!(out.map(|d| d.len()), Some(1000));
}

#[test]
fn dummy_mode_emits_marker_payloads() {
    let cfg = VideoEncoderConfig::new(1920, 1080);
    let mut enc = EnhancedVideoEncoder::new(cfg, false).expect("valid config");
    assert!(enc.is_dummy());
    assert!(!enc.support_changing_quality());
    let out = enc.encode_input(EncodeOutcome::Failed, 0);
    assert_eq!(out.map(|d| d.len()), Some(100));
    assert_eq!(enc.frame_count(), 1);
}

#[test]
fn keyframe_detected_from_first_byte() {
    // A clear low bit in the first byte marks a VP8 keyframe even when
    // the encoder's flag says otherwise.
    let key = vp8_frame(vec![0x00, 0x99, 0x77], false);
    assert!(is_keyframe_from_video_frame(&key));
    let delta = vp8_frame(vec![0x01, 0x99, 0x77], false);
    assert!(!is_keyframe_from_video_frame(&delta));
    // The flag alone also suffices.
    let flagged = vp8_frame(vec![0x01], true);
    assert!(is_keyframe_from_video_frame(&flagged));
    assert!(!is_keyframe_from_video_frame(&VideoFrame::new()));
}

#[test]
fn keyframe_tracking_clears_force_request() {
    let cfg = VideoEncoderConfig::new(640, 480);
    let mut enc = EnhancedVideoEncoder::new(cfg, true).expect("valid config");
    enc.force_keyframe();
    assert!(enc.should_force_keyframe());
    let delta = vp8_frame(vec![0x01, 0, 0], false);
    enc.encode_input(EncodeOutcome::Frame(delta), 10);
    assert!(!enc.was_last_frame_keyframe());
    assert!(enc.force_next_frame_keyframe, "an unmet request stays pending");
    let key = vp8_frame(vec![0x00, 0, 0], false);
    enc.encode_input(EncodeOutcome::Frame(key), 20);
    assert!(enc.was_last_frame_keyframe());
    assert!(!enc.force_next_frame_keyframe, "a true keyframe clears the request");
}

#[test]
fn frame_size_tracker_lowers_quality_for_large_frames() {
    let mut t = FrameSizeTracker::new();
    for _ in 0..10 {
        t.add_frame_size(700_000);
    }
    // Inside the five-second interval nothing happens.
    assert_eq!(t.should_adjust_quality(1000), None);
    // After it, the 3x-target mean prescribes the strongest reduction.
    assert_eq!(t.should_adjust_quality(6000), Some(-300));
    assert_eq!(t.large_frame_count, 0);
}

#[test]
fn frame_size_tracker_raises_quality_for_small_frames() {
    let mut t = FrameSizeTracker::new();
    for _ in 0..20 {
        t.add_frame_size(50_000);
    }
    assert_eq!(t.should_adjust_quality(6000), Some(100));
}

#[test]
fn fallback_cascade_shapes() {
    let cfg = VideoEncoderConfig::new(1920, 1080).with_codec(CodecFormat::VP9);
    let cascade = fallback_configs(&cfg);
    assert_eq!(cascade.len(), 5);
    assert_eq!(cascade[0].codec_format, CodecFormat::VP9);
    assert_eq!(cascade[1].codec_format, CodecFormat::VP8);
    assert_eq!(cascade[1].quality.ratio_milli, 670 * 4 / 5);
    assert_eq!(cascade[2].codec_format, CodecFormat::VP9);
    assert_eq!(cascade[2].quality.ratio_milli, 1000);
    assert_eq!(cascade[3].fps, 15);
    assert_eq!(cascade[3].quality.ratio_milli, 100);
    assert_eq!(cascade[4].quality.keyframe_interval, Some(300));
    assert_eq!(cascade[4].width % 4, 0);
}

#[test]
fn native_config_lowers_quirky_resolution_quality() {
    let cfg = VideoEncoderConfig::new(1366, 768);
    let native = create_encoder_config(&cfg).expect("valid config");
    assert_eq!(native.quality_milli, 670 * 4 / 5);
    let cfg = VideoEncoderConfig::new(1920, 1080);
    let native = create_encoder_config(&cfg).expect("valid config");
    assert_eq!(native.quality_milli, 670);
}

#[test]
fn video_frame_bytes_take_first_frame() {
    let mut vf = VideoFrame::new();
    vf.set_vp9s(EncodedVideoFrames {
        frames: vec![
            EncodedVideoFrame { data: vec![1, 2, 3], key: true, pts: 0 },
            EncodedVideoFrame { data: vec![4, 5], key: false, pts: 1 },
        ],
    });
    assert_eq!(video_frame_to_bytes(&vf), vec![1, 2, 3]);
    assert_eq!(video_frame_to_bytes(&VideoFrame::new()), Vec::<u8>::new());
}

#[test]
fn codec_ids_match_wire_values() {
    assert_eq!(get_codec_type_id(&CodecFormat::VP8), 1);
    assert_eq!(get_codec_type_id(&CodecFormat::VP9), 2);
    assert_eq!(get_codec_type_id(&CodecFormat::H264), 3);
    assert_eq!(get_codec_type_id(&CodecFormat::H265), 4);
    assert_eq!(get_codec_type_id(&CodecFormat::Unknown), 2);
}

#[test]
fn base_bitrate_matches_presets() {
    assert_eq!(base_bitrate(1920, 1080), 2073);
    assert_eq!(base_bitrate(640, 480), 400);
    // Between presets the bitrate scales with the pixel count.
    let b = base_bitrate(960, 540);
    assert!(b > 0 && b < 2073);
}

#[test]
fn codec_threads_bounded() {
    let t = codec_thread_num(64);
    assert!(t >= 1 && t <= 8);
    assert_eq!(codec_thread_num(0), 1);
}

#[test]
fn would_block_on_identical_capture() {
    let mut last = vec![1u8, 2, 3];
    assert!(would_block_if_equal(&mut last, &[1, 2, 3]).is_err());
    assert_eq!(last, vec![1, 2, 3]);
    assert!(would_block_if_equal(&mut last, &[1, 2, 4]).is_ok());
    assert_eq!(last, vec![1, 2, 4]);
}

#[test]
fn yuv_converter_primes_planes() {
    let c = YuvConverter::new(4, 2).expect("valid dimensions");
    let y_size = 4 * 2;
    let uv_size = 2 * 1;
    assert!(c.yuv_buffer.len() >= y_size + 2 * uv_size);
    assert!(c.yuv_buffer[..y_size].iter().all(|&b| b == 16));
    assert!(c.yuv_buffer[y_size..y_size + 2 * uv_size].iter().all(|&b| b == 128));
    assert!(YuvConverter::new(0, 2).is_err());
}

#[test]
fn conversion_validation_orders_its_checks() {
    let dst = EncodeYuvFormat {
        pixfmt: Pixfmt::I420,
        w: 1920,
        h: 1080,
        stride: vec![1920, 960],
        u: 1920 * 1080,
        v: 1920 * 1080 + 960 * 540,
    };
    let len = 1920 * 1080 * 4;
    assert_eq!(validate_yuv_conversion(len, 7680, Pixfmt::BGRA, 1920, 1080, &dst), Ok(()));
    assert_eq!(
        validate_yuv_conversion(len, 7680, Pixfmt::BGRA, 1920, 1088, &dst),
        Err(ConvertError::SourceLargerThanTarget)
    );
    assert_eq!(
        validate_yuv_conversion(len, 1000, Pixfmt::BGRA, 1920, 1080, &dst),
        Err(ConvertError::StrideTooSmall)
    );
    assert_eq!(
        validate_yuv_conversion(100, 7680, Pixfmt::BGRA, 1920, 1080, &dst),
        Err(ConvertError::SourceTooShort)
    );
    assert_eq!(
        validate_yuv_conversion(len, 7680, Pixfmt::I444, 1920, 1080, &dst),
        Err(ConvertError::Unsupported)
    );
}

#[test]
fn qos_connection_close_resets_state() {
    let mut qos = VideoQoS::new(0);
    qos.new_display(0);
    qos.on_connection_open(1, 0);
    qos.user_network_delay(1, 400, 0);
    assert!(qos.ratio() != 670 || qos.fps() != 30);
    // The last user leaving resets the whole controller to its defaults.
    qos.on_connection_close(1);
    assert_eq!(qos.fps(), 30);
    assert_eq!(qos.ratio(), 670);
    assert_eq!(qos.users.len(), 0);
    assert_eq!(qos.displays.len(), 0);
    // Closing an unknown user changes nothing.
    qos.on_connection_open(2, 0);
    qos.on_connection_close(9);
    assert_eq!(qos.users.len(), 1);
}

#[test]
fn qos_ratio_loop_runs_after_interval() {
    let mut qos = VideoQoS::new(0);
    qos.new_display(0);
    qos.set_support_changing_quality(0, true);
    qos.on_connection_open(1, 0);
    // The first sample runs the ratio loop at once: 250 ms delay shrinks
    // the balanced 0.67 by the 0.9 factor.
    qos.user_network_delay(1, 250, 0);
    let after_first = qos.ratio();
    assert!(after_first < 670);
    // After the three-second interval the loop runs again from the send
    // counters, and clears them.
    qos.update_display_data(0, 10, 4000);
    assert!(qos.ratio() < after_first);
    assert_eq!(qos.displays[0].1.send_counter, 0);
}
