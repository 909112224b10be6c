//! End-to-end behavior of the framing, frame preparation, session
//! gating, fallback machine and writer accounting.

use capture_agent::capture::{CaptureResult, CaptureSession, FallbackAction, FallbackState};
use capture_agent::frame_prep::{align_dimensions, crop_frame_data, prepare_frame, PrepError};
use capture_agent::protocol::{
    create_display_info_packet, create_display_list_packet_with_scaling,
    create_frame_rate_timer_packet, create_init_touch_packet, create_keystate_packet,
    create_mouse_cursor_packet, create_refresh_packet, create_resolution_packet_with_scaling,
    create_video_frame_packet, create_cursor_control_packet, create_agent_connected_packet,
    create_wallpaper_set_packet, create_wallpaper_restore_packet, get_screen_resolution,
    parse_display_info_packet, parse_displays_packet, parse_picture_packet, parse_screen_packet,
    DisplayInfo,
};
use capture_agent::session::{bridge_frame, handle_message, ClientState, WriterAccounting};

fn one_display() -> Vec<DisplayInfo> {
    vec![DisplayInfo { width: 1920, height: 1080, x: 0, y: 0 }]
}

#[test]
fn screen_packet_round_trip() {
    let packet = create_resolution_packet_with_scaling(1920, 1080, 1024);
    assert_eq!(packet, vec![0, 7, 0, 8, 7, 128, 4, 56]);
    let parsed = parse_screen_packet(&packet).expect("well-formed SCREEN frame");
    assert_eq!(parsed, (1920, 1080));
}

#[test]
fn screen_packet_applies_scaling_and_alignment() {
    // 1367 aligns down to 1366; the factor 512/1024 halves both dimensions.
    let packet = create_resolution_packet_with_scaling(1367, 769, 512);
    let parsed = parse_screen_packet(&packet).expect("well-formed SCREEN frame");
    assert_eq!(parsed, (683, 384));
}

#[test]
fn display_info_round_trip() {
    let displays = vec![
        DisplayInfo { width: 1920, height: 1080, x: 0, y: 0 },
        DisplayInfo { width: 1280, height: 1024, x: -1280, y: 42 },
    ];
    let packet = create_display_info_packet(&displays);
    assert_eq!(packet.len(), 6 + 12 * displays.len());
    let parsed = parse_display_info_packet(&packet).expect("well-formed DISPLAY_INFO frame");
    assert_eq!(parsed.len(), 2);
    assert_eq!(parsed[0], displays[0]);
    assert_eq!(parsed[1], displays[1]);
}

#[test]
fn displays_round_trip_multi() {
    let packet = create_display_list_packet_with_scaling(3, 2);
    let parsed = parse_displays_packet(&packet).expect("well-formed DISPLAYS frame");
    assert_eq!(parsed, (3, 2));
}

#[test]
fn displays_short_form_for_single_screen() {
    let packet = create_display_list_packet_with_scaling(1, 0);
    assert_eq!(packet, vec![0, 11, 0, 8, 0, 0, 0, 0]);
    assert_eq!(parse_displays_packet(&packet), Some((0, 0)));
}

#[test]
fn picture_round_trip() {
    let payload = vec![0x12u8, 0x34, 0x56, 0x78, 0x9a];
    let packet = create_video_frame_packet(&payload, 1, true);
    let (codec, key, parsed) = parse_picture_packet(&packet).expect("well-formed PICTURE frame");
    assert_eq!(codec, 1);
    assert!(key);
    assert_eq!(parsed, payload);
}

#[test]
fn picture_length_field_overflow() {
    let payload = vec![7u8; 70000];
    let packet = create_video_frame_packet(&payload, 2, false);
    // The 16-bit length field holds the sentinel.
    assert_eq!(&packet[2..4], &[0xff, 0xff]);
    // The embedded 32-bit field is authoritative.
    let embedded = u32::from_be_bytes([packet[6], packet[7], packet[8], packet[9]]);
    assert_eq!(embedded, 70000);
    let (codec, key, parsed) = parse_picture_packet(&packet).expect("well-formed PICTURE frame");
    assert_eq!(codec, 2);
    assert!(!key);
    assert_eq!(parsed.len(), 70000);
    assert_eq!(parsed, payload);
}

#[test]
fn fixed_packets_have_expected_bytes() {
    assert_eq!(create_refresh_packet(), vec![0, 6, 0, 4]);
    assert_eq!(create_agent_connected_packet(), vec![0, 59, 0, 4]);
    assert_eq!(create_wallpaper_set_packet(), vec![0, 73, 0, 4]);
    assert_eq!(create_wallpaper_restore_packet(), vec![0, 74, 0, 4]);
    assert_eq!(create_keystate_packet(), vec![0, 18, 0, 7, 0, 0, 0]);
    assert_eq!(create_mouse_cursor_packet(), vec![0, 88, 0, 8, 0, 0, 0, 0]);
    assert_eq!(create_init_touch_packet(2), vec![0, 14, 0, 5, 2]);
    assert_eq!(create_frame_rate_timer_packet(33), vec![0, 13, 0, 6, 0, 33]);
    assert_eq!(create_cursor_control_packet(true), vec![0, 144, 0, 5, 1]);
}

#[test]
fn screen_resolution_aligns_down() {
    assert_eq!(get_screen_resolution(1921, 1081), (1920, 1080));
    assert_eq!(get_screen_resolution(1920, 1080), (1920, 1080));
    assert_eq!(align_dimensions(0, 1), (0, 0));
    assert_eq!(align_dimensions(4096, 4095), (4096, 4094));
}

#[test]
fn prepare_frame_passes_conforming_input_through() {
    let w = 4usize;
    let h = 2usize;
    let data: Vec<u8> = (0..(w * h * 4) as u8).collect();
    let (out, stride) = prepare_frame(&data, w * 4, w, h, w, h).expect("conforming input");
    assert_eq!(out, data);
    assert_eq!(stride, w * 4);
    // Preparing the prepared output again changes nothing: frame prep is
    // idempotent on conforming inputs.
    let (out2, stride2) = prepare_frame(&out, stride, w, h, w, h).expect("conforming input");
    assert_eq!(out2, data);
    assert_eq!(stride2, w * 4);
}

#[test]
fn prepare_frame_repacks_padded_rows() {
    // Two rows of 2 pixels with 4 bytes of padding per row.
    let row0 = [1u8, 1, 1, 1, 2, 2, 2, 2, 0, 0, 0, 0];
    let row1 = [3u8, 3, 3, 3, 4, 4, 4, 4, 0, 0, 0, 0];
    let mut data = Vec::new();
    data.extend_from_slice(&row0);
    data.extend_from_slice(&row1);
    let (out, stride) = prepare_frame(&data, 12, 2, 2, 2, 2).expect("repackable input");
    assert_eq!(stride, 8);
    assert_eq!(out, vec![1, 1, 1, 1, 2, 2, 2, 2, 3, 3, 3, 3, 4, 4, 4, 4]);
}

#[test]
fn prepare_frame_center_crops() {
    // A 4x4 image cropped to its center 2x2.
    let mut data = Vec::new();
    for y in 0..4u8 {
        for x in 0..4u8 {
            data.extend_from_slice(&[y * 16 + x; 4]);
        }
    }
    let (out, stride) = prepare_frame(&data, 16, 4, 4, 2, 2).expect("croppable input");
    assert_eq!(stride, 8);
    let mut expected = Vec::new();
    for &p in &[0x11u8, 0x12, 0x21, 0x22] {
        expected.extend_from_slice(&[p; 4]);
    }
    assert_eq!(out, expected);
}

#[test]
fn prepare_frame_rejects_overflowing_repack() {
    // Stride claims 16 bytes per row but the buffer holds only one row.
    let data = vec![0u8; 16];
    let r = prepare_frame(&data, 16, 2, 2, 2, 2);
    assert_eq!(r, Err(PrepError::InvalidFrame));
}

#[test]
fn crop_identity_when_dimensions_match() {
    let data = vec![9u8; 32];
    let out = crop_frame_data(&data, 8, 2, 4, 2, 4);
    assert_eq!(out, data);
}

#[test]
fn client_connect_handshake_sequence() {
    let mut state = ClientState::new();
    let displays = one_display();
    let connect = vec![0u8, 73, 0, 6, 0, 1];
    let packets = handle_message(&mut state, &connect, 1920, 1080, &displays, 0);
    let ids: Vec<u16> = packets
        .iter()
        .map(|p| u16::from_be_bytes([p[0], p[1]]))
        .collect();
    assert_eq!(ids, vec![7, 82, 11, 18, 88, 6, 14]);
    let last = packets.last().unwrap();
    assert_eq!(last[4], 2);
    assert_eq!(state.get_active_client_count(), 1);
    assert!(state.is_force_keyframe());
}

#[test]
fn refresh_debounce_half_second_apart() {
    let mut state = ClientState::new();
    let displays = one_display();
    let refresh = vec![0u8, 6, 0, 6];
    let first = handle_message(&mut state, &refresh, 1920, 1080, &displays, 10_000);
    assert_eq!(first.len(), 2);
    assert_eq!(u16::from_be_bytes([first[0][0], first[0][1]]), 7);
    assert_eq!(u16::from_be_bytes([first[1][0], first[1][1]]), 11);
    // 500 ms later: inside the one-second debounce window, nothing goes out.
    let second = handle_message(&mut state, &refresh, 1920, 1080, &displays, 10_500);
    assert_eq!(second.len(), 0);
    // Past the window the request is honored again.
    let third = handle_message(&mut state, &refresh, 1920, 1080, &displays, 11_100);
    assert_eq!(third.len(), 2);
}

#[test]
fn disconnect_drops_client_and_pauses() {
    let mut state = ClientState::new();
    let displays = one_display();
    let connect = vec![0u8, 73, 0, 6, 0, 1];
    handle_message(&mut state, &connect, 1920, 1080, &displays, 0);
    let disconnect = vec![0u8, 74, 0, 6, 0, 1];
    let r = handle_message(&mut state, &disconnect, 1920, 1080, &displays, 100);
    assert_eq!(r.len(), 0);
    assert_eq!(state.get_active_client_count(), 0);
    assert!(!state.is_cursor_visible());
}

#[test]
fn ack_marks_client_ready() {
    let mut state = ClientState::new();
    let displays = one_display();
    let ack = vec![0u8, 14, 0, 4];
    let r = handle_message(&mut state, &ack, 1920, 1080, &displays, 0);
    assert_eq!(r.len(), 0);
    assert!(state.remote_connected);
}

#[test]
fn multi_client_keyframe_gating() {
    let mut state = ClientState::new();
    state.increment_client_count(0);
    state.increment_client_count(10);
    assert_eq!(state.clients_needing_initial_frame, 2);

    // Delta frames are dropped while clients await their first keyframe,
    // and a keyframe is requested from the capture thread.
    let delta = vec![1u8, 2, 3];
    let out = bridge_frame(&mut state, &delta, false, 1, 20);
    assert!(out.packet.is_none());
    assert!(out.request_keyframe);

    // The first keyframe is forwarded to the first waiting client.
    let key = vec![0u8, 4, 5];
    let out = bridge_frame(&mut state, &key, true, 1, 30);
    let packet = out.packet.expect("a keyframe goes through");
    assert_eq!(packet[5], 1);
    assert_eq!(state.clients_needing_initial_frame, 1);

    // And the next keyframe to the second.
    let out = bridge_frame(&mut state, &key, true, 1, 40);
    assert!(out.packet.is_some());
    assert_eq!(state.clients_needing_initial_frame, 0);

    // With nobody waiting, delta frames go through.
    let out = bridge_frame(&mut state, &delta, false, 1, 50);
    assert!(out.packet.is_some());
}

#[test]
fn fallback_rebuilds_with_gdi_after_six_errors() {
    let mut fallback = FallbackState::new();
    for _ in 0..5 {
        let action = fallback.on_capture_result(CaptureResult::Error);
        assert_eq!(action, FallbackAction::KeepCapturer);
        assert!(!fallback.is_gdi());
    }
    let action = fallback.on_capture_result(CaptureResult::Error);
    assert_eq!(action, FallbackAction::RebuildWithGdi);
    fallback.on_rebuilt_gdi();
    assert!(fallback.is_gdi());
    assert_eq!(fallback.dxgi_failed_times, 0);
}

#[test]
fn fallback_resets_on_success_and_ignores_would_block() {
    let mut fallback = FallbackState::new();
    for _ in 0..4 {
        fallback.on_capture_result(CaptureResult::Error);
    }
    fallback.on_capture_result(CaptureResult::WouldBlock);
    assert_eq!(fallback.dxgi_failed_times, 4);
    fallback.on_capture_result(CaptureResult::Frame);
    assert_eq!(fallback.dxgi_failed_times, 0);
}

#[test]
fn emitted_timestamps_strictly_increase() {
    let mut session = CaptureSession::new();
    let f1 = session.emit_frame(vec![1], true, 5);
    let f2 = session.emit_frame(vec![2], false, 6);
    let f3 = session.emit_frame(vec![3], false, 40);
    assert!(f2.timestamp > f1.timestamp);
    assert!(f3.timestamp > f2.timestamp);
}

#[test]
fn input_messages_are_queued() {
    let mut state = ClientState::new();
    let displays = one_display();
    // A Ctrl-Alt-Del input message (type 10).
    let cad = vec![0u8, 10, 0, 4];
    let r = handle_message(&mut state, &cad, 1920, 1080, &displays, 0);
    assert_eq!(r.len(), 0);
    // A keyboard input message (type 1): the blob after offset four is queued.
    let kbd = vec![0u8, 1, 0, 6, 0, 0x41];
    handle_message(&mut state, &kbd, 1920, 1080, &displays, 0);
    let drained = state.get_pending_inputs();
    assert_eq!(drained.len(), 2);
    assert!(matches!(drained[0], capture_agent::session::InputEvent::CtrlAltDel));
    match &drained[1] {
        capture_agent::session::InputEvent::Keyboard { data } => {
            assert_eq!(data, &vec![0u8, 0x41]);
        }
        other => panic!("unexpected event {other:?}"),
    }
    assert_eq!(state.get_pending_inputs().len(), 0);
}

#[test]
fn writer_accounting_balances() {
    let mut w = WriterAccounting::new();
    w.record_frame_sent();
    w.record_frame_sent();
    w.record_ping_reply();
    w.record_control_reply();
    w.record_frame_sent();
    assert_eq!(w.total_writes, 5);
    assert_eq!(w.sent + w.ping_replies + w.control_replies, w.total_writes);
    assert_eq!(w.sent, 3);
    assert_eq!(w.ping_replies, 1);
    assert_eq!(w.control_replies, 1);
}

#[test]
fn resize_command_updates_settings_and_replies() {
    let mut state = ClientState::new();
    let displays = one_display();
    // Type 5: quality 80, fps 24, scaling 512/1024, then a height field.
    let resize = vec![0u8, 5, 0, 10, 80, 24, 0x02, 0x00, 0x04, 0x38];
    let packets = handle_message(&mut state, &resize, 1920, 1080, &displays, 0);
    assert_eq!(packets.len(), 2);
    // The resolution packet reflects the new scaling factor: halved.
    assert_eq!(packets[0], vec![0, 7, 0, 8, 0x03, 0xc0, 0x02, 0x1c]);
    assert_eq!(state.get_scaling_factor(), 512);
    assert_eq!(state.compression_quality, 80);
    assert_eq!(state.target_fps, 24);
    assert!(state.is_force_keyframe());
    assert!(state.full_refresh_requested);
}

#[test]
fn delta_drop_leaves_session_untouched() {
    let mut state = ClientState::new();
    state.increment_client_count(0);
    let needing_before = state.clients_needing_initial_frame;
    let keyframe_wish = state.is_force_keyframe();
    let out = bridge_frame(&mut state, &vec![1u8, 2, 3], false, 1, 10);
    assert!(out.packet.is_none());
    assert!(out.request_keyframe);
    // Dropping a delta frame changes nothing in the session state.
    assert_eq!(state.clients_needing_initial_frame, needing_before);
    assert_eq!(state.is_force_keyframe(), keyframe_wish);
}
