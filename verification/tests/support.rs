//! Configuration, text utilities, input parsing, and the platform
//! capture-method choice.

use capture_agent::config::{Config, ConfigError, ProxyConnector};
use capture_agent::input::{
    handle_button_down, handle_button_up, handle_drag_move, handle_keyboard_event_fixed,
    handle_unicode_input_fixed, input_batch_delay, parse_mouse_event, wheel_clicks, DragState,
    KeyEvent, MouseButton, MouseButtonState, MouseCommand, MouseState,
};
use capture_agent::platform::{get_optimal_capture_method, is_dxgi_available, CaptureMethod};
use capture_agent::textutil::{
    clean_text_for_transmission, extract_filename, get_file_extension, is_valid_path,
};

fn sample_tokens(server: &str, proxy_switch: &str, auth: &str) -> Vec<String> {
    vec![
        server.to_string(),
        "8443".to_string(),
        "tenant1".to_string(),
        "proxy.example.com".to_string(),
        "3128".to_string(),
        "r1".to_string(),
        "r2".to_string(),
        proxy_switch.to_string(),
        "agent-uuid-1".to_string(),
        auth.to_string(),
        "isNoAuth".to_string(),
    ]
}

#[test]
fn test_dxgi_availability() {
    assert!(is_dxgi_available(10));
}

#[test]
fn test_capture_method() {
    let method = get_optimal_capture_method(10, 0);
    println!("Optimal capture method: {:?}", method);
}

#[test]
fn capture_method_on_old_versions() {
    assert_eq!(get_optimal_capture_method(5, 1), CaptureMethod::GDI);
    assert_eq!(get_optimal_capture_method(6, 1), CaptureMethod::GDI);
    assert_eq!(get_optimal_capture_method(6, 2), CaptureMethod::DXGI);
    assert!(!is_dxgi_available(5));
}

#[test]
fn config_parses_tokens_and_builds_url() {
    let cfg = Config::from_tokens(&sample_tokens("wss://server.example.com", "none", ""))
        .expect("eleven tokens");
    assert!(cfg.use_ssl);
    assert_eq!(cfg.server_address, "server.example.com");
    assert_eq!(cfg.server_port, "8443");
    assert!(!cfg.use_proxy);
    assert!(cfg.no_auth);
    assert_eq!(cfg.proxy_auth, None);
    assert_eq!(
        cfg.get_websocket_url_for("c_agent"),
        "wss://server.example.com:8443/ws/rev/c_agent/tenant1/agent-uuid-1"
    );
    assert_eq!(
        cfg.get_websocket_url(),
        "wss://server.example.com:8443/ws/rev/file_agent/tenant1/agent-uuid-1"
    );
}

#[test]
fn config_defaults_port_and_plain_scheme() {
    let mut tokens = sample_tokens("http://host.internal", "none", "");
    tokens[1] = String::new();
    let cfg = Config::from_tokens(&tokens).expect("eleven tokens");
    assert!(!cfg.use_ssl);
    assert_eq!(cfg.server_address, "host.internal");
    assert_eq!(
        cfg.get_websocket_url_for("c_agent"),
        "ws://host.internal:80/ws/rev/c_agent/tenant1/agent-uuid-1"
    );
}

#[test]
fn config_rejects_short_lines() {
    let tokens = vec!["a".to_string(); 10];
    assert_eq!(Config::from_tokens(&tokens).err(), Some(ConfigError::NotEnoughTokens));
}

#[test]
fn config_proxy_settings() {
    let cfg = Config::from_tokens(&sample_tokens("ws://h", "proxy", "dXNlcjpwYXNz"))
        .expect("eleven tokens");
    assert!(cfg.has_proxy());
    assert_eq!(cfg.get_proxy_url(), Some("proxy.example.com:3128".to_string()));
    assert_eq!(cfg.get_proxy_auth(), Some("dXNlcjpwYXNz".to_string()));
    let no_proxy = Config::from_tokens(&sample_tokens("ws://h", "none", "")).expect("tokens");
    assert!(!no_proxy.has_proxy());
    assert_eq!(no_proxy.get_proxy_url(), None);
}

#[test]
fn proxy_connect_request_lines() {
    let p = ProxyConnector::new(
        "proxy.example.com".to_string(),
        3128,
        "server.example.com".to_string(),
        443,
        None,
        true,
    );
    assert_eq!(
        p.connect_request().expect("no-auth request"),
        "CONNECT server.example.com:443 HTTP/1.1\r\nHost: server.example.com:443\r\nConnection: keep-alive\r\n\r\n"
    );
    let p = ProxyConnector::new(
        "proxy.example.com".to_string(),
        3128,
        "server.example.com".to_string(),
        443,
        Some("dXNlcjpwYXNz".to_string()),
        false,
    );
    let req = p.connect_request().expect("authorized request");
    assert!(req.contains("Proxy-Authorization: Basic dXNlcjpwYXNz\r\n"));
    let p = ProxyConnector::new("p".to_string(), 1, "t".to_string(), 2, None, false);
    assert!(p.connect_request().is_none());
}

#[test]
fn clean_text_keeps_printable_ascii() {
    assert_eq!(clean_text_for_transmission("ab\u{00e9}c\n\tx\u{0007}"), "abc\n\tx");
    assert_eq!(clean_text_for_transmission(""), "");
}

#[test]
fn filename_and_extension_extraction() {
    assert_eq!(extract_filename("/tmp/files/Report.TXT"), "Report.TXT");
    assert_eq!(extract_filename("C:\\Users\\docs\\a.zip"), "a.zip");
    assert_eq!(extract_filename("plain"), "plain");
    assert_eq!(extract_filename("/ends/with/"), "unknown");
    assert_eq!(get_file_extension("/tmp/files/Report.TXT"), Some("txt".to_string()));
    assert_eq!(get_file_extension("archive.tar.GZ"), Some("gz".to_string()));
    assert_eq!(get_file_extension("/tmp/noext"), None);
    assert_eq!(get_file_extension("/tmp/.hidden"), None);
}

#[test]
fn path_validity_requires_existence() {
    assert!(!is_valid_path(""));
    assert!(!is_valid_path("/no/such/path/exists/here/at/all"));
}

#[test]
fn keyboard_blob_parsing() {
    assert_eq!(
        handle_keyboard_event_fixed(&vec![0, 0x41]),
        Some(KeyEvent { down: true, extended: false, keycode: 0x41 })
    );
    assert_eq!(
        handle_keyboard_event_fixed(&vec![3, 0x25]),
        Some(KeyEvent { down: false, extended: true, keycode: 0x25 })
    );
    assert_eq!(handle_keyboard_event_fixed(&vec![9, 0x41]), None);
    assert_eq!(handle_keyboard_event_fixed(&vec![0]), None);
}

#[test]
fn unicode_blob_parsing() {
    // Action byte 0 at offset 4, then the big-endian code point.
    assert_eq!(handle_unicode_input_fixed(&vec![0, 85, 0, 0, 0, 0x20, 0xac]), Some(0x20ac));
    assert_eq!(handle_unicode_input_fixed(&vec![0, 85, 0, 0, 1, 0x20, 0xac]), None);
    assert_eq!(handle_unicode_input_fixed(&vec![0, 85, 0, 0]), None);
}

#[test]
fn mouse_blob_parsing_and_state() {
    let press = parse_mouse_event(&vec![0x02, 0x01, 0x00, 0x00, 0x80]).expect("left press");
    assert_eq!((press.x, press.y), (256, 128));
    assert_eq!(press.command, MouseCommand::ButtonDown(MouseButton::Left));

    let wheel = parse_mouse_event(&vec![0x00, 0, 0, 0, 0, 0xff, 0x88]).expect("wheel");
    assert_eq!(wheel.command, MouseCommand::Wheel { delta_y: -120, delta_x: 0 });

    assert_eq!(
        parse_mouse_event(&vec![0x88, 0, 1, 0, 1]).map(|e| e.command),
        Some(MouseCommand::DoubleClick)
    );
    assert_eq!(parse_mouse_event(&vec![0x77, 0, 1, 0, 1]), None);
    assert_eq!(parse_mouse_event(&vec![0x02, 0, 1]), None);

    let mut state = MouseState::default();
    handle_button_down(&mut state, MouseButton::Left, 10, 20);
    assert_eq!(state.left_button, MouseButtonState::Down);
    assert_eq!(state.drag_state, DragState::LeftDrag);
    assert_eq!(state.drag_start_pos, Some((10, 20)));
    handle_drag_move(&mut state, 15, 25);
    handle_button_up(&mut state, MouseButton::Left);
    assert_eq!(state.left_button, MouseButtonState::Up);
    assert_eq!(state.drag_state, DragState::NoDrag);
    assert_eq!(state.drag_start_pos, None);
}

#[test]
fn wheel_and_batch_pacing() {
    assert_eq!(wheel_clicks(-240), 2);
    assert_eq!(wheel_clicks(60), 1);
    assert_eq!(wheel_clicks(0), 1);
    assert_eq!(input_batch_delay(5), 10);
    assert_eq!(input_batch_delay(21), 15);
    assert_eq!(input_batch_delay(51), 25);
    assert_eq!(input_batch_delay(101), 50);
}
