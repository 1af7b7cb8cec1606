use narada_agent_tui::nars_projection::parse_websocket_endpoint;
use narada_agent_tui::websocket::{
    check_handshake_response, find_bytes, frame_action, handshake_request, FrameAction,
};

#[test]
fn handshake_request_names_path_host_and_key() {
    let endpoint = parse_websocket_endpoint("ws://127.0.0.1:12345/events").expect("endpoint");
    assert_eq!(
        handshake_request(&endpoint, "dGhlIHNhbXBsZSBub25jZQ=="),
        "GET /events HTTP/1.1\r\nHost: 127.0.0.1:12345\r\nUpgrade: websocket\r\nConnection: Upgrade\r\nSec-WebSocket-Key: dGhlIHNhbXBsZSBub25jZQ==\r\nSec-WebSocket-Version: 13\r\n\r\n"
    );
}

#[test]
fn handshake_response_must_switch_protocols_and_answer_the_key() {
    let key = "dGhlIHNhbXBsZSBub25jZQ==";
    let good = "HTTP/1.1 101 Switching Protocols\r\nUpgrade: websocket\r\nSEC-WEBSOCKET-ACCEPT:  s3pPLMBiTxaQ9kYGzzhZRbK+xOo= \r\n\r\n";
    assert_eq!(check_handshake_response(good, key), Ok(()));
    assert_eq!(
        check_handshake_response("HTTP/1.1 200 OK\r\n\r\n", key),
        Err("nars_attach_handshake_not_switching_protocols".to_string())
    );
    assert_eq!(
        check_handshake_response("HTTP/1.1 101 Switching Protocols\r\nSec-WebSocket-Accept: wrong\r\n\r\n", key),
        Err("nars_attach_handshake_accept_mismatch".to_string())
    );
    assert_eq!(
        check_handshake_response("HTTP/1.1 101 Switching Protocols\r\n\r\n", key),
        Err("nars_attach_handshake_accept_mismatch".to_string())
    );
    assert_eq!(
        check_handshake_response("", key),
        Err("nars_attach_handshake_not_switching_protocols".to_string())
    );
}

#[test]
fn received_frames_map_to_actions() {
    assert_eq!(frame_action(1, b"hi".to_vec()), FrameAction::Text(b"hi".to_vec()));
    assert_eq!(frame_action(8, Vec::new()), FrameAction::Close);
    assert_eq!(frame_action(9, vec![7]), FrameAction::Pong(vec![7]));
    assert_eq!(frame_action(10, Vec::new()), FrameAction::Skip);
    assert_eq!(frame_action(2, vec![1]), FrameAction::Skip);
}

#[test]
fn header_end_is_the_first_blank_line() {
    assert_eq!(find_bytes(b"HTTP/1.1 101 OK\r\n\r\nrest\r\n\r\n", b"\r\n\r\n"), Some(15));
    assert_eq!(find_bytes(b"partial\r\n", b"\r\n\r\n"), None);
    assert_eq!(find_bytes(b"ab", b"abc"), None);
    assert_eq!(find_bytes(b"abc", b"c"), Some(2));
}
