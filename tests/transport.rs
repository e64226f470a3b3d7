use reclaw_conformance::{
    check_fetch_status, check_frame_count, normalize_base_url, normalize_trimmed_base_url, normalize_path, read_step,
    websocket_url, ReadStep, SocketFrame, TransportError,
};

#[test]
fn normalize_base_url_trims_and_strips_trailing_slash() {
    let normalized = normalize_base_url(" https://localhost:18789/ ".to_owned())
        .expect("base url should normalize");
    assert_eq!(normalized, "https://localhost:18789");
}

#[test]
fn normalize_base_url_rejects_non_http_scheme() {
    let error = normalize_base_url("ws://localhost".to_owned()).expect_err("should fail");
    assert_eq!(
        error.to_string(),
        "transport protocol error: base URL must start with http:// or https://"
    );
}

#[test]
fn websocket_url_maps_http_scheme_to_ws() {
    assert_eq!(
        websocket_url("http://127.0.0.1:18789"),
        "ws://127.0.0.1:18789/ws"
    );
    assert_eq!(websocket_url("https://example.com"), "wss://example.com/ws");
}

#[test]
fn normalize_base_url_rejects_blank_input() {
    let error = normalize_base_url(" \t\n ".to_owned()).expect_err("should fail");
    assert_eq!(
        error.to_string(),
        "transport protocol error: base URL cannot be empty"
    );
}

#[test]
fn normalize_base_url_strips_every_trailing_slash() {
    let normalized = normalize_base_url("\thttp://gw.local:8080///\n".to_owned())
        .expect("base url should normalize");
    assert_eq!(normalized, "http://gw.local:8080");
}

#[test]
fn normalize_base_url_keeps_a_clean_url() {
    let normalized =
        normalize_base_url("http://127.0.0.1:18789".to_owned()).expect("should normalize");
    assert_eq!(normalized, "http://127.0.0.1:18789");
}

#[test]
fn normalize_base_url_checks_scheme_after_trimming() {
    let error = normalize_base_url("  /".to_owned()).expect_err("should fail");
    assert!(matches!(error, TransportError::Protocol(_)));
    assert_eq!(
        error.to_string(),
        "transport protocol error: base URL must start with http:// or https://"
    );
}

#[test]
fn normalize_path_adds_a_missing_slash() {
    assert_eq!(normalize_path("healthz"), "/healthz");
    assert_eq!(normalize_path("/info"), "/info");
    assert_eq!(normalize_path(""), "/");
}

#[test]
fn websocket_url_appends_path_to_other_schemes() {
    assert_eq!(websocket_url("ftp://host"), "ftp://host/ws");
}

#[test]
fn transport_errors_render_their_channel() {
    let http = TransportError::Http("connection refused".to_owned());
    assert_eq!(http.to_string(), "http transport error: connection refused");
    let protocol = TransportError::Protocol("bad frame".to_owned());
    assert_eq!(protocol.to_string(), "transport protocol error: bad frame");
}

#[test]
fn socket_frames_map_to_read_steps() {
    assert_eq!(read_step(SocketFrame::Text).unwrap(), ReadStep::Decode);
    assert_eq!(read_step(SocketFrame::Ping).unwrap(), ReadStep::AnswerPing);
    assert_eq!(read_step(SocketFrame::Pong).unwrap(), ReadStep::Skip);
    assert_eq!(read_step(SocketFrame::Raw).unwrap(), ReadStep::Skip);
    assert_eq!(
        read_step(SocketFrame::Close).unwrap_err().to_string(),
        "transport protocol error: websocket closed before response"
    );
    assert_eq!(
        read_step(SocketFrame::Binary).unwrap_err().to_string(),
        "transport protocol error: unexpected binary websocket frame"
    );
}

#[test]
fn exchange_and_fetch_guards() {
    assert!(check_frame_count(1).is_ok());
    assert_eq!(
        check_frame_count(0).unwrap_err().to_string(),
        "transport protocol error: websocket exchange requires at least one frame"
    );
    assert!(check_fetch_status(200, "/healthz").is_ok());
    assert_eq!(
        check_fetch_status(503, "/readyz").unwrap_err().to_string(),
        "transport protocol error: unexpected status 503 for /readyz"
    );
}

#[test]
fn trimmed_base_url_is_checked_without_trimming_again() {
    assert_eq!(
        normalize_trimmed_base_url("https://gw//").expect("should normalize"),
        "https://gw"
    );
    assert!(normalize_trimmed_base_url(" https://gw").is_err());
    assert_eq!(
        normalize_trimmed_base_url("").unwrap_err().to_string(),
        "transport protocol error: base URL cannot be empty"
    );
}
