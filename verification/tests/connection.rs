use idesk::capture::mock_capturer::MockCapturer;
use idesk::connection::{clamp_fps, sdp_of, ConnectionManager};
use idesk::encode::openh264_encoder::OpenH264Encoder;
use idesk::error::AppError;
use idesk::network::signaling::SignalingMessage;
use idesk::settings::AppSettings;
use serde_json::Value;

fn connection_error(r: Result<(Box<dyn idesk::capture::capturer::Capturer>, Box<dyn idesk::encode::encoder::Encoder>), AppError>) -> String {
    match r {
        Err(AppError::Connection(m)) => m,
        _ => panic!("expected a connection error"),
    }
}

#[test]
fn connection_manager_defaults() {
    let cm = ConnectionManager::new("ws://localhost:8080/ws".to_string());
    assert_eq!(cm.fps(), 30);
    assert!(cm.capturer.is_none() && cm.encoder.is_none() && cm.injector.is_none());
    assert_eq!(cm.webrtc().ice_servers().len(), 2);
    let client = cm.signaling_client("123-456-789".to_string());
    assert_eq!(client.url(), "ws://localhost:8080/ws");
    assert_eq!(client.session_id(), Some("123-456-789"));
}

#[test]
fn connection_manager_fps_is_clamped() {
    let mut cm = ConnectionManager::new(String::new());
    cm.set_fps(5);
    assert_eq!(cm.fps(), 10);
    cm.set_fps(120);
    assert_eq!(cm.fps(), 60);
    cm.set_fps(24);
    assert_eq!(cm.fps(), 24);
    assert_eq!(clamp_fps(0), 10);
    assert_eq!(clamp_fps(u32::MAX), 60);
}

#[test]
fn take_stream_parts_checks_in_order() {
    let mut cm = ConnectionManager::new(String::new());
    assert_eq!(connection_error(cm.take_stream_parts(false)), "Not connected to signaling");
    assert_eq!(connection_error(cm.take_stream_parts(true)), "No capturer set");
    cm.set_capturer(Box::new(MockCapturer::new(2, 2)));
    assert_eq!(connection_error(cm.take_stream_parts(false)), "Not connected to signaling");
    assert!(cm.capturer.is_some());
    assert_eq!(connection_error(cm.take_stream_parts(true)), "No encoder set");
    // the capturer was taken out before the encoder check failed
    assert!(cm.capturer.is_none());
    cm.set_capturer(Box::new(MockCapturer::new(2, 2)));
    cm.set_encoder(Box::new(OpenH264Encoder::new(2, 2, 2_000_000).unwrap()));
    let (c, _e) = cm.take_stream_parts(true).unwrap();
    assert_eq!(c.width(), 2);
    assert!(cm.capturer.is_none() && cm.encoder.is_none());
    assert!(cm.take_injector().is_none());
}

#[test]
fn sdp_is_read_from_message() {
    let mut obj = serde_json::Map::new();
    obj.insert("sdp".to_string(), Value::String("v=0".to_string()));
    let m = SignalingMessage {
        msg_type: "answer".to_string(),
        from: Some("p".to_string()),
        to: None,
        payload: Some(Value::Object(obj)),
        sdp: Some("v=0".to_string()),
    };
    assert_eq!(sdp_of(&m, "answer").unwrap(), "v=0");
    let none = SignalingMessage { payload: None, sdp: None, ..m.clone() };
    match sdp_of(&none, "answer") {
        Err(AppError::Connection(msg)) => assert_eq!(msg, "No SDP in answer"),
        _ => panic!("expected a connection error"),
    }
    let wrong = SignalingMessage { payload: Some(Value::Bool(true)), sdp: None, ..m };
    match sdp_of(&wrong, "offer") {
        Err(AppError::Connection(msg)) => assert_eq!(msg, "No SDP in offer"),
        _ => panic!("expected a connection error"),
    }
}

#[test]
fn settings_bounds() {
    let mut s = AppSettings::new();
    assert_eq!((s.fps(), s.quality()), (30, 1));
    s.set_quality(7);
    assert_eq!(s.quality(), 2);
    s.set_quality(0);
    assert_eq!(s.quality(), 0);
    s.set_fps(1);
    assert_eq!(s.fps(), 10);
    s.set_fps(61);
    assert_eq!(s.fps(), 60);
}

#[test]
fn settings_quality_sets_bitrate() {
    let mut s = AppSettings::new();
    assert_eq!(s.bitrate(), 2_000_000);
    s.set_quality(0);
    assert_eq!(s.bitrate(), 500_000);
    s.set_quality(9);
    assert_eq!(s.bitrate(), 5_000_000);
}

#[test]
fn new_manager_uses_google_stun() {
    let cm = ConnectionManager::new("ws://x".to_string());
    let servers = cm.webrtc().ice_servers();
    assert_eq!(servers.len(), 2);
    assert_eq!(servers[0].urls, vec!["stun:stun.l.google.com:19302".to_string()]);
    assert_eq!(servers[1].urls, vec!["stun:stun1.l.google.com:19302".to_string()]);
}
