use idesk::network::ice::IceServer;
use idesk::network::signaling::{is_awaited_message, SignalingClient, SignalingMessage};
use idesk::network::webrtc_peer::{frame_message, WebRtcPeer};
use idesk::stream::pipeline::PipelineOutput;
use serde_json::Value;

#[test]
fn default_stun_servers() {
    let s = IceServer::default_stun();
    assert_eq!(s.len(), 2);
    assert_eq!(s[0].urls, vec!["stun:stun.l.google.com:19302".to_string()]);
    assert_eq!(s[1].urls, vec!["stun:stun1.l.google.com:19302".to_string()]);
    assert!(s[0].username.is_none() && s[0].credential.is_none());
}

#[test]
fn frame_message_layout() {
    let out = PipelineOutput { data: vec![0xAA, 0xBB], is_keyframe: true, timestamp_ms: 0x0102030405060708 };
    assert_eq!(
        frame_message(&out),
        vec![1, 8, 7, 6, 5, 4, 3, 2, 1, 0xAA, 0xBB]
    );
    let out = PipelineOutput { data: vec![], is_keyframe: false, timestamp_ms: 300 };
    assert_eq!(frame_message(&out), vec![0, 44, 1, 0, 0, 0, 0, 0, 0]);
}

#[test]
fn frame_message_reads_back() {
    let out = PipelineOutput { data: vec![5, 6, 7], is_keyframe: false, timestamp_ms: 1_700_000_000_123 };
    let msg = frame_message(&out);
    assert_eq!(msg.len(), 12);
    assert_eq!(msg[0], 0);
    let mut ts: [u8; 8] = [0; 8];
    ts.copy_from_slice(&msg[1..9]);
    assert_eq!(u64::from_le_bytes(ts), 1_700_000_000_123);
    assert_eq!(&msg[9..], &[5, 6, 7]);
}

#[test]
fn signaling_client_messages() {
    let mut c = SignalingClient::new("ws://localhost:8080/ws".to_string());
    assert_eq!(c.url(), "ws://localhost:8080/ws");
    assert!(c.session_id().is_none());
    assert!(c.registration_message().is_none());
    let m = c.addressed_message("bob", "offer", Value::Null);
    assert!(m.from.is_none());
    c.set_session_id("123-456-789".to_string());
    assert_eq!(c.session_id(), Some("123-456-789"));
    let r = c.registration_message().unwrap();
    assert_eq!(r.msg_type, "register");
    assert_eq!(r.from.as_deref(), Some("123-456-789"));
    assert!(r.to.is_none() && r.payload.is_none());
    let m = c.addressed_message("987-654-321", "answer", Value::String("sdp".to_string()));
    assert_eq!(m.msg_type, "answer");
    assert_eq!(m.from.as_deref(), Some("123-456-789"));
    assert_eq!(m.to.as_deref(), Some("987-654-321"));
    assert_eq!(m.payload, Some(Value::String("sdp".to_string())));
}

#[test]
fn awaited_message_filter() {
    let m = SignalingMessage {
        msg_type: "answer".to_string(),
        from: Some("peer".to_string()),
        to: None,
        payload: None,
        sdp: None,
    };
    assert!(is_awaited_message(&m, "answer", "peer"));
    assert!(!is_awaited_message(&m, "offer", "peer"));
    assert!(!is_awaited_message(&m, "answer", "other"));
    let anon = SignalingMessage { from: None, ..m.clone() };
    assert!(!is_awaited_message(&anon, "answer", "peer"));
}

#[test]
fn webrtc_peer_keeps_ice_servers() {
    let p = WebRtcPeer::new("ws://x".to_string(), IceServer::default_stun());
    assert_eq!(p.ice_servers().len(), 2);
}

#[test]
fn sdp_message_carries_the_sdp() {
    let mut c = SignalingClient::new("ws://x".to_string());
    c.set_session_id("111-222-333".to_string());
    let m = c.sdp_message("444-555-666", "offer", "v=0".to_string());
    assert_eq!(m.msg_type, "offer");
    assert_eq!(m.from.as_deref(), Some("111-222-333"));
    assert_eq!(m.to.as_deref(), Some("444-555-666"));
    assert!(m.payload.is_none());
    assert_eq!(m.sdp.as_deref(), Some("v=0"));
}
