use idesk::network::signaling::SignalingMessage;
use idesk::server::registry::PeerRegistry;
use idesk::server::relay::{handle_close, handle_message, RelayOutcome};

fn msg(t: &str, from: Option<&str>, to: Option<&str>) -> SignalingMessage {
    SignalingMessage {
        msg_type: t.to_string(),
        from: from.map(|s| s.to_string()),
        to: to.map(|s| s.to_string()),
        payload: None,
        sdp: None,
    }
}

#[test]
fn registry_register_and_lookup() {
    let mut reg = PeerRegistry::new();
    assert!(!reg.is_online("111-111-111"));
    reg.register("111-111-111".to_string(), 7);
    assert!(reg.is_online("111-111-111"));
    assert_eq!(reg.get_session("111-111-111"), Some(7));
    assert_eq!(reg.get_session("222-222-222"), None);
}

#[test]
fn registry_reregister_replaces_connection() {
    let mut reg = PeerRegistry::new();
    reg.register("a".to_string(), 1);
    reg.register("a".to_string(), 2);
    assert_eq!(reg.get_session("a"), Some(2));
}

#[test]
fn registry_unregister() {
    let mut reg = PeerRegistry::new();
    reg.register("a".to_string(), 1);
    reg.register("b".to_string(), 2);
    reg.unregister("a");
    assert!(!reg.is_online("a"));
    assert_eq!(reg.get_session("b"), Some(2));
    reg.unregister("missing");
    assert!(reg.is_online("b"));
}

#[test]
fn relay_register_then_offer_reaches_peer() {
    let mut reg = PeerRegistry::new();
    let mut alice: Option<String> = None;
    let mut bob: Option<String> = None;
    assert_eq!(handle_message(&mut reg, 1, &mut alice, &msg("register", Some("alice"), None)), RelayOutcome::Registered);
    assert_eq!(alice.as_deref(), Some("alice"));
    assert_eq!(handle_message(&mut reg, 2, &mut bob, &msg("register", Some("bob"), None)), RelayOutcome::Registered);
    assert_eq!(handle_message(&mut reg, 1, &mut alice, &msg("offer", Some("alice"), Some("bob"))), RelayOutcome::Relayed(2));
    assert_eq!(handle_message(&mut reg, 2, &mut bob, &msg("answer", Some("bob"), Some("alice"))), RelayOutcome::Relayed(1));
    assert_eq!(handle_message(&mut reg, 2, &mut bob, &msg("ice-candidate", None, Some("alice"))), RelayOutcome::Relayed(1));
}

#[test]
fn relay_other_messages() {
    let mut reg = PeerRegistry::new();
    let mut s: Option<String> = None;
    assert_eq!(handle_message(&mut reg, 1, &mut s, &msg("offer", None, Some("nobody"))), RelayOutcome::TargetOffline);
    assert_eq!(handle_message(&mut reg, 1, &mut s, &msg("offer", None, None)), RelayOutcome::Ignored);
    assert_eq!(handle_message(&mut reg, 1, &mut s, &msg("register", None, None)), RelayOutcome::Ignored);
    assert_eq!(handle_message(&mut reg, 1, &mut s, &msg("ping", None, None)), RelayOutcome::Pong);
    assert_eq!(handle_message(&mut reg, 1, &mut s, &msg("Offer", None, Some("x"))), RelayOutcome::UnknownType);
    assert!(s.is_none());
    assert!(!reg.is_online(""));
}

#[test]
fn relay_close_takes_peer_offline() {
    let mut reg = PeerRegistry::new();
    let mut s: Option<String> = None;
    handle_message(&mut reg, 3, &mut s, &msg("register", Some("carol"), None));
    assert!(reg.is_online("carol"));
    handle_close(&mut reg, &s);
    assert!(!reg.is_online("carol"));
    assert_eq!(handle_message(&mut reg, 4, &mut None, &msg("offer", None, Some("carol"))), RelayOutcome::TargetOffline);
    handle_close(&mut reg, &None);
}

#[test]
fn registry_follows_the_last_call_per_peer() {
    let mut r = PeerRegistry::new();
    r.register("a".to_string(), 1);
    r.register("b".to_string(), 2);
    r.unregister("a");
    r.register("b".to_string(), 3);
    r.unregister("c");
    r.register("a".to_string(), 4);
    r.unregister("b");
    assert!(r.is_online("a"));
    assert_eq!(r.get_session("a"), Some(4));
    assert!(!r.is_online("b"));
    assert_eq!(r.get_session("b"), None);
    assert!(!r.is_online("c"));
}

#[test]
fn relay_answers_presence_queries_and_relays_disconnect() {
    let mut r = PeerRegistry::new();
    let mut sid: Option<String> = None;
    let q = msg("is-online", Some("a"), Some("b"));
    assert_eq!(handle_message(&mut r, 1, &mut sid, &q), RelayOutcome::Presence(false));
    let mut sid_b: Option<String> = None;
    assert_eq!(handle_message(&mut r, 2, &mut sid_b, &msg("register", Some("b"), None)), RelayOutcome::Registered);
    assert_eq!(handle_message(&mut r, 1, &mut sid, &q), RelayOutcome::Presence(true));
    assert_eq!(handle_message(&mut r, 1, &mut sid, &msg("is-online", Some("a"), None)), RelayOutcome::Ignored);
    assert_eq!(handle_message(&mut r, 1, &mut sid, &msg("disconnect", Some("a"), Some("b"))), RelayOutcome::Relayed(2));
    handle_close(&mut r, &sid_b);
    assert_eq!(handle_message(&mut r, 1, &mut sid, &q), RelayOutcome::Presence(false));
}
