use idesk::connection::id::SessionId;

#[test]
fn session_id_format() {
    let id = SessionId(123456789);
    assert_eq!(id.to_string(), "123-456-789");
}

#[test]
fn session_id_parse() {
    let id = SessionId::parse("123-456-789").unwrap();
    assert_eq!(id, SessionId(123456789));
}

#[test]
fn session_id_parse_invalid() {
    assert!(SessionId::parse("12345").is_none());
    assert!(SessionId::parse("abc-def-ghi").is_none());
}

#[test]
fn session_id_random() {
    let id = SessionId::random();
    let s = id.to_string();
    assert_eq!(s.len(), 11); // XXX-XXX-XXX
    assert!(SessionId::parse(&s).is_some());
}

#[test]
fn session_id_format_pads_groups() {
    assert_eq!(SessionId(0).to_string(), "000-000-000");
    assert_eq!(SessionId(7).to_string(), "000-000-007");
    assert_eq!(SessionId(1_002_003).to_string(), "001-002-003");
    assert_eq!(SessionId(999_999_999).to_string(), "999-999-999");
}

#[test]
fn session_id_format_beyond_nine_digits() {
    assert_eq!(SessionId(4_294_967_295).to_string(), "4294-967-295");
    assert_eq!(SessionId(1_000_000_000).to_string(), "1000-000-000");
}

#[test]
fn session_id_parse_skips_non_digits() {
    assert_eq!(SessionId::parse("123456789"), Some(SessionId(123456789)));
    assert_eq!(SessionId::parse(" 12 3a45-6é789 "), Some(SessionId(123456789)));
    assert_eq!(SessionId::parse("000-000-001"), Some(SessionId(1)));
}

#[test]
fn session_id_parse_needs_exactly_nine_digits() {
    assert!(SessionId::parse("").is_none());
    assert!(SessionId::parse("12345678").is_none());
    assert!(SessionId::parse("1234567890").is_none());
    assert!(SessionId::parse("123-456-7890").is_none());
}

#[test]
fn session_id_round_trip_examples() {
    for v in [0u32, 1, 42, 123_456_789, 500_000_000, 999_999_999] {
        let text = SessionId(v).to_string();
        assert_eq!(text.len(), 11);
        assert_eq!(SessionId::parse(&text), Some(SessionId(v)));
    }
}

#[test]
fn session_id_random_is_below_one_billion() {
    for _ in 0..100 {
        let id = SessionId::random();
        assert!(id.0 < 1_000_000_000);
        assert_eq!(SessionId::parse(&id.to_string()), Some(id));
    }
}
