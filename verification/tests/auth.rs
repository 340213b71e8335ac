use idesk::connection::auth::{simple_hash, AuthManager};

#[test]
fn simple_hash_is_fnv1a_in_hex() {
    assert_eq!(simple_hash(""), "cbf29ce484222325");
    assert_eq!(simple_hash("a"), "af63dc4c8601ec8c");
    assert_eq!(simple_hash("foobar"), "85944171f73967e8");
}

#[test]
fn simple_hash_differs_for_different_pins() {
    assert_ne!(simple_hash("1234"), simple_hash("1235"));
    assert_eq!(simple_hash("1234"), simple_hash("1234"));
}

#[test]
fn verify_pin_after_set_pin() {
    let mut auth = AuthManager::new();
    auth.set_pin("123-456-789", "4321");
    assert!(auth.verify_pin("123-456-789", "4321"));
    assert!(!auth.verify_pin("123-456-789", "1234"));
}

#[test]
fn verify_pin_without_pin_rejects() {
    let auth = AuthManager::new();
    assert!(!auth.verify_pin("123-456-789", ""));
    assert!(!auth.verify_pin("", ""));
}

#[test]
fn set_pin_replaces_earlier_pin() {
    let mut auth = AuthManager::new();
    auth.set_pin("s", "old");
    auth.set_pin("s", "new");
    assert!(auth.verify_pin("s", "new"));
    assert!(!auth.verify_pin("s", "old"));
}

#[test]
fn set_pin_leaves_other_sessions() {
    let mut auth = AuthManager::new();
    auth.set_pin("a", "1111");
    auth.set_pin("b", "2222");
    assert!(auth.verify_pin("a", "1111"));
    assert!(auth.verify_pin("b", "2222"));
    assert!(!auth.verify_pin("a", "2222"));
    assert!(!auth.verify_pin("c", "1111"));
}
