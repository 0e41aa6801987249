use izumo::session;

#[test]
fn fresh_session_is_clean_and_emits_no_cookie() {
    let s = session::init(vec![("user_id".to_string(), "U1".to_string())]);
    assert!(!s.is_dirty());
    assert!(s.cookie_update().is_none());
}

#[test]
fn reading_never_marks_the_session_dirty() {
    let s = session::init(vec![("user_id".to_string(), "U1".to_string())]);
    assert_eq!(s.get("user_id"), Some("U1".to_string()));
    assert_eq!(s.get("missing"), None);
    assert!(!s.is_dirty());
    assert!(s.cookie_update().is_none());
}

#[test]
fn inserting_marks_dirty_and_reemits_the_cookie() {
    let mut s = session::init(Vec::new());
    let previous = s.insert("user_id".to_string(), "U1".to_string());
    assert_eq!(previous, None);
    assert!(s.is_dirty());
    let entries = s.cookie_update().expect("a dirty session re-emits its cookie");
    assert_eq!(entries, vec![("user_id".to_string(), "U1".to_string())]);
}

#[test]
fn insert_returns_the_previous_value_and_overwrites() {
    let mut s = session::init(vec![("k".to_string(), "old".to_string())]);
    let previous = s.insert("k".to_string(), "new".to_string());
    assert_eq!(previous, Some("old".to_string()));
    assert_eq!(s.get("k"), Some("new".to_string()));
}

#[test]
fn remove_drops_the_key_and_marks_dirty() {
    let mut s = session::init(vec![
        ("a".to_string(), "1".to_string()),
        ("b".to_string(), "2".to_string()),
    ]);
    assert_eq!(s.remove("a"), Some("1".to_string()));
    assert!(s.is_dirty());
    assert_eq!(s.get("a"), None);
    assert_eq!(s.get("b"), Some("2".to_string()));
    assert_eq!(s.remove("missing"), None);
}

#[test]
fn duplicate_cookie_keys_resolve_to_the_first_entry() {
    let s = session::init(vec![
        ("k".to_string(), "first".to_string()),
        ("k".to_string(), "second".to_string()),
    ]);
    assert_eq!(s.get("k"), Some("first".to_string()));
}

#[test]
fn logout_removes_the_user_id() {
    let mut s = session::init(vec![("user_id".to_string(), "U1".to_string())]);
    izumo::controllers::logout(&mut s);
    assert_eq!(s.get("user_id"), None);
    assert!(s.is_dirty());
    assert!(s.cookie_update().is_some());
}

#[test]
fn session_handles_non_ascii_keys_and_values() {
    let mut s = session::init(Vec::new());
    s.insert("clé".to_string(), "värde-✓".to_string());
    assert_eq!(s.get("clé"), Some("värde-✓".to_string()));
    assert_eq!(s.remove("clé"), Some("värde-✓".to_string()));
    assert_eq!(s.get("clé"), None);
}
