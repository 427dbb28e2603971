use ecom_api::session::{build_auth_status, new_session_id, SessionCache, SessionData};

fn data(id: i64, email: &str, name: &str) -> SessionData {
    SessionData { user_id: id, email: email.to_string(), name: name.to_string() }
}

#[test]
fn session_ids_are_32_alphanumerics() {
    let a = new_session_id();
    let b = new_session_id();
    assert_eq!(a.chars().count(), 32);
    assert!(a.chars().all(|c| c.is_ascii_alphanumeric()));
    assert_ne!(a, b);
}

#[test]
fn started_session_reads_back_and_ends() {
    let mut c = SessionCache::new();
    assert!(c.lookup("s1").is_none());
    c.insert("s1".to_string(), 7, "a@b.c".to_string(), "Ani".to_string());
    let s = c.lookup("s1").unwrap();
    assert_eq!((s.user_id, s.email.as_str(), s.name.as_str()), (7, "a@b.c", "Ani"));
    c.rename("s1", "Budi".to_string());
    assert_eq!(c.lookup("s1").unwrap().name, "Budi");
    c.rename("nope", "X".to_string());
    assert!(c.lookup("nope").is_none());
    c.remove("s1");
    assert!(c.lookup("s1").is_none());
}

#[test]
fn verify_prefers_cache_then_adopts_database_answer() {
    let mut c = SessionCache::new();
    let s = c.verify("s2", Some(data(3, "x@y.z", "X"))).unwrap();
    assert_eq!(s.email, "x@y.z");
    let again = c.verify("s2", None).unwrap();
    assert_eq!(again.user_id, 3);
    assert!(c.verify("s3", None).is_none());
    assert!(c.lookup("s3").is_none());
}

#[test]
fn auth_status_prefers_stored_non_empty_name() {
    let none = build_auth_status(None, None);
    assert!(!none.logged_in);
    assert_eq!((none.email.as_str(), none.name.as_str(), none.verified), ("", "", 0));
    let st = build_auth_status(Some(data(1, "a@b.c", "Session")), Some((Some("Stored".to_string()), 1)));
    assert!(st.logged_in);
    assert_eq!(st.name, "Stored");
    assert_eq!(st.verified, 1);
    let st = build_auth_status(Some(data(1, "a@b.c", "Session")), Some((Some(String::new()), 0)));
    assert_eq!(st.name, "Session");
    let st = build_auth_status(Some(data(1, "a@b.c", "Session")), None);
    assert_eq!((st.name.as_str(), st.verified), ("Session", 0));
}

#[test]
fn session_survives_a_restart_and_ends_at_logout() {
    // The stored row of the session, as the table would give it back.
    let row = || Some(data(7, "a@x.id", "Ani"));
    let mut cache = SessionCache::new();
    cache.insert("S1".to_string(), 7, "a@x.id".to_string(), "Ani".to_string());
    assert_eq!(cache.verify("S1", None).map(|s| s.name), Some("Ani".to_string()));
    // After a restart the cache is empty; the row is adopted again.
    let mut restarted = SessionCache::new();
    assert!(restarted.lookup("S1").is_none());
    assert_eq!(restarted.verify("S1", row()).map(|s| (s.user_id, s.email)), Some((7, "a@x.id".to_string())));
    assert_eq!(restarted.lookup("S1").map(|s| s.name), Some("Ani".to_string()));
    // Logout removes it from the cache and its row is gone.
    restarted.remove("S1");
    assert!(restarted.verify("S1", None).is_none());
}
