use account_core::date::CalendarDate;
use account_core::error::{AuthError, ConflictField};
use account_core::service::{
    apply_profile_update, cached_profile, delete_flow, evict_profile, logout, open_session,
    profile_key, remember_profile, session_key, AuthConfig,
};
use account_core::session_store::SessionStore;
use account_core::text::decimal_string;
use account_core::user::{ModelEx, UpdateUserRequest};

const NOW: i64 = 1_760_000_000;

fn account(id: i64) -> ModelEx {
    let mut m = ModelEx::create_user_for_registration(
        "user@example.com".to_string(),
        "Valid1Pass!".to_string(),
        "Jane Doe".to_string(),
        None,
        None,
        CalendarDate { year: 2026, month: 10, day: 18 },
        NOW,
    )
    .unwrap();
    m.id = id;
    m
}

fn no_change() -> UpdateUserRequest {
    UpdateUserRequest {
        avatar: None,
        first_name: None,
        last_name: None,
        email: None,
        birth_of_date: None,
        phone_number: None,
        status: None,
    }
}

#[test]
fn store_get_set_expire() {
    let mut s = SessionStore::new();
    assert_eq!(s.get("k", NOW), None);
    s.set_with_expiry("k", "v1", 10, NOW);
    assert_eq!(s.get("k", NOW + 9).as_deref(), Some("v1"));
    assert_eq!(s.get("k", NOW + 10), None);
    s.set_with_expiry("k", "v2", 100, NOW);
    s.set_with_expiry("other", "w", 100, NOW);
    assert_eq!(s.get("k", NOW + 50).as_deref(), Some("v2"));
    assert_eq!(s.get("other", NOW).as_deref(), Some("w"));
}

#[test]
fn delete_reports_whether_key_existed() {
    let mut s = SessionStore::new();
    assert!(!s.delete("absent", NOW));
    s.set_with_expiry("k", "v", 10, NOW);
    assert!(s.delete("k", NOW));
    assert!(!s.delete("k", NOW));
    assert_eq!(s.get("k", NOW), None);
    s.set_with_expiry("old", "v", 1, NOW);
    assert!(!s.delete("old", NOW + 5));
}

#[test]
fn keys_are_namespaced() {
    assert_eq!(session_key("abc"), "refresh_token:session:abc");
    assert_eq!(profile_key(42), "profile:user_id:42");
    assert_eq!(profile_key(-7), "profile:user_id:-7");
    assert_eq!(decimal_string(0), "0");
    assert_eq!(decimal_string(1_234_567_890), "1234567890");
    assert_eq!(decimal_string(i64::MIN), "-9223372036854775808");
    assert_eq!(decimal_string(i64::MAX), "9223372036854775807");
}

#[test]
fn logout_twice_succeeds() {
    let config = AuthConfig::standard();
    let mut s = SessionStore::new();
    open_session(&mut s, "sid-1", &config, NOW);
    remember_profile(&mut s, 7, "{\"email\":\"user@example.com\"}", &config, NOW);
    assert!(s.get("refresh_token:session:sid-1", NOW).is_some());
    assert_eq!(logout(&mut s, "sid-1", 7, NOW), Ok(()));
    assert_eq!(s.get("refresh_token:session:sid-1", NOW), None);
    assert_eq!(cached_profile(&s, 7, NOW), None);
    assert_eq!(logout(&mut s, "sid-1", 7, NOW), Ok(()));
}

#[test]
fn profile_cache_hit_then_miss_after_update() {
    let config = AuthConfig::standard();
    let mut s = SessionStore::new();
    assert_eq!(cached_profile(&s, 7, NOW), None);
    remember_profile(&mut s, 7, "old profile", &config, NOW);
    assert_eq!(cached_profile(&s, 7, NOW + 60).as_deref(), Some("old profile"));
    let mut req = no_change();
    req.first_name = Some("Janet".to_string());
    req.email = Some("janet@example.com".to_string());
    let updated = apply_profile_update(&mut s, account(7), &req, false, NOW + 61).unwrap();
    assert_eq!(updated.first_name, "Janet");
    assert_eq!(updated.last_name, "Doe");
    assert_eq!(updated.email, "janet@example.com");
    assert_eq!(updated.id, 7);
    assert_eq!(cached_profile(&s, 7, NOW + 62), None);
}

#[test]
fn profile_update_conflict_keeps_cache() {
    let config = AuthConfig::standard();
    let mut s = SessionStore::new();
    remember_profile(&mut s, 7, "cached", &config, NOW);
    let mut req = no_change();
    req.email = Some("taken@example.com".to_string());
    let r = apply_profile_update(&mut s, account(7), &req, true, NOW);
    assert_eq!(r.err(), Some(AuthError::Conflict(ConflictField::Email)));
    assert_eq!(cached_profile(&s, 7, NOW).as_deref(), Some("cached"));
}

#[test]
fn cached_profile_expires() {
    let mut config = AuthConfig::standard();
    config.profile_ttl_secs = 5;
    let mut s = SessionStore::new();
    remember_profile(&mut s, 3, "p", &config, NOW);
    assert!(cached_profile(&s, 3, NOW + 4).is_some());
    assert!(cached_profile(&s, 3, NOW + 5).is_none());
}

#[test]
fn delete_soft_deletes_and_evicts() {
    let config = AuthConfig::standard();
    let mut s = SessionStore::new();
    remember_profile(&mut s, 9, "p", &config, NOW);
    let deleted = delete_flow(&mut s, Some(account(9)), NOW + 1).unwrap();
    assert!(deleted.is_deleted);
    assert_eq!(deleted.deleted_at, Some(NOW + 1));
    assert_eq!(cached_profile(&s, 9, NOW + 1), None);
    assert_eq!(delete_flow(&mut s, None, NOW).err(), Some(AuthError::NotFound));
    evict_profile(&mut s, 9, NOW);
}
