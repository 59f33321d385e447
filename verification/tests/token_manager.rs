use auth_api::access::AccessSnapshot;
use auth_api::manager::TokenManager;
use auth_api::store::DB;
use auth_api::token::{TokenConfig, TokenError, TokenPayload, TokenRecord};

fn config(ttl: i64, threshold: i64) -> TokenConfig {
    TokenConfig { ttl_seconds: ttl, renew_threshold_seconds: threshold, service_ttl_seconds: 604_800 }
}

fn user(id: i32) -> TokenPayload {
    TokenPayload::User { user_id: id, username: format!("user{}", id), name: format!("User {}", id) }
}

fn record(token: &str, user_id: i32, expires_at: i64) -> TokenRecord {
    TokenRecord { token: token.to_string(), payload: user(user_id), expires_at }
}

fn snapshot(user_id: i32, service_id: i32, permissions: &[&str], expires_at: i64) -> AccessSnapshot {
    AccessSnapshot {
        user_id,
        service_id,
        roles: vec!["reader".to_string()],
        permissions: permissions.iter().map(|p| p.to_string()).collect(),
        scopes: vec![],
        expires_at,
    }
}

fn payload_user_id(payload: &TokenPayload) -> Option<i32> {
    payload.user_id()
}

#[test]
fn manager_reports_its_lifetimes() {
    let manager = TokenManager::new(config(300, 30), "secret");
    assert_eq!(manager.ttl(), 300);
    assert_eq!(manager.service_ttl(), 604_800);
    assert_eq!(manager.settings().renew_threshold_seconds, 30);
}

#[test]
fn issued_user_token_expires_one_lifetime_later() {
    let manager = TokenManager::new(config(300, 30), "secret");
    let mut db = DB::new();
    let issue = manager.issue_token(&mut db, user(7), 1_000).unwrap();
    assert_eq!(issue.expires_at, 1_300);
    assert_eq!(issue.token.len(), 64);
    assert_eq!(db.token_count(), 1);
    let row = db.fetch_token(&issue.token).unwrap();
    assert_eq!(row.expires_at, 1_300);
    assert_eq!(payload_user_id(&row.payload), Some(7));
}

#[test]
fn issued_service_token_carries_the_service() {
    let manager = TokenManager::new(config(300, 30), "secret");
    let mut db = DB::new();
    let issue = manager.issue_service_token(&mut db, 3, "billing", 1_000).unwrap();
    assert_eq!(issue.expires_at, 1_000 + 604_800);
    let row = db.fetch_token(&issue.token).unwrap();
    match row.payload {
        TokenPayload::Service { service_id, service_name } => {
            assert_eq!(service_id, 3);
            assert_eq!(service_name, "billing");
        }
        _ => panic!("a service token carries a service"),
    }
}

#[test]
fn two_issues_for_one_user_give_two_tokens() {
    let manager = TokenManager::new(config(300, 30), "secret");
    let mut db = DB::new();
    let first = manager.issue_token(&mut db, user(7), 1_000).unwrap();
    let second = manager.issue_token(&mut db, user(7), 1_000).unwrap();
    assert_ne!(first.token, second.token);
    assert_eq!(db.token_count(), 2);
}

#[test]
fn storing_a_token_twice_fails_and_changes_nothing() {
    let manager = TokenManager::new(config(300, 30), "secret");
    let mut db = DB::new();
    assert!(manager.store_token(&mut db, record("t1", 1, 500)).is_ok());
    let again = manager.store_token(&mut db, record("t1", 2, 900));
    assert!(matches!(again, Err(TokenError::Database)));
    assert_eq!(db.token_count(), 1);
    assert_eq!(db.fetch_token("t1").unwrap().expires_at, 500);
}

#[test]
fn issue_then_validate_returns_the_payload() {
    let manager = TokenManager::new(config(300, 30), "secret");
    let mut db = DB::new();
    let issue = manager.issue_token(&mut db, user(42), 1_000).unwrap();
    let validation = manager.validate_token(&mut db, &issue.token, false, 1_001).unwrap();
    assert!(!validation.renewed);
    assert_eq!(validation.expires_at, 1_300);
    assert_eq!(validation.record.token, issue.token);
    match validation.record.payload {
        TokenPayload::User { user_id, username, name } => {
            assert_eq!(user_id, 42);
            assert_eq!(username, "user42");
            assert_eq!(name, "User 42");
        }
        _ => panic!("a user token carries a user"),
    }
}

#[test]
fn unknown_token_is_not_found() {
    let manager = TokenManager::new(config(300, 30), "secret");
    let mut db = DB::new();
    let result = manager.validate_token(&mut db, "nope", true, 1_000);
    assert!(matches!(result, Err(TokenError::NotFound)));
    assert_eq!(db.token_count(), 0);
}

#[test]
fn token_expires_at_its_expiry_second_and_is_removed() {
    let manager = TokenManager::new(config(300, 30), "secret");
    let mut db = DB::new();
    db.insert_token(record("t1", 1, 1_000));
    db.insert_token(record("t2", 1, 2_000));
    let at_expiry = manager.validate_token(&mut db, "t1", true, 1_000);
    assert!(matches!(at_expiry, Err(TokenError::Expired)));
    assert!(db.fetch_token("t1").is_none());
    assert_eq!(db.token_count(), 1);
    let after = manager.validate_token(&mut db, "t1", true, 1_000);
    assert!(matches!(after, Err(TokenError::NotFound)));
}

#[test]
fn token_is_valid_one_second_before_expiry() {
    let manager = TokenManager::new(config(300, 0), "secret");
    let mut db = DB::new();
    db.insert_token(record("t1", 1, 1_000));
    let validation = manager.validate_token(&mut db, "t1", true, 999).unwrap();
    assert!(!validation.renewed);
    assert_eq!(validation.expires_at, 1_000);
}

#[test]
fn token_is_renewed_within_the_threshold() {
    let manager = TokenManager::new(config(300, 30), "secret");
    let mut db = DB::new();
    db.insert_token(record("t1", 1, 1_000));
    let validation = manager.validate_token(&mut db, "t1", true, 970).unwrap();
    assert!(validation.renewed);
    assert_eq!(validation.expires_at, 1_270);
    assert_eq!(validation.record.expires_at, 1_270);
    assert_eq!(db.fetch_token("t1").unwrap().expires_at, 1_270);
}

#[test]
fn token_is_not_renewed_outside_the_threshold() {
    let manager = TokenManager::new(config(300, 30), "secret");
    let mut db = DB::new();
    db.insert_token(record("t1", 1, 1_000));
    let validation = manager.validate_token(&mut db, "t1", true, 969).unwrap();
    assert!(!validation.renewed);
    assert_eq!(validation.expires_at, 1_000);
    assert_eq!(db.fetch_token("t1").unwrap().expires_at, 1_000);
}

#[test]
fn token_is_not_renewed_unless_asked() {
    let manager = TokenManager::new(config(300, 30), "secret");
    let mut db = DB::new();
    db.insert_token(record("t1", 1, 1_000));
    let validation = manager.validate_token(&mut db, "t1", false, 990).unwrap();
    assert!(!validation.renewed);
    assert_eq!(db.fetch_token("t1").unwrap().expires_at, 1_000);
}

#[test]
fn threshold_of_zero_or_less_disables_renewal() {
    for threshold in [0, -1, -30] {
        let manager = TokenManager::new(config(300, threshold), "secret");
        let mut db = DB::new();
        db.insert_token(record("t1", 1, 1_000));
        let validation = manager.validate_token(&mut db, "t1", true, 999).unwrap();
        assert!(!validation.renewed, "threshold {}", threshold);
        assert_eq!(db.fetch_token("t1").unwrap().expires_at, 1_000);
    }
}

#[test]
fn service_tokens_are_never_renewed() {
    let manager = TokenManager::new(config(300, 1_000_000), "secret");
    let mut db = DB::new();
    let issue = manager.issue_service_token(&mut db, 3, "billing", 1_000).unwrap();
    let validation = manager.validate_service_token(&mut db, &issue.token, 1_000 + 604_799).unwrap();
    assert!(!validation.renewed);
    assert_eq!(validation.expires_at, 1_000 + 604_800);
    let expired = manager.validate_service_token(&mut db, &issue.token, 1_000 + 604_800);
    assert!(matches!(expired, Err(TokenError::Expired)));
}

#[test]
fn sliding_renewal_then_no_second_renewal() {
    let manager = TokenManager::new(config(300, 250), "secret");
    let mut db = DB::new();
    let issue = manager.issue_token(&mut db, user(1), 1_000).unwrap();
    // Right after the issue the token has 300 seconds left, more than the threshold.
    let fresh = manager.validate_token(&mut db, &issue.token, true, 1_000).unwrap();
    assert!(!fresh.renewed);
    // Fifty seconds on it has 250 left, which is within the threshold.
    let first = manager.validate_token(&mut db, &issue.token, true, 1_050).unwrap();
    assert!(first.renewed);
    assert_eq!(first.expires_at, 1_350);
    let second = manager.validate_token(&mut db, &issue.token, true, 1_050).unwrap();
    assert!(!second.renewed);
    assert_eq!(second.expires_at, 1_350);
}

#[test]
fn revoke_tells_whether_a_row_went() {
    let manager = TokenManager::new(config(300, 30), "secret");
    let mut db = DB::new();
    db.insert_token(record("t1", 1, 1_000));
    assert_eq!(manager.delete_token(&mut db, "t1").unwrap(), true);
    assert_eq!(manager.delete_token(&mut db, "t1").unwrap(), false);
    assert_eq!(db.token_count(), 0);
}

#[test]
fn revoke_all_tokens_of_a_user() {
    let manager = TokenManager::new(config(300, 30), "secret");
    let mut db = DB::new();
    db.insert_token(record("a", 1, 1_000));
    db.insert_token(record("b", 2, 1_000));
    db.insert_token(record("c", 1, 2_000));
    db.insert_token(TokenRecord {
        token: "s".to_string(),
        payload: TokenPayload::Service { service_id: 1, service_name: "one".to_string() },
        expires_at: 5_000,
    });
    assert_eq!(manager.delete_tokens_for_user(&mut db, 1).unwrap(), 2);
    assert_eq!(db.token_count(), 2);
    assert!(db.fetch_token("b").is_some());
    assert!(db.fetch_token("s").is_some());
    assert_eq!(manager.delete_tokens_for_user(&mut db, 1).unwrap(), 0);
}

#[test]
fn cache_stores_loads_and_overwrites() {
    let manager = TokenManager::new(config(300, 30), "secret");
    let mut db = DB::new();
    assert!(manager.load_access_cache(&mut db, "t1", 5).unwrap().is_none());
    manager.store_access_cache(&mut db, "t1", 5, &snapshot(1, 5, &["read"], 1_300), 1_300).unwrap();
    manager.store_access_cache(&mut db, "t1", 6, &snapshot(1, 6, &["write"], 1_300), 1_300).unwrap();
    assert_eq!(db.cache_count(), 2);
    let loaded = manager.load_access_cache(&mut db, "t1", 5).unwrap().unwrap();
    assert_eq!(loaded.expires_at, 1_300);
    assert_eq!(loaded.access_json.permissions, vec!["read".to_string()]);
    manager.store_access_cache(&mut db, "t1", 5, &snapshot(1, 5, &["read", "write"], 1_900), 1_900).unwrap();
    assert_eq!(db.cache_count(), 2);
    let loaded = manager.load_access_cache(&mut db, "t1", 5).unwrap().unwrap();
    assert_eq!(loaded.expires_at, 1_900);
    assert_eq!(loaded.access_json.permissions, vec!["read".to_string(), "write".to_string()]);
    let other = manager.load_access_cache(&mut db, "t1", 6).unwrap().unwrap();
    assert_eq!(other.access_json.permissions, vec!["write".to_string()]);
}

fn cached_db() -> DB {
    let mut db = DB::new();
    db.insert_token(record("u1a", 1, 1_000));
    db.insert_token(record("u1b", 1, 1_000));
    db.insert_token(record("u2", 2, 1_000));
    for (token, user_id) in [("u1a", 1), ("u1b", 1), ("u2", 2)] {
        for service_id in [10, 20] {
            db.store_access_cache(token, service_id, &snapshot(user_id, service_id, &["read"], 900), 900);
        }
    }
    db
}

#[test]
fn invalidate_for_user_in_service() {
    let manager = TokenManager::new(config(300, 30), "secret");
    let mut db = cached_db();
    assert_eq!(manager.delete_access_cache(&mut db, 1, 10).unwrap(), 2);
    assert_eq!(db.cache_count(), 4);
    assert!(db.load_access_cache("u1a", 10).is_none());
    assert!(db.load_access_cache("u1b", 10).is_none());
    assert!(db.load_access_cache("u1a", 20).is_some());
    assert!(db.load_access_cache("u2", 10).is_some());
}

#[test]
fn invalidate_for_user() {
    let manager = TokenManager::new(config(300, 30), "secret");
    let mut db = cached_db();
    assert_eq!(manager.delete_access_cache_for_user(&mut db, 1).unwrap(), 4);
    assert_eq!(db.cache_count(), 2);
    assert!(db.load_access_cache("u2", 10).is_some());
    assert!(db.load_access_cache("u2", 20).is_some());
}

#[test]
fn invalidate_for_service() {
    let manager = TokenManager::new(config(300, 30), "secret");
    let mut db = cached_db();
    assert_eq!(manager.delete_access_cache_for_service(&mut db, 20).unwrap(), 3);
    assert_eq!(db.cache_count(), 3);
    assert!(db.load_access_cache("u1a", 20).is_none());
    assert!(db.load_access_cache("u1a", 10).is_some());
}

#[test]
fn revocation_takes_the_cache_rows_of_the_token() {
    let manager = TokenManager::new(config(300, 30), "secret");
    let mut db = cached_db();
    assert_eq!(manager.delete_token(&mut db, "u1a").unwrap(), true);
    assert!(db.load_access_cache("u1a", 10).is_none());
    assert!(db.load_access_cache("u1a", 20).is_none());
    assert_eq!(db.cache_count(), 4);
    // What is left for the person lies under their other token.
    assert_eq!(manager.delete_access_cache_for_user(&mut db, 1).unwrap(), 2);
    assert_eq!(manager.cleanup_expired(&mut db, 901).unwrap(), (0, 2));
    assert_eq!(db.cache_count(), 0);
}

#[test]
fn revocation_of_a_person_takes_their_cache_rows() {
    let manager = TokenManager::new(config(300, 30), "secret");
    let mut db = cached_db();
    assert_eq!(manager.delete_tokens_for_user(&mut db, 1).unwrap(), 2);
    assert_eq!(db.token_count(), 1);
    assert_eq!(db.cache_count(), 2);
    assert!(db.load_access_cache("u2", 10).is_some());
    assert!(db.load_access_cache("u2", 20).is_some());
}

#[test]
fn a_refused_unknown_token_leaves_nothing_in_the_cache() {
    let manager = TokenManager::new(config(300, 30), "secret");
    let mut db = DB::new();
    db.insert_token(record("t", 1, 1_000));
    manager.store_access_cache(&mut db, "t", 5, &snapshot(1, 5, &["read"], 1_200), 1_200).unwrap();
    assert_eq!(manager.cleanup_expired(&mut db, 1_100).unwrap(), (1, 0));
    assert_eq!(db.cache_count(), 1);
    assert!(matches!(manager.validate_token(&mut db, "t", true, 1_100), Err(TokenError::NotFound)));
    assert_eq!(db.cache_count(), 0);
}

#[test]
fn cache_rows_outlive_a_reaped_token_until_they_expire() {
    let manager = TokenManager::new(config(300, 30), "secret");
    let mut db = DB::new();
    db.insert_token(record("t", 1, 1_000));
    manager.store_access_cache(&mut db, "t", 5, &snapshot(1, 5, &["read"], 1_200), 1_200).unwrap();
    assert_eq!(manager.cleanup_expired(&mut db, 1_100).unwrap(), (1, 0));
    assert_eq!(db.cache_count(), 1);
    assert_eq!(manager.cleanup_expired(&mut db, 1_201).unwrap(), (0, 1));
    assert_eq!(db.cache_count(), 0);
}

#[test]
fn clear_empties_the_cache() {
    let manager = TokenManager::new(config(300, 30), "secret");
    let mut db = cached_db();
    assert_eq!(manager.clear_access_cache(&mut db).unwrap(), 6);
    assert_eq!(db.cache_count(), 0);
    assert_eq!(db.token_count(), 3);
}

#[test]
fn reaper_removes_what_expires_before_now() {
    let manager = TokenManager::new(config(300, 30), "secret");
    let mut db = DB::new();
    db.insert_token(record("old", 1, 99));
    db.insert_token(record("edge", 1, 100));
    db.insert_token(record("new", 1, 101));
    db.store_access_cache("old", 1, &snapshot(1, 1, &[], 50), 50);
    db.store_access_cache("edge", 1, &snapshot(1, 1, &[], 100), 100);
    db.store_access_cache("new", 2, &snapshot(1, 2, &[], 150), 150);
    assert_eq!(manager.cleanup_expired(&mut db, 100).unwrap(), (1, 1));
    assert!(db.fetch_token("old").is_none());
    assert!(db.fetch_token("edge").is_some());
    assert!(db.fetch_token("new").is_some());
    assert!(db.load_access_cache("old", 1).is_none());
    assert!(db.load_access_cache("edge", 1).is_some());
    // A second reaping at the same time finds nothing.
    assert_eq!(manager.cleanup_expired(&mut db, 100).unwrap(), (0, 0));
    assert_eq!(manager.cleanup_expired(&mut db, 1_000).unwrap(), (2, 2));
    assert_eq!(db.token_count(), 0);
    assert_eq!(db.cache_count(), 0);
}

#[test]
fn newest_live_token_of_a_user() {
    let mut db = DB::new();
    db.insert_token(record("a", 1, 500));
    db.insert_token(record("b", 1, 900));
    db.insert_token(record("c", 1, 700));
    db.insert_token(record("d", 2, 2_000));
    assert_eq!(db.live_token_for_user(1, 100).unwrap().token, "b");
    assert_eq!(db.live_token_for_user(1, 899).unwrap().token, "b");
    assert!(db.live_token_for_user(1, 900).is_none());
    assert_eq!(db.live_token_for_user(2, 100).unwrap().token, "d");
    assert!(db.live_token_for_user(3, 100).is_none());
}

#[test]
fn touch_is_a_compare_and_swap() {
    let mut db = DB::new();
    db.insert_token(record("t", 1, 1_000));
    assert!(db.touch_token("t", 999, 2_000).is_none());
    assert_eq!(db.fetch_token("t").unwrap().expires_at, 1_000);
    let touched = db.touch_token("t", 1_000, 2_000).unwrap();
    assert_eq!(touched.expires_at, 2_000);
    assert!(db.touch_token("t", 1_000, 3_000).is_none());
    assert_eq!(db.fetch_token("t").unwrap().expires_at, 2_000);
    assert!(db.touch_token("missing", 1_000, 3_000).is_none());
}
