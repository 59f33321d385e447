use auth_api::token::{current_epoch, has_expired, TokenConfig};

#[test]
fn load_uses_defaults_when_unset() {
    let config = TokenConfig::load(None, None, None);
    assert_eq!(config.ttl_seconds, 300);
    assert_eq!(config.renew_threshold_seconds, 30);
    assert_eq!(config.service_ttl_seconds, 604_800);
}

#[test]
fn load_reads_integers_and_falls_back_on_garbage() {
    let config = TokenConfig::load(Some("120"), Some("abc"), Some("-5"));
    assert_eq!(config.ttl_seconds, 120);
    assert_eq!(config.renew_threshold_seconds, 30);
    assert_eq!(config.service_ttl_seconds, -5);
}

#[test]
fn expiry_is_inclusive() {
    assert!(has_expired(10, 10));
    assert!(has_expired(10, 11));
    assert!(!has_expired(10, 9));
}

#[test]
fn current_epoch_of_clock_values() {
    assert_eq!(current_epoch(None), 0);
    assert_eq!(current_epoch(Some(1_700_000_000)), 1_700_000_000);
    assert_eq!(current_epoch(Some(u64::MAX)), -1);
}
