use auth_api::protocol::{Step, StoreAnswer, StoreCall};
use auth_api::token::{TokenConfig, TokenError, TokenPayload, TokenRecord};
use auth_api::validation::ValidationTask;

fn config() -> TokenConfig {
    TokenConfig { ttl_seconds: 300, renew_threshold_seconds: 30, service_ttl_seconds: 604_800 }
}

fn row(expires_at: i64) -> TokenRecord {
    TokenRecord {
        token: "t".to_string(),
        payload: TokenPayload::User { user_id: 1, username: "u".to_string(), name: "U".to_string() },
        expires_at,
    }
}

#[test]
fn validation_begins_with_a_read() {
    match ValidationTask::begin("t", true, 300, 1_000, config()) {
        Step::Call(_, StoreCall::FetchToken { token }) => assert_eq!(token, "t"),
        _ => panic!("a validation begins with a read of the token"),
    }
}

#[test]
fn a_lost_race_reads_the_row_again_and_accepts_it() {
    let task = match ValidationTask::begin("t", true, 300, 1_000, config()) {
        Step::Call(task, _) => task,
        _ => panic!("first step"),
    };
    // The row is due for renewal: the conditional update is sent.
    let task = match task.advance(StoreAnswer::Token(Some(row(1_010)))) {
        Step::Call(task, StoreCall::TouchToken { token, previous, next }) => {
            assert_eq!(token, "t");
            assert_eq!(previous, 1_010);
            assert_eq!(next, 1_300);
            task
        }
        _ => panic!("a renewal is due"),
    };
    // Another request renewed first: no row comes back and the row is read again.
    let task = match task.advance(StoreAnswer::Token(None)) {
        Step::Call(task, StoreCall::FetchToken { token }) => {
            assert_eq!(token, "t");
            task
        }
        _ => panic!("the row is read again"),
    };
    // The row as the other request left it is accepted, and not counted as renewed here.
    match task.advance(StoreAnswer::Token(Some(row(1_299)))) {
        Step::Finish(Ok(validation)) => {
            assert!(!validation.renewed);
            assert_eq!(validation.expires_at, 1_299);
        }
        _ => panic!("the renewed row is accepted"),
    }
}

#[test]
fn a_lost_race_against_a_removal_is_not_found() {
    let task = match ValidationTask::begin("t", true, 300, 1_000, config()) {
        Step::Call(task, _) => task,
        _ => panic!("first step"),
    };
    let task = match task.advance(StoreAnswer::Token(Some(row(1_010)))) {
        Step::Call(task, StoreCall::TouchToken { .. }) => task,
        _ => panic!("a renewal is due"),
    };
    let task = match task.advance(StoreAnswer::Token(None)) {
        Step::Call(task, StoreCall::FetchToken { .. }) => task,
        _ => panic!("the row is read again"),
    };
    // What may be left under the token is removed, and the token is refused.
    let task = match task.advance(StoreAnswer::Token(None)) {
        Step::Call(task, StoreCall::DeleteToken { token }) => {
            assert_eq!(token, "t");
            task
        }
        _ => panic!("what is left under the token is removed"),
    };
    assert!(matches!(task.advance(StoreAnswer::Rows(0)), Step::Finish(Err(TokenError::NotFound))));
}

#[test]
fn an_unknown_token_is_cleared_and_refused() {
    let task = match ValidationTask::begin("t", true, 300, 1_000, config()) {
        Step::Call(task, _) => task,
        _ => panic!("first step"),
    };
    let task = match task.advance(StoreAnswer::Token(None)) {
        Step::Call(task, StoreCall::DeleteToken { token }) => {
            assert_eq!(token, "t");
            task
        }
        _ => panic!("what is left under the token is removed"),
    };
    // The removal is best effort: a store that fails it changes nothing of the refusal.
    assert!(matches!(task.advance(StoreAnswer::Failed), Step::Finish(Err(TokenError::NotFound))));
}

#[test]
fn a_row_that_expired_meanwhile_is_removed_and_refused() {
    let task = match ValidationTask::begin("t", true, 300, 1_000, config()) {
        Step::Call(task, _) => task,
        _ => panic!("first step"),
    };
    let task = match task.advance(StoreAnswer::Token(Some(row(1_010)))) {
        Step::Call(task, StoreCall::TouchToken { .. }) => task,
        _ => panic!("a renewal is due"),
    };
    let task = match task.advance(StoreAnswer::Token(None)) {
        Step::Call(task, StoreCall::FetchToken { .. }) => task,
        _ => panic!("the row is read again"),
    };
    let task = match task.advance(StoreAnswer::Token(Some(row(1_000)))) {
        Step::Call(task, StoreCall::DeleteToken { token }) => {
            assert_eq!(token, "t");
            task
        }
        _ => panic!("an expired row is removed"),
    };
    // The removal is best effort: even a store that fails it leaves the token refused.
    assert!(matches!(task.advance(StoreAnswer::Failed), Step::Finish(Err(TokenError::Expired))));
}

#[test]
fn a_store_that_fails_is_a_database_error() {
    let task = match ValidationTask::begin("t", true, 300, 1_000, config()) {
        Step::Call(task, _) => task,
        _ => panic!("first step"),
    };
    assert!(matches!(task.advance(StoreAnswer::Failed), Step::Finish(Err(TokenError::Database))));
    let task = match ValidationTask::begin("t", true, 300, 1_000, config()) {
        Step::Call(task, _) => task,
        _ => panic!("first step"),
    };
    let task = match task.advance(StoreAnswer::Token(Some(row(1_010)))) {
        Step::Call(task, _) => task,
        _ => panic!("a renewal is due"),
    };
    assert!(matches!(task.advance(StoreAnswer::Failed), Step::Finish(Err(TokenError::Database))));
}

#[test]
fn an_answer_of_the_wrong_kind_is_a_database_error() {
    let task = match ValidationTask::begin("t", false, 300, 1_000, config()) {
        Step::Call(task, _) => task,
        _ => panic!("first step"),
    };
    assert!(matches!(task.advance(StoreAnswer::Rows(1)), Step::Finish(Err(TokenError::Database))));
}
