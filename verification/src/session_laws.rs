//! What holds of every exchange with regard to the caller's token.

use crate::exchange::{Exchange, ExchangeState, OperationView, OutcomeView, StageView};
use crate::http::{BodyView, ErrorCode, ResponseView};
use crate::laws::{lemma_delete_token_count, lemma_unknown_token_is_refused};
use crate::order_laws::lemma_apply_keeps_order;
use crate::protocol::{lemma_run_done, lemma_run_step, run, AnswerView, CallView, StepView};
use crate::store::{entry_of, CacheRow, DbState};
use crate::token::{expired, TokenConfig};
use crate::validation::{ValidationStage, ValidationState};
use vstd::prelude::*;

verus! {

/// Whatever is asked, a request whose user token has expired is refused with
/// `expired_token`; the token is removed with what the cache held under it,
/// and nothing else is touched.
pub proof fn lemma_expired_token_ends_every_exchange(
    db: DbState,
    token: Seq<char>,
    operation: OperationView,
    now: i64,
    config: TokenConfig,
    fresh_token: Seq<char>,
    salt: Seq<u8>,
)
    requires
        db.wf(),
        db.find_token(token) matches Some(row) && row.expires_at <= now,
    ensures
        ({
            let ended = run::<Exchange>(
                db,
                ExchangeState::begin(Some(token), operation, now, config, fresh_token, salt),
                40,
            );
            &&& ended.0 == db.delete_token(token)
            &&& ended.0.find_token(token) is None
            &&& ended.1 == Some(
                OutcomeView {
                    response: ResponseView::failure(ErrorCode::ExpiredToken),
                    token,
                    valid: false,
                    used_cache: None,
                },
            )
        }),
{
    let row = db.find_token(token).unwrap();
    let first = ExchangeState::begin(Some(token), operation, now, config, fresh_token, salt);
    let task = ValidationState {
        token,
        renewed_until: if !(operation is Logout) {
            Some((now + config.ttl_seconds) as i64)
        } else {
            None
        },
        now,
        config,
        stage: ValidationStage::Fetching,
    };
    let x0 = first->Call_0;
    let c0 = CallView::FetchToken { token };
    assert(first == StepView::<ExchangeState, OutcomeView>::Call(x0, c0));
    assert(x0.stage == StageView::Authenticating(task));
    assert(db.apply(c0) == (db, AnswerView::Token(Some(row))));
    lemma_run_step::<Exchange>(db, x0, c0, 40);

    let second = x0.advance(AnswerView::Token(Some(row)));
    let c1 = CallView::DeleteToken { token };
    let x1 = second->Call_0;
    assert(second == StepView::<ExchangeState, OutcomeView>::Call(x1, c1));
    assert(x1.stage == StageView::Authenticating(task.at(ValidationStage::Purging)));
    assert(x1.token == token && x1.session is None);
    lemma_delete_token_count(db, token);
    let db1 = db.delete_token(token);
    let rows = (db.tokens.len() - db1.tokens.len()) as u64;
    assert(db.apply(c1) == (db1, AnswerView::Rows(rows)));
    lemma_run_step::<Exchange>(db, x1, c1, 39);

    let outcome = OutcomeView {
        response: ResponseView::failure(ErrorCode::ExpiredToken),
        token,
        valid: false,
        used_cache: None,
    };
    assert(x1.advance(AnswerView::Rows(rows)) == StepView::<ExchangeState, OutcomeView>::Finish(
        outcome,
    ));
    lemma_run_done::<Exchange>(db1, outcome, 38);
}

/// Whatever is asked, a request whose user token the table does not hold is
/// refused with `invalid_token`; what the cache may still hold under the token
/// is removed, and nothing else is touched.
pub proof fn lemma_unknown_token_ends_every_exchange(
    db: DbState,
    token: Seq<char>,
    operation: OperationView,
    now: i64,
    config: TokenConfig,
    fresh_token: Seq<char>,
    salt: Seq<u8>,
)
    requires
        db.wf(),
        db.find_token(token) is None,
    ensures
        ({
            let ended = run::<Exchange>(
                db,
                ExchangeState::begin(Some(token), operation, now, config, fresh_token, salt),
                40,
            );
            &&& ended.0 == db.delete_token(token)
            &&& ended.0.tokens == db.tokens
            &&& ended.1 == Some(
                OutcomeView {
                    response: ResponseView::failure(ErrorCode::InvalidToken),
                    token,
                    valid: false,
                    used_cache: None,
                },
            )
        }),
{
    let first = ExchangeState::begin(Some(token), operation, now, config, fresh_token, salt);
    let task = ValidationState {
        token,
        renewed_until: if !(operation is Logout) {
            Some((now + config.ttl_seconds) as i64)
        } else {
            None
        },
        now,
        config,
        stage: ValidationStage::Fetching,
    };
    let x0 = first->Call_0;
    let c0 = CallView::FetchToken { token };
    assert(first == StepView::<ExchangeState, OutcomeView>::Call(x0, c0));
    assert(x0.stage == StageView::Authenticating(task));
    assert(db.apply(c0) == (db, AnswerView::Token(None)));
    lemma_run_step::<Exchange>(db, x0, c0, 40);

    let second = x0.advance(AnswerView::Token(None));
    let c1 = CallView::DeleteToken { token };
    let x1 = second->Call_0;
    assert(second == StepView::<ExchangeState, OutcomeView>::Call(x1, c1));
    assert(x1.stage == StageView::Authenticating(task.at(ValidationStage::Clearing)));
    assert(x1.token == token && x1.session is None);
    lemma_delete_token_count(db, token);
    lemma_unknown_token_is_refused(db, token, false, 0, now, config);
    let db1 = db.delete_token(token);
    assert(db.apply(c1) == (db1, AnswerView::Rows(0)));
    lemma_run_step::<Exchange>(db, x1, c1, 39);

    let outcome = OutcomeView {
        response: ResponseView::failure(ErrorCode::InvalidToken),
        token,
        valid: false,
        used_cache: None,
    };
    assert(x1.advance(AnswerView::Rows(0)) == StepView::<ExchangeState, OutcomeView>::Finish(
        outcome,
    ));
    lemma_run_done::<Exchange>(db1, outcome, 38);
}

/// Once a token is revoked, whatever is asked with it is refused with
/// `invalid_token`.
pub proof fn lemma_revoked_token_ends_every_exchange(
    db: DbState,
    token: Seq<char>,
    operation: OperationView,
    now: i64,
    config: TokenConfig,
    fresh_token: Seq<char>,
    salt: Seq<u8>,
)
    requires
        db.wf(),
    ensures
        run::<Exchange>(
            db.delete_token(token),
            ExchangeState::begin(Some(token), operation, now, config, fresh_token, salt),
            40,
        ).1 == Some(
            OutcomeView {
                response: ResponseView::failure(ErrorCode::InvalidToken),
                token,
                valid: false,
                used_cache: None,
            },
        ),
{
    lemma_delete_token_count(db, token);
    lemma_apply_keeps_order(db, CallView::DeleteToken { token });
    assert(db.apply(CallView::DeleteToken { token }).0 == db.delete_token(token));
    lemma_unknown_token_ends_every_exchange(
        db.delete_token(token),
        token,
        operation,
        now,
        config,
        fresh_token,
        salt,
    );
}

/// A request for the profile with a token that is alive and not due for
/// renewal shows the payload that the token was issued for, and changes nothing.
pub proof fn lemma_profile_shows_the_payload(
    db: DbState,
    token: Seq<char>,
    now: i64,
    config: TokenConfig,
    fresh_token: Seq<char>,
    salt: Seq<u8>,
)
    requires
        db.wf(),
        db.find_token(token) matches Some(row) && row.expires_at > now && !config.renewal_due(
            row.expires_at,
            now,
        ),
    ensures
        ({
            let row = db.find_token(token).unwrap();
            let ended = run::<Exchange>(
                db,
                ExchangeState::begin(
                    Some(token),
                    OperationView::Profile,
                    now,
                    config,
                    fresh_token,
                    salt,
                ),
                40,
            );
            &&& ended.0 == db
            &&& ended.1 == Some(
                OutcomeView {
                    response: ResponseView::success(
                        BodyView::Profile {
                            payload: row.payload,
                            renewed: false,
                            expires_at: row.expires_at,
                        },
                    ),
                    token,
                    valid: true,
                    used_cache: None,
                },
            )
        }),
{
    let row = db.find_token(token).unwrap();
    let first = ExchangeState::begin(
        Some(token),
        OperationView::Profile,
        now,
        config,
        fresh_token,
        salt,
    );
    let x0 = first->Call_0;
    let c0 = CallView::FetchToken { token };
    assert(first == StepView::<ExchangeState, OutcomeView>::Call(x0, c0));
    assert(db.apply(c0) == (db, AnswerView::Token(Some(row))));
    lemma_run_step::<Exchange>(db, x0, c0, 40);
    let outcome = OutcomeView {
        response: ResponseView::success(
            BodyView::Profile { payload: row.payload, renewed: false, expires_at: row.expires_at },
        ),
        token,
        valid: true,
        used_cache: None,
    };
    assert(x0.advance(AnswerView::Token(Some(row))) == StepView::<
        ExchangeState,
        OutcomeView,
    >::Finish(outcome));
    lemma_run_done::<Exchange>(db, outcome, 39);
}

/// What the cache holds is used for less than one user lifetime: a row that an
/// exchange begun at one time has written answers no check at or after the
/// time at which it expires, which is one user lifetime later.
pub proof fn lemma_cache_serves_less_than_a_lifetime(
    writer: ExchangeState,
    reader: ExchangeState,
    row: CacheRow,
    roles: Seq<Seq<char>>,
    permissions: Seq<Seq<char>>,
)
    requires
        writer.after_grants_loaded(
            AnswerView::Grants { roles, permissions },
        ) matches StepView::Call(_, CallView::StoreAccess { row: written }) && written == row,
        reader.now >= row.expires_at,
    ensures
        row.expires_at == writer.user_until,
        reader.after_cache_loaded(AnswerView::Access(entry_of(Some(row)))) == reader.ask_grants(),
{
}

/// An exchange that begins at `now` caches what it finds until one user
/// lifetime after `now`.
pub proof fn lemma_cache_lifetime(
    token: Seq<char>,
    operation: OperationView,
    now: i64,
    config: TokenConfig,
    fresh_token: Seq<char>,
    salt: Seq<u8>,
)
    requires
        i64::MIN <= now + config.ttl_seconds <= i64::MAX,
    ensures
        ExchangeState::begin(
            Some(token),
            operation,
            now,
            config,
            fresh_token,
            salt,
        ) matches StepView::Call(exchange, _) && exchange.user_until == now + config.ttl_seconds
            && exchange.now == now,
{
}

} // verus!
