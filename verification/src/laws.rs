//! What holds of the tables and of the operations on them.

use crate::protocol::{AnswerView, CallView, StepView};
use crate::store::{
    cache_key, cache_stays, not_cached_for_user, not_cached_under, not_of_user, other_token,
    owned_by, token_key, token_stays, DbState,
};
use crate::table::{
    distinct_by, has_key, lemma_filter_keeps_all, lemma_filter_members, lemma_filter_rows,
    lemma_push_rows, lemma_row_found, lemma_update_rows, slot_of,
};
use crate::token::{expired, PayloadView, TokenConfig, TokenError, TokenRow, ValidationView};
use crate::validation::{accepted, ValidationStage, ValidationState};
use vstd::prelude::*;

verus! {

/// After a reaping at `now` no row of either table expires before `now`.
pub proof fn lemma_reap_leaves_nothing_stale(db: DbState, now: i64)
    ensures
        forall|i: int|
            0 <= i < db.reap(now).tokens.len() ==> (#[trigger] db.reap(now).tokens[i]).expires_at
                >= now,
        forall|i: int|
            0 <= i < db.reap(now).cache.len() ==> (#[trigger] db.reap(now).cache[i]).expires_at
                >= now,
{
    lemma_filter_members(db.tokens, token_stays(now));
    lemma_filter_members(db.cache, cache_stays(now));
}

/// The removal of a token removes one row where the token is in the table,
/// and none where it is not.
pub proof fn lemma_delete_token_count(db: DbState, token: Seq<char>)
    requires
        db.wf(),
    ensures
        db.tokens.len() - db.delete_token(token).tokens.len() == if db.find_token(token) is Some {
            1int
        } else {
            0int
        },
        db.delete_token(token).find_token(token) is None,
{
    lemma_filter_rows(db.tokens, token_key(), other_token(token), token);
    lemma_count_removed(db.tokens, token);
}

/// A revocation reaches the cache: once a token is removed the cache holds
/// nothing under it, and what it holds under other tokens stays.
pub proof fn lemma_revocation_reaches_the_cache(db: DbState, token: Seq<char>)
    requires
        db.wf(),
    ensures
        forall|service_id: i32|
            (#[trigger] db.delete_token(token).find_access(token, service_id)) is None,
        forall|other: Seq<char>, service_id: i32|
            other != token ==> (#[trigger] db.delete_token(token).find_access(other, service_id))
                == db.find_access(other, service_id),
{
    assert forall|other: Seq<char>, service_id: i32|
        (#[trigger] db.delete_token(token).find_access(other, service_id)) == if other == token {
            None
        } else {
            db.find_access(other, service_id)
        } by {
        lemma_filter_rows(db.cache, cache_key(), not_cached_under(token), (other, service_id));
    }
}

/// The revocation of a person's tokens reaches the cache: it then holds
/// nothing under a token that was theirs, and no token of theirs is left.
pub proof fn lemma_revocation_of_a_person_reaches_the_cache(db: DbState, user_id: i32)
    requires
        db.wf(),
    ensures
        forall|i: int|
            0 <= i < db.delete_tokens_of(user_id).cache.len() ==> !owned_by(
                db.tokens,
                (#[trigger] db.delete_tokens_of(user_id).cache[i]).token,
                user_id,
            ),
        forall|i: int|
            0 <= i < db.delete_tokens_of(user_id).tokens.len() ==> (
            #[trigger] db.delete_tokens_of(user_id).tokens[i]).payload.user_id() != Some(user_id),
{
    lemma_filter_members(db.cache, not_cached_for_user(db.tokens, user_id));
    lemma_filter_members(db.tokens, not_of_user(user_id));
}

/// A token that the table does not hold is refused as not found; the table
/// of tokens stays as it is, and the cache holds nothing under the token
/// afterwards.
pub proof fn lemma_unknown_token_is_refused(
    db: DbState,
    token: Seq<char>,
    renew_if_needed: bool,
    ttl_seconds: i64,
    now: i64,
    config: TokenConfig,
)
    requires
        db.wf(),
        db.find_token(token) is None,
    ensures
        db.validate(token, renew_if_needed, ttl_seconds, now, config).1 == Err::<
            ValidationView,
            TokenError,
        >(TokenError::NotFound),
        db.validate(token, renew_if_needed, ttl_seconds, now, config).0.tokens == db.tokens,
        forall|service_id: i32|
            (#[trigger] db.validate(token, renew_if_needed, ttl_seconds, now, config).0.find_access(
                token,
                service_id,
            )) is None,
{
    assert forall|i: int| 0 <= i < db.tokens.len() implies other_token(token)(
        #[trigger] db.tokens[i],
    ) by {
        if db.tokens[i].token == token {
            lemma_row_found(db.tokens, token_key(), i);
        }
    }
    lemma_filter_keeps_all(db.tokens, other_token(token));
    lemma_revocation_reaches_the_cache(db, token);
}

/// In a table that holds no token twice, all rows but at most one are rows of
/// other tokens.
proof fn lemma_count_removed(rows: Seq<TokenRow>, token: Seq<char>)
    requires
        distinct_by(rows, token_key()),
    ensures
        rows.len() - rows.filter(other_token(token)).len() == if has_key(
            rows,
            token_key(),
            token,
        ) {
            1int
        } else {
            0int
        },
    decreases rows.len(),
{
    reveal(Seq::filter);
    if rows.len() > 0 {
        let front = rows.drop_last();
        assert forall|i: int, j: int| 0 <= i < j < front.len() implies token_key()(
            #[trigger] front[i],
        ) != token_key()(#[trigger] front[j]) by {
            assert(front[i] == rows[i] && front[j] == rows[j]);
        }
        lemma_count_removed(front, token);
        let last = rows.len() - 1;
        if rows.last().token == token {
            assert(token_key()(rows[last]) == token);
            if has_key(front, token_key(), token) {
                let m = slot_of(front, token_key(), token);
                assert(front[m] == rows[m]);
                assert(token_key()(rows[m]) != token_key()(rows[last]));
            }
        } else {
            if has_key(rows, token_key(), token) {
                let m = slot_of(rows, token_key(), token);
                assert(m != last);
                assert(front[m] == rows[m]);
                assert(token_key()(front[m]) == token);
            }
            if has_key(front, token_key(), token) {
                let m = slot_of(front, token_key(), token);
                assert(front[m] == rows[m]);
                assert(token_key()(rows[m]) == token);
            }
        }
    }
}

/// A token that was added to the table is found there, with the row that was
/// added; every other token is found as before.
pub proof fn lemma_insert_then_find(db: DbState, row: TokenRow, token: Seq<char>)
    requires
        db.wf(),
        db.find_token(row.token) is None,
    ensures
        db.insert_token(row).wf(),
        db.insert_token(row).find_token(token) == if token == row.token {
            Some(row)
        } else {
            db.find_token(token)
        },
{
    lemma_push_rows(db.tokens, token_key(), row, token);
}

/// A conditional renewal that takes effect leaves the token with the new
/// expiry and nothing else changed; every other token is found as before.
pub proof fn lemma_touch_then_find(
    db: DbState,
    token: Seq<char>,
    previous: i64,
    next: i64,
    other: Seq<char>,
)
    requires
        db.wf(),
    ensures
        db.touch_token(token, previous, next).wf(),
        db.touch_token(token, previous, next).find_token(other) == if other == token
            && db.can_touch(token, previous) {
            Some(db.touched_row(token, next))
        } else {
            db.find_token(other)
        },
{
    if db.can_touch(token, previous) {
        let i = slot_of(db.tokens, token_key(), token);
        lemma_row_found(db.tokens, token_key(), i);
        lemma_update_rows(db.tokens, token_key(), i, db.touched_row(token, next), other);
    }
}

/// A token whose row has expired is never accepted: its validation fails with
/// `Expired`, whatever the caller asks for, and removes the row.
pub proof fn lemma_expired_is_refused(
    db: DbState,
    token: Seq<char>,
    renew_if_needed: bool,
    ttl_seconds: i64,
    now: i64,
    config: TokenConfig,
)
    requires
        db.wf(),
        db.find_token(token) matches Some(row) && row.expires_at <= now,
    ensures
        db.validate(token, renew_if_needed, ttl_seconds, now, config).1 == Err::<
            ValidationView,
            TokenError,
        >(TokenError::Expired),
        db.validate(token, renew_if_needed, ttl_seconds, now, config).0.find_token(token) is None,
{
    lemma_delete_token_count(db, token);
}

/// Whatever the store answers, a validation accepts only a row that the store
/// handed to it: one that it read and that had not expired, or the one that
/// its own renewal produced.
pub proof fn lemma_accepts_only_live_rows(
    task: ValidationState,
    answer: AnswerView,
    validation: ValidationView,
)
    requires
        task.advance(answer) == StepView::<
            ValidationState,
            Result<ValidationView, TokenError>,
        >::Finish(Ok(validation)),
    ensures
        answer == AnswerView::Token(Some(validation.record)),
        validation.expires_at == validation.record.expires_at,
        validation.renewed == (task.stage == ValidationStage::Touching),
        !validation.renewed ==> validation.record.expires_at > task.now,
{
}

/// A renewal is only ever sent for a row that had not expired when it was
/// read, and it takes effect only while the store still holds the token with
/// the expiry that was read: a row that has expired or was removed meanwhile
/// is not brought back.
pub proof fn lemma_renewal_needs_the_row_read(
    task: ValidationState,
    read: TokenRow,
    db: DbState,
    post: DbState,
    answer: AnswerView,
)
    requires
        db.wf(),
        task.after_read(read) matches StepView::Call(next_task, call) && next_task.stage
            == ValidationStage::Touching && db.carries_out(call, post, answer),
    ensures
        read.expires_at > task.now,
        match answer {
            AnswerView::Token(Some(renewed)) => {
                &&& db.find_token(task.token) matches Some(held)
                &&& held.expires_at == read.expires_at
                &&& renewed == TokenRow { expires_at: task.renewed_until.unwrap(), ..held }
                &&& post.find_token(task.token) == Some(renewed)
            },
            _ => post == db,
        },
{
    lemma_touch_then_find(
        db,
        task.token,
        read.expires_at,
        task.renewed_until.unwrap(),
        task.token,
    );
}

/// The tables after conditional renewals of one token, all from the expiry
/// `previous`, were carried out one after the other.
pub open spec fn after_renewals(
    db: DbState,
    token: Seq<char>,
    previous: i64,
    nexts: Seq<i64>,
) -> DbState
    decreases nexts.len(),
{
    if nexts.len() == 0 {
        db
    } else {
        after_renewals(db, token, previous, nexts.drop_last()).touch_token(
            token,
            previous,
            nexts.last(),
        )
    }
}

/// Of any number of renewals that all read the same expiry, exactly the first
/// to reach the store takes effect: its expiry prevails, and none of the
/// others can move it.
pub proof fn lemma_one_renewal_prevails(
    db: DbState,
    token: Seq<char>,
    previous: i64,
    nexts: Seq<i64>,
)
    requires
        db.wf(),
        db.can_touch(token, previous),
        nexts.len() > 0,
        forall|i: int| 0 <= i < nexts.len() ==> #[trigger] nexts[i] != previous,
    ensures
        after_renewals(db, token, previous, nexts).wf(),
        after_renewals(db, token, previous, nexts) == db.touch_token(token, previous, nexts[0]),
        after_renewals(db, token, previous, nexts).find_token(token) == Some(
            db.touched_row(token, nexts[0]),
        ),
        forall|i: int|
            0 < i < nexts.len() ==> !after_renewals(
                db,
                token,
                previous,
                #[trigger] nexts.take(i),
            ).can_touch(token, previous),
    decreases nexts.len(),
{
    lemma_touch_then_find(db, token, previous, nexts[0], token);
    if nexts.len() == 1 {
        assert(nexts.drop_last().len() == 0);
        assert(after_renewals(db, token, previous, nexts.drop_last()) == db);
    } else {
        let front = nexts.drop_last();
        assert(front[0] == nexts[0]);
        assert forall|i: int| 0 <= i < front.len() implies #[trigger] front[i] != previous by {
            assert(front[i] == nexts[i]);
        }
        lemma_one_renewal_prevails(db, token, previous, front);
        assert forall|i: int| 0 < i < nexts.len() implies !after_renewals(
            db,
            token,
            previous,
            #[trigger] nexts.take(i),
        ).can_touch(token, previous) by {
            if i < front.len() {
                assert(nexts.take(i) == front.take(i));
            } else {
                assert(nexts.take(i) == front);
            }
        }
    }
}

/// Two validations read the same row, both find it due for renewal, and the
/// first one's renewal reaches the store before the second one's. Then the
/// first is told that it renewed the token; the second's renewal changes
/// nothing, it reads the row again and is handed the expiry that the first
/// one set: both end with the one expiry that the store holds.
pub proof fn lemma_racing_renewals_agree(
    db: DbState,
    first: ValidationState,
    second: ValidationState,
    read: TokenRow,
)
    requires
        db.wf(),
        db.find_token(first.token) == Some(read),
        second.token == first.token,
        first.stage == ValidationStage::Fetching,
        second.stage == ValidationStage::Fetching,
        first.renewed_until matches Some(next) && next != read.expires_at && !expired(
            next,
            second.now,
        ),
        second.renewed_until is Some,
        !expired(read.expires_at, first.now),
        !expired(read.expires_at, second.now),
        first.config.renewal_due(read.expires_at, first.now),
        second.config.renewal_due(read.expires_at, second.now),
    ensures
        ({
            let renewed = TokenRow { expires_at: first.renewed_until.unwrap(), ..read };
            let after = db.touch_token(
                first.token,
                read.expires_at,
                first.renewed_until.unwrap(),
            );
            &&& first.after_read(read) matches StepView::Call(first_touching, first_call)
            &&& second.after_read(read) matches StepView::Call(second_touching, second_call)
            &&& forall|post: DbState, answer: AnswerView| #[trigger]
                db.carries_out(first_call, post, answer) ==> post == after
                    && first_touching.advance(answer) == StepView::<
                    ValidationState,
                    Result<ValidationView, TokenError>,
                >::Finish(Ok(accepted(renewed, true)))
            &&& forall|post: DbState, answer: AnswerView| #[trigger]
                after.carries_out(second_call, post, answer) ==> post == after
                    && second_touching.advance(answer) == StepView::<
                    ValidationState,
                    Result<ValidationView, TokenError>,
                >::Call(
                    second_touching.at(ValidationStage::Refetching),
                    CallView::FetchToken { token: first.token },
                )
            &&& forall|post: DbState, answer: AnswerView| #[trigger]
                after.carries_out(CallView::FetchToken { token: first.token }, post, answer)
                    ==> post == after && second_touching.at(ValidationStage::Refetching).advance(
                    answer,
                ) == StepView::<ValidationState, Result<ValidationView, TokenError>>::Finish(
                    Ok(accepted(renewed, false)),
                )
        }),
{
    let next = first.renewed_until.unwrap();
    lemma_touch_then_find(db, first.token, read.expires_at, next, first.token);
    let after = db.touch_token(first.token, read.expires_at, next);
    lemma_touch_then_find(
        after,
        first.token,
        read.expires_at,
        second.renewed_until.unwrap(),
        first.token,
    );
}

/// A token that was issued and is validated before it expires is accepted as
/// it was issued, with the payload it was issued for.
pub proof fn lemma_issue_then_validate(
    db: DbState,
    token: Seq<char>,
    payload: PayloadView,
    expires_at: i64,
    ttl_seconds: i64,
    now: i64,
    config: TokenConfig,
)
    requires
        db.wf(),
        db.find_token(token) is None,
        now < expires_at,
    ensures
        ({
            let row = TokenRow { token, payload, expires_at };
            let issued = db.insert_token(row);
            &&& issued.validate(token, false, ttl_seconds, now, config).0 == issued
            &&& issued.validate(token, false, ttl_seconds, now, config).1 == Ok::<
                ValidationView,
                TokenError,
            >(accepted(row, false))
            &&& accepted(row, false).record.payload == payload
        }),
{
    lemma_insert_then_find(db, TokenRow { token, payload, expires_at }, token);
}

} // verus!
