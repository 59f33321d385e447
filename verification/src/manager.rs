//! The token manager: issue, validation, revocation, the cache of access and
//! the reaping of what has expired.

use crate::access::{AccessCacheRecord, AccessEntry, AccessSnapshot};
use crate::digest::{generate_token_value, token_text};
use crate::protocol::{
    AccessScope, AnswerView, CallView, Step, StepView, StoreAnswer, StoreCall, Task,
};
use crate::store::{entry_of, AccessRow, CacheRow, DbState, DB};
use crate::token::{
    expired, outcome_view, PayloadView, TokenConfig, TokenError, TokenIssue, TokenPayload,
    TokenRecord, TokenRow, TokenValidation, ValidationView,
};
use crate::validation::{
    accepted, step_view, ValidationStage, ValidationState, ValidationStepView, ValidationTask,
};
use vstd::prelude::*;
use vstd::string::*;

verus! {

impl DbState {
    /// What the validation of a token does to the tables and gives back, when
    /// nothing else touches the tables meanwhile.
    pub open spec fn validate(
        self,
        token: Seq<char>,
        renew_if_needed: bool,
        ttl_seconds: i64,
        now: i64,
        config: TokenConfig,
    ) -> (DbState, Result<ValidationView, TokenError>) {
        match self.find_token(token) {
            None => (self.delete_token(token), Err(TokenError::NotFound)),
            Some(row) => if expired(row.expires_at, now) {
                (self.delete_token(token), Err(TokenError::Expired))
            } else if renew_if_needed && config.renewal_due(row.expires_at, now) {
                let next = (now + ttl_seconds) as i64;
                (
                    self.touch_token(token, row.expires_at, next),
                    Ok(accepted(TokenRow { expires_at: next, ..row }, true)),
                )
            } else {
                (self, Ok(accepted(row, false)))
            },
        }
    }
}

/// How far a validation is from its end.
pub open spec fn steps_left(step: ValidationStepView) -> nat {
    match step {
        StepView::Finish(_) => 0,
        StepView::Call(task, _) => match task.stage {
            ValidationStage::Fetching => 4,
            ValidationStage::Touching => 3,
            ValidationStage::Refetching => 2,
            ValidationStage::Purging => 1,
            ValidationStage::Clearing => 1,
        },
    }
}

/// Every answer brings a validation nearer to its end.
pub proof fn lemma_validation_ends(task: ValidationState, call: CallView, answer: AnswerView)
    ensures
        steps_left(task.advance(answer)) < steps_left(
            StepView::<ValidationState, Result<ValidationView, TokenError>>::Call(task, call),
        ),
{
}

/// A validation that runs alone on the tables `pre` is on its way to what
/// `validate` says: either it has finished with that result, or the tables are
/// untouched and the statement in hand is the one that leads there.
spec fn on_track(
    pre: DbState,
    now_at: DbState,
    step: ValidationStepView,
    token: Seq<char>,
    renew_if_needed: bool,
    ttl_seconds: i64,
    now: i64,
    config: TokenConfig,
) -> bool {
    match step {
        StepView::Finish(outcome) => (now_at, outcome) == pre.validate(
            token,
            renew_if_needed,
            ttl_seconds,
            now,
            config,
        ),
        StepView::Call(task, call) => {
            &&& now_at == pre
            &&& StepView::<ValidationState, Result<ValidationView, TokenError>>::Call(
                task.at(ValidationStage::Fetching),
                CallView::FetchToken { token },
            ) == ValidationState::begin(token, renew_if_needed, ttl_seconds, now, config)
            &&& match task.stage {
                ValidationStage::Fetching => call == CallView::FetchToken { token },
                ValidationStage::Touching => {
                    &&& pre.find_token(token) matches Some(row)
                    &&& !expired(row.expires_at, now)
                    &&& renew_if_needed
                    &&& config.renewal_due(row.expires_at, now)
                    &&& call == CallView::TouchToken {
                        token,
                        previous: row.expires_at,
                        next: (now + ttl_seconds) as i64,
                    }
                },
                ValidationStage::Refetching => false,
                ValidationStage::Purging => {
                    &&& pre.find_token(token) matches Some(row)
                    &&& expired(row.expires_at, now)
                    &&& call == CallView::DeleteToken { token }
                },
                ValidationStage::Clearing => {
                    &&& pre.find_token(token) is None
                    &&& call == CallView::DeleteToken { token }
                },
            }
        },
    }
}

/// The result of a statement that answers with a count of rows.
pub fn rows_outcome(answer: StoreAnswer) -> (r: Result<u64, TokenError>)
    ensures
        r == match answer@ {
            AnswerView::Rows(rows) => Ok::<u64, TokenError>(rows),
            _ => Err(TokenError::Database),
        },
{
    match answer {
        StoreAnswer::Rows(rows) => Ok(rows),
        _ => Err(TokenError::Database),
    }
}

/// The result of the removal of one token: whether a row was removed.
pub fn removed_outcome(answer: StoreAnswer) -> (r: Result<bool, TokenError>)
    ensures
        r == match answer@ {
            AnswerView::Rows(rows) => Ok::<bool, TokenError>(rows > 0),
            _ => Err(TokenError::Database),
        },
{
    match answer {
        StoreAnswer::Rows(rows) => Ok(rows > 0),
        _ => Err(TokenError::Database),
    }
}

/// The result of a statement that answers with nothing but its success.
pub fn done_outcome(answer: StoreAnswer) -> (r: Result<(), TokenError>)
    ensures
        r == match answer@ {
            AnswerView::Done => Ok::<(), TokenError>(()),
            _ => Err(TokenError::Database),
        },
{
    match answer {
        StoreAnswer::Done => Ok(()),
        _ => Err(TokenError::Database),
    }
}

/// The entry that a read of the cache gave, as plain values.
pub open spec fn loaded_view(
    loaded: Result<Option<AccessCacheRecord>, TokenError>,
) -> Result<Option<AccessEntry>, TokenError> {
    match loaded {
        Ok(entry) => Ok(entry.deep_view()),
        Err(error) => Err(error),
    }
}

/// The result of a read of the cache.
pub fn access_outcome(answer: StoreAnswer) -> (r: Result<Option<AccessCacheRecord>, TokenError>)
    ensures
        loaded_view(r) == match answer@ {
            AnswerView::Access(entry) => Ok::<Option<AccessEntry>, TokenError>(entry),
            _ => Err(TokenError::Database),
        },
{
    match answer {
        StoreAnswer::Access(entry) => Ok(entry),
        _ => Err(TokenError::Database),
    }
}

/// An issue as plain values.
pub open spec fn issue_view(issued: Result<TokenIssue, TokenError>) -> Result<
    (Seq<char>, i64),
    TokenError,
> {
    match issued {
        Ok(issue) => Ok((issue.token@, issue.expires_at)),
        Err(error) => Err(error),
    }
}

/// The result of the issue of `record`, from the answer to its insertion.
pub fn issue_outcome(record: &TokenRecord, answer: StoreAnswer) -> (r: Result<
    TokenIssue,
    TokenError,
>)
    ensures
        issue_view(r) == match answer@ {
            AnswerView::Done => Ok::<(Seq<char>, i64), TokenError>(
                (record@.token, record@.expires_at),
            ),
            _ => Err(TokenError::Database),
        },
{
    match answer {
        StoreAnswer::Done => Ok(
            TokenIssue { token: record.token.clone(), expires_at: record.expires_at },
        ),
        _ => Err(TokenError::Database),
    }
}

/// Where a reaping stands.
#[derive(Clone, Copy, Debug, PartialEq, Eq, Structural)]
pub enum ReapTask {
    /// The removal of expired tokens was sent.
    Tokens { now: i64 },
    /// That many tokens were removed, and the removal of expired cache rows was sent.
    Access { tokens_removed: u64 },
}

/// The next step of a reaping.
pub type ReapStep = Step<ReapTask, Result<(u64, u64), TokenError>>;

/// A step of a reaping as plain values.
pub open spec fn reap_step_view(step: ReapStep) -> StepView<
    ReapTask,
    Result<(u64, u64), TokenError>,
> {
    match step {
        Step::Call(task, call) => StepView::Call(task, call@),
        Step::Finish(outcome) => StepView::Finish(outcome),
    }
}

impl ReapTask {
    /// The step that follows the store's answer: after the tokens the cache,
    /// after the cache the two counts.
    pub open spec fn spec_advance(self, answer: AnswerView) -> StepView<
        ReapTask,
        Result<(u64, u64), TokenError>,
    > {
        match (self, answer) {
            (ReapTask::Tokens { now }, AnswerView::Rows(rows)) => StepView::Call(
                ReapTask::Access { tokens_removed: rows },
                CallView::ReapAccess { now },
            ),
            (ReapTask::Access { tokens_removed }, AnswerView::Rows(rows)) => StepView::Finish(
                Ok((tokens_removed, rows)),
            ),
            _ => StepView::Finish(Err(TokenError::Database)),
        }
    }

    /// Starts the removal of what expires before `now`.
    pub fn begin(now: i64) -> (step: ReapStep)
        ensures
            reap_step_view(step) == StepView::<ReapTask, Result<(u64, u64), TokenError>>::Call(
                ReapTask::Tokens { now },
                CallView::ReapTokens { now },
            ),
    {
        Step::Call(ReapTask::Tokens { now }, StoreCall::ReapTokens { now })
    }

    /// Takes the store's answer and gives the next step.
    pub fn advance(self, answer: StoreAnswer) -> (step: ReapStep)
        ensures
            reap_step_view(step) == self.spec_advance(answer@),
    {
        match (self, answer) {
            (ReapTask::Tokens { now }, StoreAnswer::Rows(rows)) => Step::Call(
                ReapTask::Access { tokens_removed: rows },
                StoreCall::ReapAccess { now },
            ),
            (ReapTask::Access { tokens_removed }, StoreAnswer::Rows(rows)) => Step::Finish(
                Ok((tokens_removed, rows)),
            ),
            _ => Step::Finish(Err(TokenError::Database)),
        }
    }
}

impl Task for ReapTask {
    type State = ReapTask;

    type Outcome = Result<(u64, u64), TokenError>;

    type OutcomeView = Result<(u64, u64), TokenError>;

    open spec fn state(&self) -> ReapTask {
        *self
    }

    open spec fn outcome_view(outcome: &Result<(u64, u64), TokenError>) -> Result<
        (u64, u64),
        TokenError,
    > {
        *outcome
    }

    open spec fn next(state: ReapTask, answer: AnswerView) -> StepView<
        ReapTask,
        Result<(u64, u64), TokenError>,
    > {
        state.spec_advance(answer)
    }

    fn step(self, answer: StoreAnswer) -> (step: ReapStep) {
        self.advance(answer)
    }
}

/// Issues and validates tokens under one configuration and one secret.
pub struct TokenManager {
    config: TokenConfig,
    secret: String,
}

impl TokenManager {
    /// The configuration.
    pub closed spec fn config(&self) -> TokenConfig {
        self.config
    }

    /// The secret that goes into every token.
    pub closed spec fn secret(&self) -> Seq<char> {
        self.secret@
    }

    /// The secret as the bytes that are hashed.
    pub closed spec fn secret_bytes(&self) -> Seq<u8> {
        vstd::utf8::encode_utf8(self.secret@)
    }

    /// A manager for the given configuration and secret.
    pub fn new(config: TokenConfig, secret: &str) -> (manager: TokenManager)
        ensures
            manager.config() == config,
            manager.secret() == secret@,
            manager.secret_bytes() == secret.spec_bytes(),
    {
        TokenManager { config, secret: secret.to_owned() }
    }

    /// The lifetime of a user token, in seconds.
    pub fn ttl(&self) -> (r: i64)
        ensures
            r == self.config().ttl_seconds,
    {
        self.config.ttl_seconds
    }

    /// The lifetime of a service token, in seconds.
    pub fn service_ttl(&self) -> (r: i64)
        ensures
            r == self.config().service_ttl_seconds,
    {
        self.config.service_ttl_seconds
    }

    /// The configuration in use.
    pub fn settings(&self) -> (r: TokenConfig)
        ensures
            r == self.config(),
    {
        self.config
    }

    /// A new token row for `payload` that expires at `expires_at`. Its value
    /// is derived from the secret, 32 fresh random bytes and `now`.
    pub fn mint(&self, payload: TokenPayload, expires_at: i64, now: i64) -> (record: TokenRecord)
        ensures
            record@.payload == payload@,
            record@.expires_at == expires_at,
            record@.token.len() == 64,
            exists|random: Seq<u8>|
                random.len() == 32 && record@.token == #[trigger] token_text(
                    self.secret_bytes(),
                    random,
                    now,
                ),
    {
        let secret = self.secret.as_str();
        let token = generate_token_value(secret, now);
        proof {
            let random = choose|random: Seq<u8>|
                random.len() == 32 && token@ == #[trigger] token_text(
                    secret.spec_bytes(),
                    random,
                    now,
                );
            assert(secret.spec_bytes() == self.secret_bytes());
            assert(token@ == token_text(self.secret_bytes(), random, now));
        }
        TokenRecord { token, payload, expires_at }
    }

    /// Puts a token row into the table. It fails, and changes nothing, where
    /// the token is in the table already.
    pub fn store_token(&self, db: &mut DB, record: TokenRecord) -> (r: Result<
        TokenIssue,
        TokenError,
    >)
        requires
            old(db)@.wf(),
        ensures
            final(db)@.wf(),
            old(db)@.find_token(record@.token) is None ==> issue_view(r) == Ok::<
                (Seq<char>, i64),
                TokenError,
            >((record@.token, record@.expires_at)) && final(db)@ == old(db)@.insert_token(
                record@,
            ),
            old(db)@.find_token(record@.token) is Some ==> issue_view(r) == Err::<
                (Seq<char>, i64),
                TokenError,
            >(TokenError::Database) && final(db)@ == old(db)@,
    {
        let copy = record.clone();
        let answer = db.apply(StoreCall::InsertToken { record });
        issue_outcome(&copy, answer)
    }

    /// Issues a token for a person: a row with `payload` that expires one
    /// user lifetime after `now`.
    pub fn issue_token(&self, db: &mut DB, payload: TokenPayload, now: i64) -> (r: Result<
        TokenIssue,
        TokenError,
    >)
        requires
            old(db)@.wf(),
            i64::MIN <= now + self.config().ttl_seconds <= i64::MAX,
        ensures
            final(db)@.wf(),
            match r {
                Ok(issue) => {
                    &&& issue.expires_at == now + self.config().ttl_seconds
                    &&& issue.token@.len() == 64
                    &&& old(db)@.find_token(issue.token@) is None
                    &&& final(db)@ == old(db)@.insert_token(
                        TokenRow {
                            token: issue.token@,
                            payload: payload@,
                            expires_at: issue.expires_at,
                        },
                    )
                },
                Err(error) => error == TokenError::Database && final(db)@ == old(db)@,
            },
    {
        let expires_at = self.config.compute_expires_at(now);
        let record = self.mint(payload, expires_at, now);
        self.store_token(db, record)
    }

    /// Issues a token for a service: a row with the service's id and name that
    /// expires one service lifetime after `now`.
    pub fn issue_service_token(
        &self,
        db: &mut DB,
        service_id: i32,
        service_name: &str,
        now: i64,
    ) -> (r: Result<TokenIssue, TokenError>)
        requires
            old(db)@.wf(),
            i64::MIN <= now + self.config().service_ttl_seconds <= i64::MAX,
        ensures
            final(db)@.wf(),
            match r {
                Ok(issue) => {
                    &&& issue.expires_at == now + self.config().service_ttl_seconds
                    &&& issue.token@.len() == 64
                    &&& old(db)@.find_token(issue.token@) is None
                    &&& final(db)@ == old(db)@.insert_token(
                        TokenRow {
                            token: issue.token@,
                            payload: PayloadView::Service {
                                service_id,
                                service_name: service_name@,
                            },
                            expires_at: issue.expires_at,
                        },
                    )
                },
                Err(error) => error == TokenError::Database && final(db)@ == old(db)@,
            },
    {
        let expires_at = self.config.compute_service_expires_at(now);
        let payload = TokenPayload::Service { service_id, service_name: service_name.to_owned() };
        let record = self.mint(payload, expires_at, now);
        self.store_token(db, record)
    }

    /// Revokes a token, with what the cache holds under it; tells whether a
    /// row of the token table was removed.
    pub fn delete_token(&self, db: &mut DB, token: &str) -> (r: Result<bool, TokenError>)
        requires
            old(db)@.wf(),
        ensures
            final(db)@.wf(),
            final(db)@ == old(db)@.delete_token(token@),
            r == Ok::<bool, TokenError>(old(db)@.find_token(token@) is Some),
    {
        proof {
            crate::laws::lemma_delete_token_count(db@, token@);
        }
        let answer = db.apply(StoreCall::DeleteToken { token: token.to_owned() });
        removed_outcome(answer)
    }

    /// Revokes the tokens of a person, with what the cache holds under them;
    /// gives the number of tokens.
    pub fn delete_tokens_for_user(&self, db: &mut DB, user_id: i32) -> (r: Result<
        u64,
        TokenError,
    >)
        requires
            old(db)@.wf(),
        ensures
            final(db)@.wf(),
            final(db)@ == old(db)@.delete_tokens_of(user_id),
            r == Ok::<u64, TokenError>(
                (old(db)@.tokens.len() - final(db)@.tokens.len()) as u64,
            ),
    {
        let answer = db.apply(StoreCall::DeleteTokensForUser { user_id });
        rows_outcome(answer)
    }

    /// Removes from the cache the rows of a person's tokens in one service.
    pub fn delete_access_cache(&self, db: &mut DB, user_id: i32, service_id: i32) -> (r: Result<
        u64,
        TokenError,
    >)
        requires
            old(db)@.wf(),
        ensures
            final(db)@.wf(),
            final(db)@ == old(db)@.drop_access_of_pair(user_id, service_id),
            r == Ok::<u64, TokenError>((old(db)@.cache.len() - final(db)@.cache.len()) as u64),
    {
        let answer = db.apply(
            StoreCall::DropAccess { scope: AccessScope::Pair { user_id, service_id } },
        );
        rows_outcome(answer)
    }

    /// Removes from the cache the rows of a person's tokens.
    pub fn delete_access_cache_for_user(&self, db: &mut DB, user_id: i32) -> (r: Result<
        u64,
        TokenError,
    >)
        requires
            old(db)@.wf(),
        ensures
            final(db)@.wf(),
            final(db)@ == old(db)@.drop_access_of_user(user_id),
            r == Ok::<u64, TokenError>((old(db)@.cache.len() - final(db)@.cache.len()) as u64),
    {
        let answer = db.apply(StoreCall::DropAccess { scope: AccessScope::User { user_id } });
        rows_outcome(answer)
    }

    /// Removes from the cache the rows of one service.
    pub fn delete_access_cache_for_service(&self, db: &mut DB, service_id: i32) -> (r: Result<
        u64,
        TokenError,
    >)
        requires
            old(db)@.wf(),
        ensures
            final(db)@.wf(),
            final(db)@ == old(db)@.drop_access_of_service(service_id),
            r == Ok::<u64, TokenError>((old(db)@.cache.len() - final(db)@.cache.len()) as u64),
    {
        let answer = db.apply(
            StoreCall::DropAccess { scope: AccessScope::Service { service_id } },
        );
        rows_outcome(answer)
    }

    /// Empties the cache.
    pub fn clear_access_cache(&self, db: &mut DB) -> (r: Result<u64, TokenError>)
        requires
            old(db)@.wf(),
        ensures
            final(db)@.wf(),
            final(db)@ == old(db)@.clear_access(),
            r == Ok::<u64, TokenError>(old(db)@.cache.len() as u64),
    {
        let answer = db.apply(StoreCall::DropAccess { scope: AccessScope::All });
        rows_outcome(answer)
    }

    /// Reads what the cache holds for a token in a service.
    pub fn load_access_cache(&self, db: &mut DB, token: &str, service_id: i32) -> (r: Result<
        Option<AccessCacheRecord>,
        TokenError,
    >)
        requires
            old(db)@.wf(),
        ensures
            final(db)@.wf(),
            final(db)@ == old(db)@,
            loaded_view(r) == Ok::<Option<AccessEntry>, TokenError>(
                entry_of(old(db)@.find_access(token@, service_id)),
            ),
    {
        let answer = db.apply(StoreCall::LoadAccess { token: token.to_owned(), service_id });
        access_outcome(answer)
    }

    /// Writes the access of a token in a service to the cache, over what the
    /// cache held for the pair.
    pub fn store_access_cache(
        &self,
        db: &mut DB,
        token: &str,
        service_id: i32,
        access_json: &AccessSnapshot,
        expires_at: i64,
    ) -> (r: Result<(), TokenError>)
        requires
            old(db)@.wf(),
        ensures
            final(db)@.wf(),
            final(db)@ == old(db)@.store_access(
                CacheRow { token: token@, service_id, access: access_json@, expires_at },
            ),
            r == Ok::<(), TokenError>(()),
    {
        let row = AccessRow {
            token: token.to_owned(),
            service_id,
            access: access_json.clone(),
            expires_at,
        };
        let answer = db.apply(StoreCall::StoreAccess { row });
        done_outcome(answer)
    }

    /// Removes from both tables the rows that expire before `now`; gives the
    /// number of tokens and the number of cache rows removed.
    pub fn cleanup_expired(&self, db: &mut DB, now: i64) -> (r: Result<(u64, u64), TokenError>)
        requires
            old(db)@.wf(),
        ensures
            final(db)@.wf(),
            final(db)@ == old(db)@.reap(now),
            r == Ok::<(u64, u64), TokenError>(
                (
                    (old(db)@.tokens.len() - final(db)@.tokens.len()) as u64,
                    (old(db)@.cache.len() - final(db)@.cache.len()) as u64,
                ),
            ),
            forall|i: int|
                0 <= i < final(db)@.tokens.len() ==> (#[trigger] final(db)@.tokens[i]).expires_at
                    >= now,
            forall|i: int|
                0 <= i < final(db)@.cache.len() ==> (#[trigger] final(db)@.cache[i]).expires_at
                    >= now,
    {
        proof {
            crate::laws::lemma_reap_leaves_nothing_stale(db@, now);
        }
        match ReapTask::begin(now) {
            Step::Call(task, call) => {
                let answer = db.apply(call);
                match task.advance(answer) {
                    Step::Call(task, call) => {
                        let answer = db.apply(call);
                        match task.advance(answer) {
                            Step::Call(_, _) => Err(TokenError::Database),
                            Step::Finish(outcome) => outcome,
                        }
                    },
                    Step::Finish(outcome) => outcome,
                }
            },
            Step::Finish(outcome) => outcome,
        }
    }

    /// Validates a token at the time `now`; a token due for renewal gets
    /// `ttl_seconds` more from `now` where `renew_if_needed` is set.
    pub fn validate_token_with_ttl(
        &self,
        db: &mut DB,
        token: &str,
        renew_if_needed: bool,
        ttl_seconds: i64,
        now: i64,
    ) -> (r: Result<TokenValidation, TokenError>)
        requires
            old(db)@.wf(),
            renew_if_needed ==> i64::MIN <= now + ttl_seconds <= i64::MAX,
        ensures
            final(db)@.wf(),
            (final(db)@, outcome_view(r)) == old(db)@.validate(
                token@,
                renew_if_needed,
                ttl_seconds,
                now,
                self.config(),
            ),
    {
        let ghost pre = db@;
        let mut step = ValidationTask::begin(token, renew_if_needed, ttl_seconds, now, self.config);
        loop
            invariant
                db@.wf(),
                pre.wf(),
                pre == old(db)@,
                on_track(
                    pre,
                    db@,
                    step_view(step),
                    token@,
                    renew_if_needed,
                    ttl_seconds,
                    now,
                    self.config(),
                ),
            decreases steps_left(step_view(step)),
        {
            match step {
                Step::Finish(outcome) => {
                    return outcome;
                },
                Step::Call(task, call) => {
                    proof {
                        crate::laws::lemma_delete_token_count(db@, token@);
                    }
                    let answer = db.apply(call);
                    proof {
                        lemma_validation_ends(task@, call@, answer@);
                    }
                    step = task.advance(answer);
                },
            }
        }
    }

    /// Validates a user token, with the user lifetime for a renewal.
    pub fn validate_token(&self, db: &mut DB, token: &str, renew_if_needed: bool, now: i64) -> (r:
        Result<TokenValidation, TokenError>)
        requires
            old(db)@.wf(),
            renew_if_needed ==> i64::MIN <= now + self.config().ttl_seconds <= i64::MAX,
        ensures
            final(db)@.wf(),
            (final(db)@, outcome_view(r)) == old(db)@.validate(
                token@,
                renew_if_needed,
                self.config().ttl_seconds,
                now,
                self.config(),
            ),
    {
        self.validate_token_with_ttl(db, token, renew_if_needed, self.config.ttl_seconds, now)
    }

    /// Validates a service token; a service token is never renewed.
    pub fn validate_service_token(&self, db: &mut DB, token: &str, now: i64) -> (r: Result<
        TokenValidation,
        TokenError,
    >)
        requires
            old(db)@.wf(),
        ensures
            final(db)@.wf(),
            (final(db)@, outcome_view(r)) == old(db)@.validate(
                token@,
                false,
                self.config().service_ttl_seconds,
                now,
                self.config(),
            ),
    {
        self.validate_token_with_ttl(db, token, false, self.config.service_ttl_seconds, now)
    }
}

} // verus!
