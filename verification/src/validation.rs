//! Validation of a token, with sliding renewal.
//!
//! A token is read; one that has expired is removed and refused. One that is
//! close to expiry is renewed, if the caller asks for it, by a conditional
//! update that only takes effect while the expiry is the one that was read. If
//! another renewal came first the row is read again and answers as it stands.
//! Where no row is found, what may be left under the token is removed before
//! the token is refused. Either removal is an attempt: whether it fails or
//! not, the refusal is the same.

use crate::protocol::{AnswerView, CallView, Step, StepView, StoreAnswer, StoreCall, Task};
use crate::token::{
    expired, has_expired, outcome_view, TokenConfig, TokenError, TokenRecord, TokenRow,
    TokenValidation, ValidationView,
};
use vstd::prelude::*;

verus! {

/// Where a validation stands.
#[derive(Clone, Copy, Debug, PartialEq, Eq, Structural)]
pub enum ValidationStage {
    /// The row was asked for.
    Fetching,
    /// The conditional renewal was sent.
    Touching,
    /// The renewal did not take effect and the row was asked for again.
    Refetching,
    /// The row had expired and its removal was sent.
    Purging,
    /// No row was found, and the removal of what may be left under the token
    /// was sent.
    Clearing,
}

/// A validation under way.
pub struct ValidationTask {
    token: String,
    renewed_until: Option<i64>,
    now: i64,
    config: TokenConfig,
    stage: ValidationStage,
}

/// A validation under way, as plain values.
pub struct ValidationState {
    pub token: Seq<char>,
    /// The expiry that a renewal sets; nothing where no renewal was asked for.
    pub renewed_until: Option<i64>,
    pub now: i64,
    pub config: TokenConfig,
    pub stage: ValidationStage,
}

impl View for ValidationTask {
    type V = ValidationState;

    closed spec fn view(&self) -> ValidationState {
        ValidationState {
            token: self.token@,
            renewed_until: self.renewed_until,
            now: self.now,
            config: self.config,
            stage: self.stage,
        }
    }
}

/// The next step of a validation.
pub type ValidationStep = Step<ValidationTask, Result<TokenValidation, TokenError>>;

/// The next step of a validation, as plain values.
pub type ValidationStepView = StepView<ValidationState, Result<ValidationView, TokenError>>;

/// A step of a validation as plain values.
pub open spec fn step_view(step: ValidationStep) -> ValidationStepView {
    match step {
        Step::Call(task, call) => StepView::Call(task@, call@),
        Step::Finish(outcome) => StepView::Finish(outcome_view(outcome)),
    }
}

/// A row that is accepted as it stands.
pub open spec fn accepted(row: TokenRow, renewed: bool) -> ValidationView {
    ValidationView { record: row, renewed, expires_at: row.expires_at }
}

impl ValidationState {
    /// The first step: ask for the row.
    pub open spec fn begin(
        token: Seq<char>,
        renew_if_needed: bool,
        ttl_seconds: i64,
        now: i64,
        config: TokenConfig,
    ) -> ValidationStepView {
        StepView::Call(
            ValidationState {
                token,
                renewed_until: if renew_if_needed {
                    Some((now + ttl_seconds) as i64)
                } else {
                    None
                },
                now,
                config,
                stage: ValidationStage::Fetching,
            },
            CallView::FetchToken { token },
        )
    }

    /// The task at another stage.
    pub open spec fn at(self, stage: ValidationStage) -> ValidationState {
        ValidationState { stage, ..self }
    }

    /// What follows when a row was read, at first or again.
    pub open spec fn after_read(self, row: TokenRow) -> ValidationStepView {
        if expired(row.expires_at, self.now) {
            StepView::Call(
                self.at(ValidationStage::Purging),
                CallView::DeleteToken { token: self.token },
            )
        } else if self.stage == ValidationStage::Fetching && self.renewed_until is Some
            && self.config.renewal_due(row.expires_at, self.now) {
            StepView::Call(
                self.at(ValidationStage::Touching),
                CallView::TouchToken {
                    token: self.token,
                    previous: row.expires_at,
                    next: self.renewed_until.unwrap(),
                },
            )
        } else {
            StepView::Finish(Ok(accepted(row, false)))
        }
    }

    /// The step that follows the store's answer.
    pub open spec fn advance(self, answer: AnswerView) -> ValidationStepView {
        match self.stage {
            ValidationStage::Fetching | ValidationStage::Refetching => match answer {
                AnswerView::Token(Some(row)) => self.after_read(row),
                AnswerView::Token(None) => StepView::Call(
                    self.at(ValidationStage::Clearing),
                    CallView::DeleteToken { token: self.token },
                ),
                _ => StepView::Finish(Err(TokenError::Database)),
            },
            ValidationStage::Touching => match answer {
                AnswerView::Token(Some(row)) => StepView::Finish(Ok(accepted(row, true))),
                AnswerView::Token(None) => StepView::Call(
                    self.at(ValidationStage::Refetching),
                    CallView::FetchToken { token: self.token },
                ),
                _ => StepView::Finish(Err(TokenError::Database)),
            },
            ValidationStage::Purging => StepView::Finish(Err(TokenError::Expired)),
            ValidationStage::Clearing => StepView::Finish(Err(TokenError::NotFound)),
        }
    }
}

impl ValidationTask {
    /// Starts the validation of `token` at the time `now`. With
    /// `renew_if_needed`, a token that is due for renewal under `config` gets
    /// `ttl_seconds` more from `now`.
    pub fn begin(
        token: &str,
        renew_if_needed: bool,
        ttl_seconds: i64,
        now: i64,
        config: TokenConfig,
    ) -> (step: ValidationStep)
        requires
            renew_if_needed ==> i64::MIN <= now + ttl_seconds <= i64::MAX,
        ensures
            step_view(step) == ValidationState::begin(
                token@,
                renew_if_needed,
                ttl_seconds,
                now,
                config,
            ),
    {
        let renewed_until = if renew_if_needed {
            Some(now + ttl_seconds)
        } else {
            None
        };
        Step::Call(
            ValidationTask {
                token: token.to_owned(),
                renewed_until,
                now,
                config,
                stage: ValidationStage::Fetching,
            },
            StoreCall::FetchToken { token: token.to_owned() },
        )
    }

    fn after_read(self, row: TokenRecord) -> (step: ValidationStep)
        ensures
            step_view(step) == self@.after_read(row@),
    {
        if has_expired(row.expires_at, self.now) {
            let token = self.token.clone();
            Step::Call(
                ValidationTask { stage: ValidationStage::Purging, ..self },
                StoreCall::DeleteToken { token },
            )
        } else {
            let first = match self.stage {
                ValidationStage::Fetching => true,
                _ => false,
            };
            match self.renewed_until {
                Some(next) => {
                    if first && self.config.should_renew(row.expires_at, self.now) {
                        let token = self.token.clone();
                        return Step::Call(
                            ValidationTask { stage: ValidationStage::Touching, ..self },
                            StoreCall::TouchToken { token, previous: row.expires_at, next },
                        );
                    }
                },
                None => {},
            }
            let expires_at = row.expires_at;
            Step::Finish(Ok(TokenValidation { record: row, renewed: false, expires_at }))
        }
    }

    /// Takes the store's answer to the statement last handed out and gives the
    /// next step.
    pub fn advance(self, answer: StoreAnswer) -> (step: ValidationStep)
        ensures
            step_view(step) == self@.advance(answer@),
    {
        match self.stage {
            ValidationStage::Fetching | ValidationStage::Refetching => match answer {
                StoreAnswer::Token(Some(row)) => self.after_read(row),
                StoreAnswer::Token(None) => {
                    let token = self.token.clone();
                    Step::Call(
                        ValidationTask { stage: ValidationStage::Clearing, ..self },
                        StoreCall::DeleteToken { token },
                    )
                },
                _ => Step::Finish(Err(TokenError::Database)),
            },
            ValidationStage::Touching => match answer {
                StoreAnswer::Token(Some(row)) => {
                    let expires_at = row.expires_at;
                    Step::Finish(Ok(TokenValidation { record: row, renewed: true, expires_at }))
                },
                StoreAnswer::Token(None) => {
                    let token = self.token.clone();
                    Step::Call(
                        ValidationTask { stage: ValidationStage::Refetching, ..self },
                        StoreCall::FetchToken { token },
                    )
                },
                _ => Step::Finish(Err(TokenError::Database)),
            },
            ValidationStage::Purging => Step::Finish(Err(TokenError::Expired)),
            ValidationStage::Clearing => Step::Finish(Err(TokenError::NotFound)),
        }
    }
}

impl Task for ValidationTask {
    type State = ValidationState;

    type Outcome = Result<TokenValidation, TokenError>;

    type OutcomeView = Result<ValidationView, TokenError>;

    open spec fn state(&self) -> ValidationState {
        self@
    }

    open spec fn outcome_view(outcome: &Result<TokenValidation, TokenError>) -> Result<
        ValidationView,
        TokenError,
    > {
        outcome_view(*outcome)
    }

    open spec fn next(state: ValidationState, answer: AnswerView) -> ValidationStepView {
        state.advance(answer)
    }

    fn step(self, answer: StoreAnswer) -> (step: ValidationStep) {
        self.advance(answer)
    }
}

} // verus!
