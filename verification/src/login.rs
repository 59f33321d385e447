//! The login: from a user name and a password to a token.
//!
//! The person is looked up and the password checked against the stored digest.
//! A token of theirs that is still alive is handed out again; only where they
//! have none is a new one issued.

use crate::entities::AuthUser;
use crate::exchange::{Outcome, OutcomeView};
use crate::http::{error_response, ok_response, Body, BodyView, ErrorCode, ResponseView};
use crate::password::{accepts, password_matches};
use crate::payloads::LoginPayload;
use crate::protocol::{AnswerView, CallView, Step, StepView, StoreAnswer, StoreCall, Task};
use crate::token::{PayloadView, TokenConfig, TokenPayload, TokenRecord, TokenRow};
use vstd::prelude::*;
use vstd::string::*;

verus! {

/// Where a login stands.
#[derive(Clone, Copy, Debug, PartialEq, Eq, Structural)]
pub enum LoginStage {
    /// The person was looked up.
    FindingUser,
    /// A live token of the person was asked for.
    FindingToken,
    /// A new token was sent to the store.
    Issuing,
}

/// A login under way.
pub struct LoginTask {
    username: String,
    password: String,
    now: i64,
    expires_at: i64,
    fresh_token: String,
    user_id: i32,
    name: String,
    stage: LoginStage,
}

/// A login under way, as plain values.
pub struct LoginState {
    pub username: Seq<char>,
    pub password: Seq<char>,
    pub now: i64,
    /// When a token issued now expires.
    pub expires_at: i64,
    /// The value of the token, should one be issued.
    pub fresh_token: Seq<char>,
    /// The person, once they are found.
    pub user_id: i32,
    pub name: Seq<char>,
    pub stage: LoginStage,
}

impl View for LoginTask {
    type V = LoginState;

    closed spec fn view(&self) -> LoginState {
        LoginState {
            username: self.username@,
            password: self.password@,
            now: self.now,
            expires_at: self.expires_at,
            fresh_token: self.fresh_token@,
            user_id: self.user_id,
            name: self.name@,
            stage: self.stage,
        }
    }
}

/// The next step of a login.
pub type LoginStep = Step<LoginTask, Outcome>;

/// The next step of a login, as plain values.
pub type LoginStepView = StepView<LoginState, OutcomeView>;

/// A step of a login as plain values.
pub open spec fn login_step_view(step: LoginStep) -> LoginStepView {
    match step {
        Step::Call(task, call) => StepView::Call(task@, call@),
        Step::Finish(outcome) => StepView::Finish(outcome@),
    }
}

/// What a login was asked with, as plain values.
pub open spec fn credentials(payload: Option<LoginPayload>) -> Option<(Seq<char>, Seq<char>)> {
    match payload {
        Some(body) => Some((body.username@, body.password@)),
        None => None,
    }
}

/// A login that failed.
pub open spec fn login_failure(code: ErrorCode) -> LoginStepView {
    StepView::Finish(
        OutcomeView {
            response: ResponseView::failure(code),
            token: Seq::empty(),
            valid: false,
            used_cache: None,
        },
    )
}

impl LoginState {
    /// The first step: a request without a body that reads well is refused;
    /// else the person is looked up.
    pub open spec fn begin(
        payload: Option<(Seq<char>, Seq<char>)>,
        now: i64,
        config: TokenConfig,
        fresh_token: Seq<char>,
    ) -> LoginStepView {
        match payload {
            None => login_failure(ErrorCode::InvalidRequestBody),
            Some((username, password)) => StepView::Call(
                LoginState {
                    username,
                    password,
                    now,
                    expires_at: (now + config.ttl_seconds) as i64,
                    fresh_token,
                    user_id: 0,
                    name: Seq::empty(),
                    stage: LoginStage::FindingUser,
                },
                CallView::FindAuthUser { username },
            ),
        }
    }

    /// Whom a token of this login stands for.
    pub open spec fn payload(self) -> PayloadView {
        PayloadView::User { user_id: self.user_id, username: self.username, name: self.name }
    }

    /// The login that succeeded with a token.
    pub open spec fn logged_in(self, token: Seq<char>, expires_at: i64) -> LoginStepView {
        StepView::Finish(
            OutcomeView {
                response: ResponseView::success(
                    BodyView::Login { token, expires_at, payload: self.payload() },
                ),
                token,
                valid: true,
                used_cache: None,
            },
        )
    }

    /// The step that follows the store's answer.
    pub open spec fn advance(self, answer: AnswerView) -> LoginStepView {
        match self.stage {
            LoginStage::FindingUser => match answer {
                AnswerView::AuthUser(Some(user)) => if accepts(self.password, user.password_hash) {
                    StepView::Call(
                        LoginState {
                            user_id: user.id,
                            username: user.username,
                            name: user.name,
                            stage: LoginStage::FindingToken,
                            ..self
                        },
                        CallView::LiveTokenForUser { user_id: user.id, now: self.now },
                    )
                } else {
                    login_failure(ErrorCode::InvalidCredentials)
                },
                AnswerView::AuthUser(None) => login_failure(ErrorCode::InvalidCredentials),
                _ => login_failure(ErrorCode::LoginLookupFailed),
            },
            LoginStage::FindingToken => match answer {
                AnswerView::Token(Some(row)) => self.logged_in(row.token, row.expires_at),
                AnswerView::Token(None) => StepView::Call(
                    LoginState { stage: LoginStage::Issuing, ..self },
                    CallView::InsertToken {
                        record: TokenRow {
                            token: self.fresh_token,
                            payload: self.payload(),
                            expires_at: self.expires_at,
                        },
                    },
                ),
                _ => login_failure(ErrorCode::LoginIssueFailed),
            },
            LoginStage::Issuing => match answer {
                AnswerView::Done => self.logged_in(self.fresh_token, self.expires_at),
                _ => login_failure(ErrorCode::LoginIssueFailed),
            },
        }
    }
}

fn refused(code: ErrorCode) -> (step: LoginStep)
    ensures
        login_step_view(step) == login_failure(code),
{
    Step::Finish(
        Outcome {
            response: error_response(code),
            token: String::new(),
            valid: false,
            used_cache: None,
        },
    )
}

impl LoginTask {
    /// Starts a login at the time `now`; `fresh_token` is the value of the
    /// token, should one be issued.
    pub fn begin(
        payload: Option<LoginPayload>,
        now: i64,
        config: TokenConfig,
        fresh_token: String,
    ) -> (step: LoginStep)
        requires
            i64::MIN <= now + config.ttl_seconds <= i64::MAX,
        ensures
            login_step_view(step) == LoginState::begin(
                credentials(payload),
                now,
                config,
                fresh_token@,
            ),
    {
        match payload {
            None => refused(ErrorCode::InvalidRequestBody),
            Some(body) => {
                let username = body.username.clone();
                Step::Call(
                    LoginTask {
                        username: body.username,
                        password: body.password,
                        now,
                        expires_at: now + config.ttl_seconds,
                        fresh_token,
                        user_id: 0,
                        name: String::new(),
                        stage: LoginStage::FindingUser,
                    },
                    StoreCall::FindAuthUser { username },
                )
            },
        }
    }

    fn payload(&self) -> (r: TokenPayload)
        ensures
            r@ == self@.payload(),
    {
        TokenPayload::User {
            user_id: self.user_id,
            username: self.username.clone(),
            name: self.name.clone(),
        }
    }

    fn logged_in(self, token: String, expires_at: i64) -> (step: LoginStep)
        ensures
            login_step_view(step) == self@.logged_in(token@, expires_at),
    {
        let payload = self.payload();
        Step::Finish(
            Outcome {
                response: ok_response(Body::Login { token: token.clone(), expires_at, payload }),
                token,
                valid: true,
                used_cache: None,
            },
        )
    }

    /// Takes the store's answer to the statement last handed out and gives
    /// the next step.
    pub fn advance(self, answer: StoreAnswer) -> (step: LoginStep)
        ensures
            login_step_view(step) == self@.advance(answer@),
    {
        match self.stage {
            LoginStage::FindingUser => match answer {
                StoreAnswer::AuthUser(Some(user)) => {
                    if password_matches(self.password.as_str(), user.password_hash.as_str()) {
                        let user_id = user.id;
                        let now = self.now;
                        Step::Call(
                            LoginTask {
                                user_id,
                                username: user.username,
                                name: user.name,
                                stage: LoginStage::FindingToken,
                                ..self
                            },
                            StoreCall::LiveTokenForUser { user_id, now },
                        )
                    } else {
                        refused(ErrorCode::InvalidCredentials)
                    }
                },
                StoreAnswer::AuthUser(None) => refused(ErrorCode::InvalidCredentials),
                _ => refused(ErrorCode::LoginLookupFailed),
            },
            LoginStage::FindingToken => match answer {
                StoreAnswer::Token(Some(row)) => {
                    let expires_at = row.expires_at;
                    self.logged_in(row.token, expires_at)
                },
                StoreAnswer::Token(None) => {
                    let record = TokenRecord {
                        token: self.fresh_token.clone(),
                        payload: self.payload(),
                        expires_at: self.expires_at,
                    };
                    Step::Call(
                        LoginTask { stage: LoginStage::Issuing, ..self },
                        StoreCall::InsertToken { record },
                    )
                },
                _ => refused(ErrorCode::LoginIssueFailed),
            },
            LoginStage::Issuing => match answer {
                StoreAnswer::Done => {
                    let token = self.fresh_token.clone();
                    let expires_at = self.expires_at;
                    self.logged_in(token, expires_at)
                },
                _ => refused(ErrorCode::LoginIssueFailed),
            },
        }
    }
}

impl Task for LoginTask {
    type State = LoginState;

    type Outcome = Outcome;

    type OutcomeView = OutcomeView;

    open spec fn state(&self) -> LoginState {
        self@
    }

    open spec fn outcome_view(outcome: &Outcome) -> OutcomeView {
        outcome@
    }

    open spec fn next(state: LoginState, answer: AnswerView) -> LoginStepView {
        state.advance(answer)
    }

    fn step(self, answer: StoreAnswer) -> (step: LoginStep) {
        self.advance(answer)
    }
}

} // verus!
