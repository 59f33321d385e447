//! An exchange: one request of a caller who presents a user token, from the
//! validation of the token to the answer.
//!
//! The token is validated first. What follows depends on what is asked: the
//! caller's profile, a check of the token, a logout, a check of what the
//! caller may do in a service, the issue of a service token, a direct grant of
//! a permission, or a command of the administration.

use crate::access::{holds_name, sorted_names, sorted_set, AccessFacts, AccessSnapshot};
use crate::command::{Command, CommandView};
use crate::entities::{Edge, Entity};
use crate::flexible::{FlexibleId, FlexibleIdView};
use crate::http::{
    error_response, ok_response, Body, BodyView, ErrorCode, Response, ResponseView, StatusCode,
    StatusWord,
};
use crate::protocol::{
    AccessScope, AnswerView, CallView, Step, StepView, StoreAnswer, StoreCall, Task,
};
use crate::resolve::{
    resolve_step_view, ResolveKind, ResolveState, ResolveStep, ResolveStepView, ResolveTask,
};
use crate::store::{AccessRow, CacheRow};
use crate::text::{int_text, push_int};
use crate::token::{
    outcome_view, PayloadView, TokenConfig, TokenError, TokenPayload, TokenRecord, TokenRow,
    TokenValidation, ValidationView,
};
use crate::validation::{
    step_view, ValidationState, ValidationStep, ValidationStepView, ValidationTask,
};
use vstd::prelude::*;
use vstd::string::*;

verus! {

/// What is asked of the service by a caller who presents a user token.
pub enum Operation {
    /// The request is refused with `code` once the caller is known.
    Refused { code: ErrorCode },
    /// Whom the token stands for.
    Profile,
    /// Whether the token is valid.
    CheckToken,
    /// The end of the session.
    Logout,
    /// What the caller may do in a service, which is named by a service token
    /// or by an identifier, and never by both; with `permission_name`, only
    /// whether they hold that permission.
    CheckAccess {
        service_token: Option<String>,
        named_service: Option<FlexibleId>,
        permission_name: Option<String>,
    },
    /// A token for a service.
    IssueServiceToken { service_id: i32 },
    /// The grant of one permission to one person in one service, through a
    /// role of the person's own.
    Grant { person: FlexibleId, service: FlexibleId, permission: FlexibleId },
    /// A command of the administration.
    Admin { command: Command },
}

/// An operation as plain values.
pub enum OperationView {
    Refused { code: ErrorCode },
    Profile,
    CheckToken,
    Logout,
    CheckAccess {
        service_token: Option<Seq<char>>,
        named_service: Option<FlexibleIdView>,
        permission_name: Option<Seq<char>>,
    },
    IssueServiceToken { service_id: i32 },
    Grant { person: FlexibleIdView, service: FlexibleIdView, permission: FlexibleIdView },
    Admin { command: CommandView },
}

/// An optional identifier as plain values.
pub open spec fn identifier_view(identifier: Option<FlexibleId>) -> Option<FlexibleIdView> {
    match identifier {
        Some(identifier) => Some(identifier@),
        None => None,
    }
}

impl View for Operation {
    type V = OperationView;

    open spec fn view(&self) -> OperationView {
        match *self {
            Operation::Refused { code } => OperationView::Refused { code },
            Operation::Profile => OperationView::Profile,
            Operation::CheckToken => OperationView::CheckToken,
            Operation::Logout => OperationView::Logout,
            Operation::CheckAccess {
                service_token,
                named_service,
                permission_name,
            } => OperationView::CheckAccess {
                service_token: crate::entities::text_of(service_token),
                named_service: identifier_view(named_service),
                permission_name: crate::entities::text_of(permission_name),
            },
            Operation::IssueServiceToken { service_id } => OperationView::IssueServiceToken {
                service_id,
            },
            Operation::Grant { person, service, permission } => OperationView::Grant {
                person: person@,
                service: service@,
                permission: permission@,
            },
            Operation::Admin { command } => OperationView::Admin { command: command@ },
        }
    }
}

/// How an exchange ends.
pub struct Outcome {
    /// The answer.
    pub response: Response,
    /// The user token that was presented; empty where none was.
    pub token: String,
    /// Whether the token was accepted.
    pub valid: bool,
    /// Whether what the caller may do was taken from the cache, where the
    /// exchange came to ask for it.
    pub used_cache: Option<bool>,
}

/// The end of an exchange as plain values.
pub struct OutcomeView {
    pub response: ResponseView,
    pub token: Seq<char>,
    pub valid: bool,
    pub used_cache: Option<bool>,
}

impl View for Outcome {
    type V = OutcomeView;

    open spec fn view(&self) -> OutcomeView {
        OutcomeView {
            response: self.response@,
            token: self.token@,
            valid: self.valid,
            used_cache: self.used_cache,
        }
    }
}

/// Where an exchange stands.
pub enum Stage {
    /// No statement is under way.
    Deciding,
    /// The user token is being validated.
    Authenticating(ValidationTask),
    /// The service token is being validated.
    ServiceAuthenticating(ValidationTask),
    /// The person is being resolved.
    ResolvingPerson(ResolveTask),
    /// The service is being resolved.
    ResolvingService(ResolveTask),
    /// The permission is being resolved.
    ResolvingPermission(ResolveTask),
    /// The service was asked for.
    LoadingService,
    /// The cache was asked for the caller's access.
    LoadingCache,
    /// The catalog was asked for the caller's roles and permissions.
    LoadingGrants,
    /// The caller's access was sent to the cache.
    StoringCache,
    /// The service token was sent to the store.
    IssuingServiceToken,
    /// The removal of the user token was sent.
    LoggingOut,
    /// The person's own role was looked up.
    FindingRole,
    /// The person's own role was sent for creation.
    InsertingRole,
    /// Another creation came first and the role was looked up again.
    RefindingRole,
    /// The edge from the service to the role was sent.
    LinkingService,
    /// The edge from the role to the permission was sent.
    LinkingPermission,
    /// The edge from the person to the role was sent.
    LinkingPerson,
    /// The statement of a command was sent.
    Acting,
    /// The removal of stale cache rows was sent.
    Invalidating,
    /// The removal of the tokens of a removed person was sent.
    Revoking,
}

/// A stage as plain values.
pub enum StageView {
    Deciding,
    Authenticating(ValidationState),
    ServiceAuthenticating(ValidationState),
    ResolvingPerson(ResolveState),
    ResolvingService(ResolveState),
    ResolvingPermission(ResolveState),
    LoadingService,
    LoadingCache,
    LoadingGrants,
    StoringCache,
    IssuingServiceToken,
    LoggingOut,
    FindingRole,
    InsertingRole,
    RefindingRole,
    LinkingService,
    LinkingPermission,
    LinkingPerson,
    Acting,
    Invalidating,
    Revoking,
}

impl View for Stage {
    type V = StageView;

    open spec fn view(&self) -> StageView {
        match *self {
            Stage::Deciding => StageView::Deciding,
            Stage::Authenticating(task) => StageView::Authenticating(task@),
            Stage::ServiceAuthenticating(task) => StageView::ServiceAuthenticating(task@),
            Stage::ResolvingPerson(task) => StageView::ResolvingPerson(task@),
            Stage::ResolvingService(task) => StageView::ResolvingService(task@),
            Stage::ResolvingPermission(task) => StageView::ResolvingPermission(task@),
            Stage::LoadingService => StageView::LoadingService,
            Stage::LoadingCache => StageView::LoadingCache,
            Stage::LoadingGrants => StageView::LoadingGrants,
            Stage::StoringCache => StageView::StoringCache,
            Stage::IssuingServiceToken => StageView::IssuingServiceToken,
            Stage::LoggingOut => StageView::LoggingOut,
            Stage::FindingRole => StageView::FindingRole,
            Stage::InsertingRole => StageView::InsertingRole,
            Stage::RefindingRole => StageView::RefindingRole,
            Stage::LinkingService => StageView::LinkingService,
            Stage::LinkingPermission => StageView::LinkingPermission,
            Stage::LinkingPerson => StageView::LinkingPerson,
            Stage::Acting => StageView::Acting,
            Stage::Invalidating => StageView::Invalidating,
            Stage::Revoking => StageView::Revoking,
        }
    }
}

/// An exchange under way.
pub struct Exchange {
    operation: Operation,
    token: String,
    now: i64,
    config: TokenConfig,
    user_until: i64,
    service_until: i64,
    fresh_token: String,
    salt: Vec<u8>,
    session: Option<TokenValidation>,
    person_id: i32,
    service_id: i32,
    permission_id: i32,
    role_id: i32,
    via_service_token: bool,
    service_name: String,
    access: Option<AccessSnapshot>,
    pending: Option<Response>,
    stage: Stage,
}

/// An exchange under way, as plain values.
pub struct ExchangeState {
    pub operation: OperationView,
    pub token: Seq<char>,
    pub now: i64,
    pub config: TokenConfig,
    /// When a user token renewed now, or an access cached now, expires.
    pub user_until: i64,
    /// When a service token issued now expires.
    pub service_until: i64,
    /// The value of a token, should one be issued.
    pub fresh_token: Seq<char>,
    /// The salt of a password, should one be hashed.
    pub salt: Seq<u8>,
    /// The accepted user token, once it is accepted.
    pub session: Option<ValidationView>,
    pub person_id: i32,
    pub service_id: i32,
    pub permission_id: i32,
    pub role_id: i32,
    /// The service was named by a service token.
    pub via_service_token: bool,
    pub service_name: Seq<char>,
    /// The access that was computed and sent to the cache.
    pub access: Option<AccessFacts>,
    /// The answer that waits for the cache to be cleared.
    pub pending: Option<ResponseView>,
    pub stage: StageView,
}

/// An optional validation as plain values.
pub open spec fn session_view(session: Option<TokenValidation>) -> Option<ValidationView> {
    match session {
        Some(validation) => Some(validation@),
        None => None,
    }
}

/// An optional snapshot as plain values.
pub open spec fn access_view(access: Option<AccessSnapshot>) -> Option<AccessFacts> {
    match access {
        Some(access) => Some(access@),
        None => None,
    }
}

/// An optional answer as plain values.
pub open spec fn pending_view(pending: Option<Response>) -> Option<ResponseView> {
    match pending {
        Some(response) => Some(response@),
        None => None,
    }
}

impl View for Exchange {
    type V = ExchangeState;

    closed spec fn view(&self) -> ExchangeState {
        ExchangeState {
            operation: self.operation@,
            token: self.token@,
            now: self.now,
            config: self.config,
            user_until: self.user_until,
            service_until: self.service_until,
            fresh_token: self.fresh_token@,
            salt: self.salt@,
            session: session_view(self.session),
            person_id: self.person_id,
            service_id: self.service_id,
            permission_id: self.permission_id,
            role_id: self.role_id,
            via_service_token: self.via_service_token,
            service_name: self.service_name@,
            access: access_view(self.access),
            pending: pending_view(self.pending),
            stage: self.stage@,
        }
    }
}

/// The next step of an exchange.
pub type ExchangeStep = Step<Exchange, Outcome>;

/// The next step of an exchange, as plain values.
pub type ExchangeStepView = StepView<ExchangeState, OutcomeView>;

/// A step of an exchange as plain values.
pub open spec fn exchange_step_view(step: ExchangeStep) -> ExchangeStepView {
    match step {
        Step::Call(task, call) => StepView::Call(task@, call@),
        Step::Finish(outcome) => StepView::Finish(outcome@),
    }
}

/// The failure that is reported for a user token that was not accepted.
pub open spec fn auth_failure(error: TokenError) -> ErrorCode {
    match error {
        TokenError::NotFound => ErrorCode::InvalidToken,
        TokenError::Expired => ErrorCode::ExpiredToken,
        TokenError::Database => ErrorCode::TokenValidationFailed,
    }
}

/// The failure that is reported for a service token that was not accepted.
pub open spec fn service_auth_failure(error: TokenError) -> ErrorCode {
    match error {
        TokenError::Database => ErrorCode::TokenValidationFailed,
        _ => ErrorCode::InvalidServiceToken,
    }
}

/// The name of the role that carries the direct grants of a person in a service.
pub open spec fn direct_role_name(person_id: i32, service_id: i32) -> Seq<char> {
    "direct:"@ + int_text(person_id as int) + ":"@ + int_text(service_id as int)
}

/// Writes the name of the role that carries the direct grants of a person in
/// a service.
pub fn direct_role(person_id: i32, service_id: i32) -> (name: String)
    ensures
        name@ == direct_role_name(person_id, service_id),
{
    let mut name = "direct:".to_owned();
    push_int(&mut name, person_id as i64);
    name.append(":");
    push_int(&mut name, service_id as i64);
    name
}

/// The answer is one to a request that was carried out.
pub open spec fn succeeded(response: ResponseView) -> bool {
    response.status == StatusCode::Success || response.status == StatusCode::Created
}

impl ExchangeState {
    /// The exchange at another stage.
    pub open spec fn at(self, stage: StageView) -> ExchangeState {
        ExchangeState { stage, ..self }
    }

    /// The end of the exchange with an answer.
    pub open spec fn reply(self, response: ResponseView, used_cache: Option<bool>)
        -> ExchangeStepView {
        StepView::Finish(
            OutcomeView { response, token: self.token, valid: self.session is Some, used_cache },
        )
    }

    /// The end of the exchange with a failure.
    pub open spec fn fail(self, code: ErrorCode) -> ExchangeStepView {
        self.reply(ResponseView::failure(code), None)
    }

    /// The first step of an exchange: a request without a user token is
    /// refused, and any other begins with the validation of the token, which
    /// is renewed where it is due unless the request is a logout.
    pub open spec fn begin(
        user_token: Option<Seq<char>>,
        operation: OperationView,
        now: i64,
        config: TokenConfig,
        fresh_token: Seq<char>,
        salt: Seq<u8>,
    ) -> ExchangeStepView {
        match user_token {
            None => StepView::Finish(
                OutcomeView {
                    response: ResponseView::failure(ErrorCode::MissingTokenHeader),
                    token: Seq::empty(),
                    valid: false,
                    used_cache: None,
                },
            ),
            Some(token) => ExchangeState {
                operation,
                token,
                now,
                config,
                user_until: (now + config.ttl_seconds) as i64,
                service_until: (now + config.service_ttl_seconds) as i64,
                fresh_token,
                salt,
                session: None,
                person_id: 0,
                service_id: 0,
                permission_id: 0,
                role_id: 0,
                via_service_token: false,
                service_name: Seq::empty(),
                access: None,
                pending: None,
                stage: StageView::Deciding,
            }.follow_auth(
                ValidationState::begin(
                    token,
                    !(operation is Logout),
                    config.ttl_seconds,
                    now,
                    config,
                ),
            ),
        }
    }

    /// What follows a step of the validation of the user token.
    pub open spec fn follow_auth(self, step: ValidationStepView) -> ExchangeStepView {
        match step {
            StepView::Call(task, call) => StepView::Call(
                self.at(StageView::Authenticating(task)),
                call,
            ),
            StepView::Finish(Err(error)) => self.fail(auth_failure(error)),
            StepView::Finish(Ok(validation)) => ExchangeState {
                session: Some(validation),
                ..self
            }.after_auth(),
        }
    }

    /// The answer that shows whom the token stands for.
    pub open spec fn show_session(self, checked: bool) -> ExchangeStepView {
        match self.session {
            Some(validation) => self.reply(
                ResponseView::success(
                    if checked {
                        BodyView::TokenChecked {
                            payload: validation.record.payload,
                            renewed: validation.renewed,
                            expires_at: validation.expires_at,
                        }
                    } else {
                        BodyView::Profile {
                            payload: validation.record.payload,
                            renewed: validation.renewed,
                            expires_at: validation.expires_at,
                        }
                    },
                ),
                None,
            ),
            None => self.fail(ErrorCode::InvalidToken),
        }
    }

    /// What follows once the caller is known.
    pub open spec fn after_auth(self) -> ExchangeStepView {
        match self.operation {
            OperationView::Refused { code } => self.fail(code),
            OperationView::Profile => self.show_session(false),
            OperationView::CheckToken => self.show_session(true),
            OperationView::Logout => StepView::Call(
                self.at(StageView::LoggingOut),
                CallView::DeleteToken { token: self.token },
            ),
            OperationView::CheckAccess { service_token, named_service, permission_name } => match (
                service_token,
                named_service,
            ) {
                (Some(token), None) => self.follow_service_auth(
                    ValidationState::begin(
                        token,
                        false,
                        self.config.service_ttl_seconds,
                        self.now,
                        self.config,
                    ),
                ),
                (None, Some(identifier)) => self.follow_service(
                    ResolveState::begin(ResolveKind::Service, identifier),
                ),
                _ => self.fail(ErrorCode::InvalidRequestBody),
            },
            OperationView::IssueServiceToken { service_id } => StepView::Call(
                ExchangeState { service_id, ..self }.at(StageView::LoadingService),
                CallView::FindService { id: service_id },
            ),
            OperationView::Grant { person, service, permission } => self.follow_person(
                ResolveState::begin(ResolveKind::Person, person),
            ),
            OperationView::Admin { command } => match command.person_identifier() {
                Some(identifier) => self.follow_person(
                    ResolveState::begin(ResolveKind::Person, identifier),
                ),
                None => self.after_person(),
            },
        }
    }

    /// What follows a step of the validation of the service token.
    pub open spec fn follow_service_auth(self, step: ValidationStepView) -> ExchangeStepView {
        match step {
            StepView::Call(task, call) => StepView::Call(
                self.at(StageView::ServiceAuthenticating(task)),
                call,
            ),
            StepView::Finish(Err(error)) => self.fail(service_auth_failure(error)),
            StepView::Finish(Ok(validation)) => match validation.record.payload.service_id() {
                Some(service_id) => StepView::Call(
                    ExchangeState { service_id, via_service_token: true, ..self }.at(
                        StageView::LoadingService,
                    ),
                    CallView::FindService { id: service_id },
                ),
                None => self.fail(ErrorCode::InvalidServiceToken),
            },
        }
    }

    /// What follows a step of the resolution of the person.
    pub open spec fn follow_person(self, step: ResolveStepView) -> ExchangeStepView {
        match step {
            StepView::Call(task, call) => StepView::Call(
                self.at(StageView::ResolvingPerson(task)),
                call,
            ),
            StepView::Finish(Err(code)) => self.fail(code),
            StepView::Finish(Ok(person_id)) => ExchangeState { person_id, ..self }.after_person(),
        }
    }

    /// What follows once the person is known, or none is named.
    pub open spec fn after_person(self) -> ExchangeStepView {
        match self.operation {
            OperationView::Grant { person, service, permission } => self.follow_service(
                ResolveState::begin(ResolveKind::Service, service),
            ),
            OperationView::Admin { command } => match command.service_identifier() {
                Some(identifier) => self.follow_service(
                    ResolveState::begin(
                        if command.creates_service() {
                            ResolveKind::ServiceOrCreate
                        } else {
                            ResolveKind::Service
                        },
                        identifier,
                    ),
                ),
                None => self.after_service(),
            },
            _ => self.fail(ErrorCode::InvalidRequestBody),
        }
    }

    /// What follows a step of the resolution of the service.
    pub open spec fn follow_service(self, step: ResolveStepView) -> ExchangeStepView {
        match step {
            StepView::Call(task, call) => StepView::Call(
                self.at(StageView::ResolvingService(task)),
                call,
            ),
            StepView::Finish(Err(code)) => self.fail(code),
            StepView::Finish(Ok(service_id)) => ExchangeState {
                service_id,
                ..self
            }.after_service(),
        }
    }

    /// What follows once the service is known, or none is named.
    pub open spec fn after_service(self) -> ExchangeStepView {
        match self.operation {
            OperationView::CheckAccess { .. } => StepView::Call(
                self.at(StageView::LoadingService),
                CallView::FindService { id: self.service_id },
            ),
            OperationView::Grant { person, service, permission } => self.follow_permission(
                ResolveState::begin(ResolveKind::Permission, permission),
            ),
            OperationView::Admin { command } => match command.call(
                self.person_id,
                self.service_id,
                self.now,
                self.salt,
            ) {
                Ok(call) => StepView::Call(self.at(StageView::Acting), call),
                Err(code) => self.fail(code),
            },
            _ => self.fail(ErrorCode::InvalidRequestBody),
        }
    }

    /// What follows a step of the resolution of the permission.
    pub open spec fn follow_permission(self, step: ResolveStepView) -> ExchangeStepView {
        match step {
            StepView::Call(task, call) => StepView::Call(
                self.at(StageView::ResolvingPermission(task)),
                call,
            ),
            StepView::Finish(Err(code)) => self.fail(code),
            StepView::Finish(Ok(permission_id)) => StepView::Call(
                ExchangeState { permission_id, ..self }.at(StageView::FindingRole),
                CallView::FindId {
                    entity: Entity::Role,
                    name: direct_role_name(self.person_id, self.service_id),
                },
            ),
        }
    }

    /// The person that the accepted user token stands for.
    pub open spec fn caller(self) -> Option<i32> {
        match self.session {
            Some(validation) => validation.record.payload.user_id(),
            None => None,
        }
    }

    /// What follows the reading of the service: a service that is missing or
    /// switched off ends the exchange; for a check of access the cache is
    /// asked next, for the issue of a token the token is sent to the store.
    pub open spec fn after_service_loaded(self, answer: AnswerView) -> ExchangeStepView {
        match answer {
            AnswerView::ServiceData(Some(service)) => if !service.status {
                self.fail(ErrorCode::ServiceInactive)
            } else {
                match self.operation {
                    OperationView::CheckAccess { .. } => match self.caller() {
                        Some(user_id) => StepView::Call(
                            ExchangeState { person_id: user_id, ..self }.at(
                                StageView::LoadingCache,
                            ),
                            CallView::LoadAccess {
                                token: self.token,
                                service_id: self.service_id,
                            },
                        ),
                        None => self.fail(ErrorCode::InvalidToken),
                    },
                    OperationView::IssueServiceToken { .. } => StepView::Call(
                        ExchangeState { service_name: service.name, ..self }.at(
                            StageView::IssuingServiceToken,
                        ),
                        CallView::InsertToken {
                            record: TokenRow {
                                token: self.fresh_token,
                                payload: PayloadView::Service {
                                    service_id: self.service_id,
                                    service_name: service.name,
                                },
                                expires_at: self.service_until,
                            },
                        },
                    ),
                    _ => self.fail(ErrorCode::InvalidRequestBody),
                }
            },
            AnswerView::ServiceData(None) => self.fail(
                if self.operation is IssueServiceToken {
                    ErrorCode::ServiceNotFound
                } else if self.via_service_token {
                    ErrorCode::InvalidServiceToken
                } else {
                    ErrorCode::InvalidServiceId
                },
            ),
            _ => self.fail(ErrorCode::LoadServiceFailed),
        }
    }

    /// The answer to a check of access, from the access that was found.
    pub open spec fn answer_access(self, access: AccessFacts, used_cache: bool)
        -> ExchangeStepView {
        match self.operation {
            OperationView::CheckAccess {
                service_token,
                named_service,
                permission_name: Some(name),
            } => self.reply(
                ResponseView::success(
                    BodyView::HasPermission { has_permission: access.permissions.contains(name) },
                ),
                Some(used_cache),
            ),
            _ => match self.session {
                Some(validation) => self.reply(
                    ResponseView::success(
                        BodyView::AccessChecked {
                            access,
                            renewed: validation.renewed,
                            expires_at: validation.expires_at,
                        },
                    ),
                    Some(used_cache),
                ),
                None => self.fail(ErrorCode::InvalidToken),
            },
        }
    }

    /// The access that is computed from the names that the catalog gave: the
    /// roles and the permissions in ascending order, each once, to be cached
    /// for one user lifetime.
    pub open spec fn computed_access(self, roles: Seq<Seq<char>>, permissions: Seq<Seq<char>>)
        -> AccessFacts {
        AccessFacts {
            user_id: self.person_id,
            service_id: self.service_id,
            roles: sorted_set(roles),
            permissions: sorted_set(permissions),
            scopes: Seq::empty(),
            expires_at: self.user_until,
        }
    }

    /// What follows the reading of the cache: an entry that has not expired
    /// answers the check; else the catalog is asked.
    pub open spec fn after_cache_loaded(self, answer: AnswerView) -> ExchangeStepView {
        match answer {
            AnswerView::Access(Some(entry)) => if entry.expires_at > self.now {
                self.answer_access(entry.access_json, true)
            } else {
                self.ask_grants()
            },
            AnswerView::Access(None) => self.ask_grants(),
            _ => self.fail(ErrorCode::LoadAccessCacheFailed),
        }
    }

    /// The question to the catalog for the caller's roles and permissions.
    pub open spec fn ask_grants(self) -> ExchangeStepView {
        StepView::Call(
            self.at(StageView::LoadingGrants),
            CallView::Grants { user_id: self.person_id, service_id: self.service_id },
        )
    }

    /// What follows the catalog's answer: the access is computed and sent to
    /// the cache.
    pub open spec fn after_grants_loaded(self, answer: AnswerView) -> ExchangeStepView {
        match answer {
            AnswerView::Grants { roles, permissions } => {
                let access = self.computed_access(roles, permissions);
                StepView::Call(
                    ExchangeState { access: Some(access), ..self }.at(StageView::StoringCache),
                    CallView::StoreAccess {
                        row: CacheRow {
                            token: self.token,
                            service_id: self.service_id,
                            access,
                            expires_at: self.user_until,
                        },
                    },
                )
            },
            _ => self.fail(ErrorCode::LoadRolesFailed),
        }
    }

    /// The edge from the service to the person's own role is sent.
    pub open spec fn link_service(self, role_id: i32) -> ExchangeStepView {
        StepView::Call(
            ExchangeState { role_id, ..self }.at(StageView::LinkingService),
            CallView::Link { edge: Edge::ServiceRole { service_id: self.service_id, role_id } },
        )
    }

    /// What follows an answer in the course of a direct grant: the role is
    /// found or created, then the three edges are put in, the one that lets the
    /// person use the permission last, and then the cache is cleared for the
    /// person in the service.
    pub open spec fn after_grant_step(self, answer: AnswerView) -> ExchangeStepView {
        match self.stage {
            StageView::FindingRole => match answer {
                AnswerView::Id(Some(role_id)) => self.link_service(role_id),
                AnswerView::Id(None) => StepView::Call(
                    self.at(StageView::InsertingRole),
                    CallView::InsertRole {
                        name: direct_role_name(self.person_id, self.service_id),
                    },
                ),
                _ => self.fail(ErrorCode::ResolveDirectRoleFailed),
            },
            StageView::InsertingRole => match answer {
                AnswerView::Id(Some(role_id)) => self.link_service(role_id),
                AnswerView::Id(None) => StepView::Call(
                    self.at(StageView::RefindingRole),
                    CallView::FindId {
                        entity: Entity::Role,
                        name: direct_role_name(self.person_id, self.service_id),
                    },
                ),
                _ => self.fail(ErrorCode::CreateDirectRoleFailed),
            },
            StageView::RefindingRole => match answer {
                AnswerView::Id(Some(role_id)) => self.link_service(role_id),
                _ => self.fail(ErrorCode::ResolveDirectRoleFailed),
            },
            StageView::LinkingService => match answer {
                AnswerView::Done => StepView::Call(
                    self.at(StageView::LinkingPermission),
                    CallView::Link {
                        edge: Edge::RolePermission {
                            role_id: self.role_id,
                            permission_id: self.permission_id,
                        },
                    },
                ),
                _ => self.fail(ErrorCode::LinkRoleServiceFailed),
            },
            StageView::LinkingPermission => match answer {
                AnswerView::Done => StepView::Call(
                    self.at(StageView::LinkingPerson),
                    CallView::Link {
                        edge: Edge::PersonServiceRole {
                            person_id: self.person_id,
                            service_id: self.service_id,
                            role_id: self.role_id,
                        },
                    },
                ),
                _ => self.fail(ErrorCode::AssignPermissionFailed),
            },
            _ => match answer {
                AnswerView::Done => StepView::Call(
                    ExchangeState {
                        pending: Some(
                            ResponseView::success(
                                BodyView::Granted {
                                    person_id: self.person_id,
                                    service_id: self.service_id,
                                    permission_id: self.permission_id,
                                    role_id: self.role_id,
                                },
                            ),
                        ),
                        ..self
                    }.at(StageView::Invalidating),
                    CallView::DropAccess {
                        scope: AccessScope::Pair {
                            user_id: self.person_id,
                            service_id: self.service_id,
                        },
                    },
                ),
                _ => self.fail(ErrorCode::AssignRolePersonFailed),
            },
        }
    }

    /// What follows the answer to the statement of a command: where the
    /// command changed what someone may do, the stale part of the cache is
    /// removed before the answer goes out.
    pub open spec fn after_action(self, answer: AnswerView) -> ExchangeStepView {
        match self.operation {
            OperationView::Admin { command } => {
                let response = command.finish(answer);
                match command.scope(self.person_id, self.service_id) {
                    Some(scope) => if succeeded(response) {
                        StepView::Call(
                            ExchangeState { pending: Some(response), ..self }.at(
                                StageView::Invalidating,
                            ),
                            CallView::DropAccess { scope },
                        )
                    } else {
                        self.reply(response, None)
                    },
                    None => self.reply(response, None),
                }
            },
            _ => self.fail(ErrorCode::InvalidRequestBody),
        }
    }

    /// What follows the removal of stale cache rows: the answer that waited
    /// for it; after the removal of a person, first the revocation of their
    /// tokens.
    pub open spec fn after_invalidation(self, answer: AnswerView) -> ExchangeStepView {
        match answer {
            AnswerView::Rows(_) => match self.operation {
                OperationView::Admin { command: CommandView::DeleteUser { id } } => StepView::Call(
                    self.at(StageView::Revoking),
                    CallView::DeleteTokensForUser { user_id: id },
                ),
                _ => match self.pending {
                    Some(response) => self.reply(response, None),
                    None => self.fail(ErrorCode::CacheInvalidationFailed),
                },
            },
            _ => self.fail(ErrorCode::CacheInvalidationFailed),
        }
    }

    /// The step that follows the store's answer.
    pub open spec fn advance(self, answer: AnswerView) -> ExchangeStepView {
        match self.stage {
            StageView::Deciding => self.fail(ErrorCode::InvalidRequestBody),
            StageView::Authenticating(task) => self.at(StageView::Deciding).follow_auth(
                task.advance(answer),
            ),
            StageView::ServiceAuthenticating(task) => self.at(
                StageView::Deciding,
            ).follow_service_auth(task.advance(answer)),
            StageView::ResolvingPerson(task) => self.at(StageView::Deciding).follow_person(
                task.advance(answer),
            ),
            StageView::ResolvingService(task) => self.at(StageView::Deciding).follow_service(
                task.advance(answer),
            ),
            StageView::ResolvingPermission(task) => self.at(
                StageView::Deciding,
            ).follow_permission(task.advance(answer)),
            StageView::LoadingService => self.after_service_loaded(answer),
            StageView::LoadingCache => self.after_cache_loaded(answer),
            StageView::LoadingGrants => self.after_grants_loaded(answer),
            StageView::StoringCache => match (answer, self.access) {
                (AnswerView::Done, Some(access)) => self.answer_access(access, false),
                _ => self.fail(ErrorCode::StoreAccessCacheFailed),
            },
            StageView::IssuingServiceToken => match answer {
                AnswerView::Done => self.reply(
                    ResponseView::success(
                        BodyView::ServiceToken {
                            service_id: self.service_id,
                            service_name: self.service_name,
                            service_token: self.fresh_token,
                            expires_at: self.service_until,
                        },
                    ),
                    None,
                ),
                _ => self.fail(ErrorCode::IssueServiceTokenFailed),
            },
            StageView::LoggingOut => match answer {
                AnswerView::Rows(_) => self.reply(
                    ResponseView::success(BodyView::Status { word: StatusWord::LoggedOut }),
                    None,
                ),
                _ => self.fail(ErrorCode::LogoutFailed),
            },
            StageView::FindingRole | StageView::InsertingRole | StageView::RefindingRole
            | StageView::LinkingService | StageView::LinkingPermission
            | StageView::LinkingPerson => self.after_grant_step(answer),
            StageView::Acting => self.after_action(answer),
            StageView::Invalidating => self.after_invalidation(answer),
            StageView::Revoking => match (answer, self.operation) {
                (
                    AnswerView::Rows(rows),
                    OperationView::Admin { command: CommandView::DeleteUser { id } },
                ) => self.reply(
                    ResponseView::success(
                        BodyView::UserDeleted { user_id: id, revoked_tokens: rows },
                    ),
                    None,
                ),
                _ => self.fail(ErrorCode::UserTokenCleanupFailed),
            },
        }
    }
}

/// The failure that is reported for a user token that was not accepted.
pub fn auth_error(error: TokenError) -> (code: ErrorCode)
    ensures
        code == auth_failure(error),
{
    match error {
        TokenError::NotFound => ErrorCode::InvalidToken,
        TokenError::Expired => ErrorCode::ExpiredToken,
        TokenError::Database => ErrorCode::TokenValidationFailed,
    }
}

/// The failure that is reported for a service token that was not accepted.
pub fn service_auth_error(error: TokenError) -> (code: ErrorCode)
    ensures
        code == service_auth_failure(error),
{
    match error {
        TokenError::Database => ErrorCode::TokenValidationFailed,
        _ => ErrorCode::InvalidServiceToken,
    }
}

/// Tells whether an answer is one to a request that was carried out.
pub fn has_succeeded(response: &Response) -> (r: bool)
    ensures
        r == succeeded(response@),
{
    match response.status {
        StatusCode::Success => true,
        StatusCode::Created => true,
        _ => false,
    }
}

impl Exchange {
    fn reply(self, response: Response, used_cache: Option<bool>) -> (step: ExchangeStep)
        ensures
            exchange_step_view(step) == self@.reply(response@, used_cache),
    {
        let valid = self.session.is_some();
        Step::Finish(Outcome { response, token: self.token, valid, used_cache })
    }

    fn fail(self, code: ErrorCode) -> (step: ExchangeStep)
        ensures
            exchange_step_view(step) == self@.fail(code),
    {
        self.reply(error_response(code), None)
    }

    /// Starts an exchange at the time `now`. `user_token` is what the request
    /// carries for a user token; `fresh_token` is the value of a token, should
    /// one be issued, and `salt` the salt of a password, should one be hashed.
    pub fn begin(
        user_token: Option<String>,
        operation: Operation,
        now: i64,
        config: TokenConfig,
        fresh_token: String,
        salt: Vec<u8>,
    ) -> (step: ExchangeStep)
        requires
            config.fits(now),
        ensures
            exchange_step_view(step) == ExchangeState::begin(
                crate::entities::text_of(user_token),
                operation@,
                now,
                config,
                fresh_token@,
                salt@,
            ),
    {
        match user_token {
            None => Step::Finish(
                Outcome {
                    response: error_response(ErrorCode::MissingTokenHeader),
                    token: String::new(),
                    valid: false,
                    used_cache: None,
                },
            ),
            Some(token) => {
                let renew = match operation {
                    Operation::Logout => false,
                    _ => true,
                };
                let first = ValidationTask::begin(
                    token.as_str(),
                    renew,
                    config.ttl_seconds,
                    now,
                    config,
                );
                let exchange = Exchange {
                    operation,
                    token,
                    now,
                    config,
                    user_until: now + config.ttl_seconds,
                    service_until: now + config.service_ttl_seconds,
                    fresh_token,
                    salt,
                    session: None,
                    person_id: 0,
                    service_id: 0,
                    permission_id: 0,
                    role_id: 0,
                    via_service_token: false,
                    service_name: String::new(),
                    access: None,
                    pending: None,
                    stage: Stage::Deciding,
                };
                exchange.follow_auth(first)
            },
        }
    }

    fn follow_auth(self, step: ValidationStep) -> (next: ExchangeStep)
        ensures
            exchange_step_view(next) == self@.follow_auth(step_view(step)),
    {
        match step {
            Step::Call(task, call) => Step::Call(
                Exchange { stage: Stage::Authenticating(task), ..self },
                call,
            ),
            Step::Finish(Err(error)) => self.fail(auth_error(error)),
            Step::Finish(Ok(validation)) => Exchange {
                session: Some(validation),
                ..self
            }.after_auth(),
        }
    }

    fn show_session(self, checked: bool) -> (next: ExchangeStep)
        ensures
            exchange_step_view(next) == self@.show_session(checked),
    {
        match &self.session {
            Some(validation) => {
                let payload = validation.record.payload.clone();
                let renewed = validation.renewed;
                let expires_at = validation.expires_at;
                let body = if checked {
                    Body::TokenChecked { payload, renewed, expires_at }
                } else {
                    Body::Profile { payload, renewed, expires_at }
                };
                self.reply(ok_response(body), None)
            },
            None => self.fail(ErrorCode::InvalidToken),
        }
    }

    fn after_auth(self) -> (next: ExchangeStep)
        ensures
            exchange_step_view(next) == self@.after_auth(),
    {
        match &self.operation {
            Operation::Refused { code } => {
                let code = *code;
                self.fail(code)
            },
            Operation::Profile => self.show_session(false),
            Operation::CheckToken => self.show_session(true),
            Operation::Logout => {
                let token = self.token.clone();
                Step::Call(
                    Exchange { stage: Stage::LoggingOut, ..self },
                    StoreCall::DeleteToken { token },
                )
            },
            Operation::CheckAccess { service_token, named_service, permission_name } => {
                match (service_token, named_service) {
                    (Some(token), None) => {
                        let first = ValidationTask::begin(
                            token.as_str(),
                            false,
                            self.config.service_ttl_seconds,
                            self.now,
                            self.config,
                        );
                        self.follow_service_auth(first)
                    },
                    (None, Some(identifier)) => {
                        let first = ResolveTask::begin(ResolveKind::Service, identifier);
                        self.follow_service(first)
                    },
                    _ => self.fail(ErrorCode::InvalidRequestBody),
                }
            },
            Operation::IssueServiceToken { service_id } => {
                let service_id = *service_id;
                Step::Call(
                    Exchange { service_id, stage: Stage::LoadingService, ..self },
                    StoreCall::FindService { id: service_id },
                )
            },
            Operation::Grant { person, service, permission } => {
                let first = ResolveTask::begin(ResolveKind::Person, person);
                self.follow_person(first)
            },
            Operation::Admin { command } => match command.person_identifier() {
                Some(identifier) => {
                    let first = ResolveTask::begin(ResolveKind::Person, identifier);
                    self.follow_person(first)
                },
                None => self.after_person(),
            },
        }
    }

    fn follow_service_auth(self, step: ValidationStep) -> (next: ExchangeStep)
        ensures
            exchange_step_view(next) == self@.follow_service_auth(step_view(step)),
    {
        match step {
            Step::Call(task, call) => Step::Call(
                Exchange { stage: Stage::ServiceAuthenticating(task), ..self },
                call,
            ),
            Step::Finish(Err(error)) => self.fail(service_auth_error(error)),
            Step::Finish(Ok(validation)) => match validation.record.payload.service_id() {
                Some(service_id) => Step::Call(
                    Exchange {
                        service_id,
                        via_service_token: true,
                        stage: Stage::LoadingService,
                        ..self
                    },
                    StoreCall::FindService { id: service_id },
                ),
                None => self.fail(ErrorCode::InvalidServiceToken),
            },
        }
    }

    fn follow_person(self, step: ResolveStep) -> (next: ExchangeStep)
        ensures
            exchange_step_view(next) == self@.follow_person(resolve_step_view(step)),
    {
        match step {
            Step::Call(task, call) => Step::Call(
                Exchange { stage: Stage::ResolvingPerson(task), ..self },
                call,
            ),
            Step::Finish(Err(code)) => self.fail(code),
            Step::Finish(Ok(person_id)) => Exchange { person_id, ..self }.after_person(),
        }
    }

    fn after_person(self) -> (next: ExchangeStep)
        ensures
            exchange_step_view(next) == self@.after_person(),
    {
        match &self.operation {
            Operation::Grant { person, service, permission } => {
                let first = ResolveTask::begin(ResolveKind::Service, service);
                self.follow_service(first)
            },
            Operation::Admin { command } => match command.service_identifier() {
                Some(identifier) => {
                    let kind = if command.creates_service() {
                        ResolveKind::ServiceOrCreate
                    } else {
                        ResolveKind::Service
                    };
                    let first = ResolveTask::begin(kind, identifier);
                    self.follow_service(first)
                },
                None => self.after_service(),
            },
            _ => self.fail(ErrorCode::InvalidRequestBody),
        }
    }

    fn follow_service(self, step: ResolveStep) -> (next: ExchangeStep)
        ensures
            exchange_step_view(next) == self@.follow_service(resolve_step_view(step)),
    {
        match step {
            Step::Call(task, call) => Step::Call(
                Exchange { stage: Stage::ResolvingService(task), ..self },
                call,
            ),
            Step::Finish(Err(code)) => self.fail(code),
            Step::Finish(Ok(service_id)) => Exchange { service_id, ..self }.after_service(),
        }
    }

    fn after_service(self) -> (next: ExchangeStep)
        ensures
            exchange_step_view(next) == self@.after_service(),
    {
        match &self.operation {
            Operation::CheckAccess { .. } => {
                let id = self.service_id;
                Step::Call(
                    Exchange { stage: Stage::LoadingService, ..self },
                    StoreCall::FindService { id },
                )
            },
            Operation::Grant { person, service, permission } => {
                let first = ResolveTask::begin(ResolveKind::Permission, permission);
                self.follow_permission(first)
            },
            Operation::Admin { command } => {
                match command.call(self.person_id, self.service_id, self.now, &self.salt) {
                    Ok(call) => Step::Call(Exchange { stage: Stage::Acting, ..self }, call),
                    Err(code) => self.fail(code),
                }
            },
            _ => self.fail(ErrorCode::InvalidRequestBody),
        }
    }

    fn follow_permission(self, step: ResolveStep) -> (next: ExchangeStep)
        ensures
            exchange_step_view(next) == self@.follow_permission(resolve_step_view(step)),
    {
        match step {
            Step::Call(task, call) => Step::Call(
                Exchange { stage: Stage::ResolvingPermission(task), ..self },
                call,
            ),
            Step::Finish(Err(code)) => self.fail(code),
            Step::Finish(Ok(permission_id)) => {
                let name = direct_role(self.person_id, self.service_id);
                Step::Call(
                    Exchange { permission_id, stage: Stage::FindingRole, ..self },
                    StoreCall::FindId { entity: Entity::Role, name },
                )
            },
        }
    }

    fn caller(&self) -> (r: Option<i32>)
        ensures
            r == self@.caller(),
    {
        match &self.session {
            Some(validation) => validation.record.payload.user_id(),
            None => None,
        }
    }

    fn after_service_loaded(self, answer: StoreAnswer) -> (next: ExchangeStep)
        ensures
            exchange_step_view(next) == self@.after_service_loaded(answer@),
    {
        match answer {
            StoreAnswer::ServiceData(Some(service)) => {
                if !service.status {
                    return self.fail(ErrorCode::ServiceInactive);
                }
                match &self.operation {
                    Operation::CheckAccess { .. } => match self.caller() {
                        Some(user_id) => {
                            let token = self.token.clone();
                            let service_id = self.service_id;
                            Step::Call(
                                Exchange {
                                    person_id: user_id,
                                    stage: Stage::LoadingCache,
                                    ..self
                                },
                                StoreCall::LoadAccess { token, service_id },
                            )
                        },
                        None => self.fail(ErrorCode::InvalidToken),
                    },
                    Operation::IssueServiceToken { .. } => {
                        let record = TokenRecord {
                            token: self.fresh_token.clone(),
                            payload: TokenPayload::Service {
                                service_id: self.service_id,
                                service_name: service.name.clone(),
                            },
                            expires_at: self.service_until,
                        };
                        Step::Call(
                            Exchange {
                                service_name: service.name,
                                stage: Stage::IssuingServiceToken,
                                ..self
                            },
                            StoreCall::InsertToken { record },
                        )
                    },
                    _ => self.fail(ErrorCode::InvalidRequestBody),
                }
            },
            StoreAnswer::ServiceData(None) => {
                let issuing = match &self.operation {
                    Operation::IssueServiceToken { .. } => true,
                    _ => false,
                };
                let code = if issuing {
                    ErrorCode::ServiceNotFound
                } else if self.via_service_token {
                    ErrorCode::InvalidServiceToken
                } else {
                    ErrorCode::InvalidServiceId
                };
                self.fail(code)
            },
            _ => self.fail(ErrorCode::LoadServiceFailed),
        }
    }

    fn answer_access(self, access: AccessSnapshot, used_cache: bool) -> (next: ExchangeStep)
        ensures
            exchange_step_view(next) == self@.answer_access(access@, used_cache),
    {
        let asked = match &self.operation {
            Operation::CheckAccess {
                service_token,
                named_service,
                permission_name: Some(name),
            } => Some(holds_name(&access.permissions, name.as_str())),
            _ => None,
        };
        match asked {
            Some(has_permission) => self.reply(
                ok_response(Body::HasPermission { has_permission }),
                Some(used_cache),
            ),
            None => match &self.session {
                Some(validation) => {
                    let renewed = validation.renewed;
                    let expires_at = validation.expires_at;
                    self.reply(
                        ok_response(Body::AccessChecked { access, renewed, expires_at }),
                        Some(used_cache),
                    )
                },
                None => self.fail(ErrorCode::InvalidToken),
            },
        }
    }

    fn ask_grants(self) -> (next: ExchangeStep)
        ensures
            exchange_step_view(next) == self@.ask_grants(),
    {
        let user_id = self.person_id;
        let service_id = self.service_id;
        Step::Call(
            Exchange { stage: Stage::LoadingGrants, ..self },
            StoreCall::Grants { user_id, service_id },
        )
    }

    fn after_cache_loaded(self, answer: StoreAnswer) -> (next: ExchangeStep)
        ensures
            exchange_step_view(next) == self@.after_cache_loaded(answer@),
    {
        match answer {
            StoreAnswer::Access(Some(entry)) => {
                if entry.expires_at > self.now {
                    self.answer_access(entry.access_json, true)
                } else {
                    self.ask_grants()
                }
            },
            StoreAnswer::Access(None) => self.ask_grants(),
            _ => self.fail(ErrorCode::LoadAccessCacheFailed),
        }
    }

    fn after_grants_loaded(self, answer: StoreAnswer) -> (next: ExchangeStep)
        ensures
            exchange_step_view(next) == self@.after_grants_loaded(answer@),
    {
        match answer {
            StoreAnswer::Grants { roles, permissions } => {
                let access = AccessSnapshot {
                    user_id: self.person_id,
                    service_id: self.service_id,
                    roles: sorted_names(&roles),
                    permissions: sorted_names(&permissions),
                    scopes: Vec::new(),
                    expires_at: self.user_until,
                };
                assert(access.scopes.deep_view() =~= Seq::<Seq<char>>::empty());
                let row = AccessRow {
                    token: self.token.clone(),
                    service_id: self.service_id,
                    access: access.clone(),
                    expires_at: self.user_until,
                };
                Step::Call(
                    Exchange { access: Some(access), stage: Stage::StoringCache, ..self },
                    StoreCall::StoreAccess { row },
                )
            },
            _ => self.fail(ErrorCode::LoadRolesFailed),
        }
    }

    fn link_service(self, role_id: i32) -> (next: ExchangeStep)
        ensures
            exchange_step_view(next) == self@.link_service(role_id),
    {
        let service_id = self.service_id;
        Step::Call(
            Exchange { role_id, stage: Stage::LinkingService, ..self },
            StoreCall::Link { edge: Edge::ServiceRole { service_id, role_id } },
        )
    }

    fn after_grant_step(self, answer: StoreAnswer) -> (next: ExchangeStep)
        ensures
            exchange_step_view(next) == self@.after_grant_step(answer@),
    {
        match &self.stage {
            Stage::FindingRole => match answer {
                StoreAnswer::Id(Some(role_id)) => self.link_service(role_id),
                StoreAnswer::Id(None) => {
                    let name = direct_role(self.person_id, self.service_id);
                    Step::Call(
                        Exchange { stage: Stage::InsertingRole, ..self },
                        StoreCall::InsertRole { name },
                    )
                },
                _ => self.fail(ErrorCode::ResolveDirectRoleFailed),
            },
            Stage::InsertingRole => match answer {
                StoreAnswer::Id(Some(role_id)) => self.link_service(role_id),
                StoreAnswer::Id(None) => {
                    let name = direct_role(self.person_id, self.service_id);
                    Step::Call(
                        Exchange { stage: Stage::RefindingRole, ..self },
                        StoreCall::FindId { entity: Entity::Role, name },
                    )
                },
                _ => self.fail(ErrorCode::CreateDirectRoleFailed),
            },
            Stage::RefindingRole => match answer {
                StoreAnswer::Id(Some(role_id)) => self.link_service(role_id),
                _ => self.fail(ErrorCode::ResolveDirectRoleFailed),
            },
            Stage::LinkingService => match answer {
                StoreAnswer::Done => {
                    let edge = Edge::RolePermission {
                        role_id: self.role_id,
                        permission_id: self.permission_id,
                    };
                    Step::Call(
                        Exchange { stage: Stage::LinkingPermission, ..self },
                        StoreCall::Link { edge },
                    )
                },
                _ => self.fail(ErrorCode::LinkRoleServiceFailed),
            },
            Stage::LinkingPermission => match answer {
                StoreAnswer::Done => {
                    let edge = Edge::PersonServiceRole {
                        person_id: self.person_id,
                        service_id: self.service_id,
                        role_id: self.role_id,
                    };
                    Step::Call(
                        Exchange { stage: Stage::LinkingPerson, ..self },
                        StoreCall::Link { edge },
                    )
                },
                _ => self.fail(ErrorCode::AssignPermissionFailed),
            },
            _ => match answer {
                StoreAnswer::Done => {
                    let response = ok_response(
                        Body::Granted {
                            person_id: self.person_id,
                            service_id: self.service_id,
                            permission_id: self.permission_id,
                            role_id: self.role_id,
                        },
                    );
                    let scope = AccessScope::Pair {
                        user_id: self.person_id,
                        service_id: self.service_id,
                    };
                    Step::Call(
                        Exchange { pending: Some(response), stage: Stage::Invalidating, ..self },
                        StoreCall::DropAccess { scope },
                    )
                },
                _ => self.fail(ErrorCode::AssignRolePersonFailed),
            },
        }
    }

    fn after_action(self, answer: StoreAnswer) -> (next: ExchangeStep)
        ensures
            exchange_step_view(next) == self@.after_action(answer@),
    {
        match &self.operation {
            Operation::Admin { command } => {
                let response = command.finish(answer);
                match command.scope(self.person_id, self.service_id) {
                    Some(scope) => {
                        if has_succeeded(&response) {
                            Step::Call(
                                Exchange {
                                    pending: Some(response),
                                    stage: Stage::Invalidating,
                                    ..self
                                },
                                StoreCall::DropAccess { scope },
                            )
                        } else {
                            self.reply(response, None)
                        }
                    },
                    None => self.reply(response, None),
                }
            },
            _ => self.fail(ErrorCode::InvalidRequestBody),
        }
    }

    fn removed_user(&self) -> (r: Option<i32>)
        ensures
            r == match self@.operation {
                OperationView::Admin { command: CommandView::DeleteUser { id } } => Some(id),
                _ => None,
            },
    {
        match &self.operation {
            Operation::Admin { command: Command::DeleteUser { id } } => Some(*id),
            _ => None,
        }
    }

    fn after_invalidation(self, answer: StoreAnswer) -> (next: ExchangeStep)
        ensures
            exchange_step_view(next) == self@.after_invalidation(answer@),
    {
        match answer {
            StoreAnswer::Rows(_) => match self.removed_user() {
                Some(id) => Step::Call(
                    Exchange { stage: Stage::Revoking, ..self },
                    StoreCall::DeleteTokensForUser { user_id: id },
                ),
                None => {
                    let valid = self.session.is_some();
                    match self.pending {
                        Some(response) => Step::Finish(
                            Outcome { response, token: self.token, valid, used_cache: None },
                        ),
                        None => Step::Finish(
                            Outcome {
                                response: error_response(ErrorCode::CacheInvalidationFailed),
                                token: self.token,
                                valid,
                                used_cache: None,
                            },
                        ),
                    }
                },
            },
            _ => self.fail(ErrorCode::CacheInvalidationFailed),
        }
    }

    /// Takes the store's answer to the statement last handed out and gives
    /// the next step.
    pub fn advance(self, answer: StoreAnswer) -> (next: ExchangeStep)
        ensures
            exchange_step_view(next) == self@.advance(answer@),
    {
        match self.stage {
            Stage::Authenticating(task) => {
                let step = task.advance(answer);
                Exchange { stage: Stage::Deciding, ..self }.follow_auth(step)
            },
            Stage::ServiceAuthenticating(task) => {
                let step = task.advance(answer);
                Exchange { stage: Stage::Deciding, ..self }.follow_service_auth(step)
            },
            Stage::ResolvingPerson(task) => {
                let step = task.advance(answer);
                Exchange { stage: Stage::Deciding, ..self }.follow_person(step)
            },
            Stage::ResolvingService(task) => {
                let step = task.advance(answer);
                Exchange { stage: Stage::Deciding, ..self }.follow_service(step)
            },
            Stage::ResolvingPermission(task) => {
                let step = task.advance(answer);
                Exchange { stage: Stage::Deciding, ..self }.follow_permission(step)
            },
            other => Exchange { stage: other, ..self }.advance_plain(answer),
        }
    }

    /// The step that follows an answer at a stage that holds no task of its own.
    fn advance_plain(self, answer: StoreAnswer) -> (next: ExchangeStep)
        requires
            !(self@.stage is Authenticating) && !(self@.stage is ServiceAuthenticating) && !(
            self@.stage is ResolvingPerson) && !(self@.stage is ResolvingService) && !(
            self@.stage is ResolvingPermission),
        ensures
            exchange_step_view(next) == self@.advance(answer@),
    {
        match &self.stage {
            Stage::Deciding => self.fail(ErrorCode::InvalidRequestBody),
            Stage::LoadingService => self.after_service_loaded(answer),
            Stage::LoadingCache => self.after_cache_loaded(answer),
            Stage::LoadingGrants => self.after_grants_loaded(answer),
            Stage::StoringCache => {
                let stored = match &self.access {
                    Some(access) => Some(access.clone()),
                    None => None,
                };
                match (answer, stored) {
                    (StoreAnswer::Done, Some(access)) => self.answer_access(access, false),
                    _ => self.fail(ErrorCode::StoreAccessCacheFailed),
                }
            },
            Stage::IssuingServiceToken => match answer {
                StoreAnswer::Done => {
                    let body = Body::ServiceToken {
                        service_id: self.service_id,
                        service_name: self.service_name.clone(),
                        service_token: self.fresh_token.clone(),
                        expires_at: self.service_until,
                    };
                    self.reply(ok_response(body), None)
                },
                _ => self.fail(ErrorCode::IssueServiceTokenFailed),
            },
            Stage::LoggingOut => match answer {
                StoreAnswer::Rows(_) => self.reply(
                    ok_response(Body::Status { word: StatusWord::LoggedOut }),
                    None,
                ),
                _ => self.fail(ErrorCode::LogoutFailed),
            },
            Stage::Acting => self.after_action(answer),
            Stage::Invalidating => self.after_invalidation(answer),
            Stage::Revoking => {
                let removed = self.removed_user();
                match (answer, removed) {
                    (StoreAnswer::Rows(rows), Some(id)) => self.reply(
                        ok_response(Body::UserDeleted { user_id: id, revoked_tokens: rows }),
                        None,
                    ),
                    _ => self.fail(ErrorCode::UserTokenCleanupFailed),
                }
            },
            _ => self.after_grant_step(answer),
        }
    }
}

impl Task for Exchange {
    type State = ExchangeState;

    type Outcome = Outcome;

    type OutcomeView = OutcomeView;

    open spec fn state(&self) -> ExchangeState {
        self@
    }

    open spec fn outcome_view(outcome: &Outcome) -> OutcomeView {
        outcome@
    }

    open spec fn next(state: ExchangeState, answer: AnswerView) -> ExchangeStepView {
        state.advance(answer)
    }

    fn step(self, answer: StoreAnswer) -> (step: ExchangeStep) {
        self.advance(answer)
    }
}

} // verus!
