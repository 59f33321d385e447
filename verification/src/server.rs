//! The service in memory, and its endpoints.
//!
//! Each endpoint reads the user token from the request, runs the exchange that
//! the request asks for against the tables in memory, writes the line that is
//! logged for the request, and gives the answer.

use crate::command::{Command, CommandView};
use crate::digest::{fresh_salt, generate_token_value};
use crate::entities::text_of;
use crate::exchange::{
    identifier_view, Exchange, ExchangeState, Operation, OperationView, Outcome, OutcomeView,
};
use crate::flexible::{FlexibleId, FlexibleIdView};
use crate::http::{
    error_response, ok_response, Body, BodyView, ErrorCode, Response, ResponseView,
};
use crate::login::{credentials, LoginState, LoginTask};
use crate::payloads::{
    assign_permission_to_role_plan, assign_role_to_person_in_service_plan,
    assign_role_to_service_plan, check_person_permission_in_service_plan, create_permission_plan,
    create_role_plan, create_service_plan, create_user_plan, delete_permission_plan,
    delete_role_plan, delete_service_plan, delete_user_plan, get_role_plan, get_user_plan,
    list_person_roles_in_service_plan, list_persons_with_role_in_service_plan,
    list_role_permissions_plan, list_service_roles_plan, list_services_of_person_plan,
    parse_check_permission_payload, path_id, path_number, plan_view,
    remove_permission_from_role_plan, remove_role_from_person_in_service_plan,
    remove_role_from_service_plan, update_permission_plan, update_role_plan,
    update_service_plan, update_user_plan, CheckPermissionPayload, CreatePermissionPayload,
    CreateRolePayload, CreateServicePayload, CreateUserPayload, LoginPayload,
    PersonServicePermissionPayload, PersonServiceRolePayload, RolePermissionPayload,
    ServiceRolePayload, UpdatePermissionPayload, UpdateRolePayload, UpdateServicePayload,
    UpdateUserPayload,
};
use crate::progress::{lemma_exchange_always_answers, lemma_login_always_answers};
use crate::protocol::{drive, run, StoreAnswer, StoreCall};
use crate::request::{
    audit_text, client_address, extract_ip, extract_token, header_token, log_access,
    SERVICE_TOKEN_HEADER, USER_TOKEN_HEADER,
};
use crate::store::{DbState, DB};
use crate::text::{option_text, same_text};
use crate::token::TokenConfig;
use vstd::prelude::*;
use vstd::string::*;

verus! {

/// What the service reads of a request besides its body.
pub struct Request {
    pub path: String,
    pub headers: Vec<(String, String)>,
    pub params: Vec<(String, String)>,
}

/// The value of the first parameter of a name.
pub open spec fn first_param(params: Seq<(Seq<char>, Seq<char>)>, name: Seq<char>) -> Option<
    Seq<char>,
>
    decreases params.len(),
{
    if params.len() == 0 {
        None
    } else if params[0].0 == name {
        Some(params[0].1)
    } else {
        first_param(params.skip(1), name)
    }
}

/// The value of the parameter `name` of the path.
pub fn param<'a>(req: &'a Request, name: &str) -> (r: Option<&'a str>)
    ensures
        option_text(r) == first_param(req.params.deep_view(), name@),
{
    let ghost all = req.params.deep_view();
    let mut i: usize = 0;
    assert(all.skip(0) == all);
    while i < req.params.len()
        invariant
            i <= req.params.len(),
            all == req.params.deep_view(),
            first_param(all, name@) == first_param(all.skip(i as int), name@),
        decreases req.params.len() - i,
    {
        assert(all.skip(i as int)[0] == all[i as int]);
        assert(all.skip(i as int).skip(1) == all.skip(i as int + 1));
        assert(all[i as int].0 == req.params[i as int].0@);
        assert(all[i as int].1 == req.params[i as int].1@);
        if same_text(req.params[i].0.as_str(), name) {
            return Some(req.params[i].1.as_str());
        }
        i = i + 1;
    }
    None
}

/// The number of statements that an exchange is given at most.
pub const EXCHANGE_FUEL: usize = 40;

/// The service in memory: its tables, its configuration and its log.
pub struct Server {
    db: DB,
    config: TokenConfig,
    secret: String,
    log: Vec<String>,
}

/// The service as plain values.
pub struct ServerState {
    pub db: DbState,
    pub config: TokenConfig,
    pub secret: Seq<char>,
    pub log: Seq<Seq<char>>,
}

impl View for Server {
    type V = ServerState;

    closed spec fn view(&self) -> ServerState {
        ServerState {
            db: self.db@,
            config: self.config,
            secret: self.secret@,
            log: self.log.deep_view(),
        }
    }
}

/// What a planned command asks of the service: the command, or a refusal.
pub open spec fn operation_of(plan: Result<CommandView, ErrorCode>) -> OperationView {
    match plan {
        Ok(command) => OperationView::Admin { command },
        Err(code) => OperationView::Refused { code },
    }
}

/// The answer of an exchange that ended. Every exchange ends; for one that
/// did not the failure of the validation would stand.
pub open spec fn answer_of(outcome: Option<OutcomeView>) -> ResponseView {
    match outcome {
        Some(outcome) => outcome.response,
        None => ResponseView::failure(ErrorCode::TokenValidationFailed),
    }
}

/// The log after an exchange: one line more, for the request.
pub open spec fn log_after(
    log: Seq<Seq<char>>,
    outcome: Option<OutcomeView>,
    path: Seq<char>,
    now: i64,
    headers: Seq<(Seq<char>, Seq<char>)>,
) -> Seq<Seq<char>> {
    match outcome {
        Some(outcome) => log.push(
            audit_text(
                outcome.token,
                path,
                now,
                client_address(headers),
                outcome.used_cache,
                outcome.valid,
            ),
        ),
        None => log,
    }
}

/// The service did what `operation` asks under the given token value and
/// salt: it went from `pre` to `post` and answered `response`.
pub open spec fn served(
    pre: ServerState,
    headers: Seq<(Seq<char>, Seq<char>)>,
    path: Seq<char>,
    operation: OperationView,
    now: i64,
    fresh_token: Seq<char>,
    salt: Seq<u8>,
    post: ServerState,
    response: ResponseView,
) -> bool {
    let ended = run::<Exchange>(
        pre.db,
        ExchangeState::begin(
            header_token(headers, "user-token"@),
            operation,
            now,
            pre.config,
            fresh_token,
            salt,
        ),
        40,
    );
    &&& ended.1 is Some
    &&& post == ServerState {
        db: ended.0,
        log: log_after(pre.log, ended.1, path, now, headers),
        ..pre
    }
    &&& response == answer_of(ended.1)
}

/// The service did what `operation` asks, under some token value of 64
/// characters and some salt of 16 bytes.
pub open spec fn handled(
    pre: ServerState,
    headers: Seq<(Seq<char>, Seq<char>)>,
    path: Seq<char>,
    operation: OperationView,
    now: i64,
    post: ServerState,
    response: ResponseView,
) -> bool {
    exists|fresh_token: Seq<char>, salt: Seq<u8>|
        fresh_token.len() == 64 && salt.len() == 16 && #[trigger] served(
            pre,
            headers,
            path,
            operation,
            now,
            fresh_token,
            salt,
            post,
            response,
        )
}

/// The service logged `payload` in under the given token value.
pub open spec fn logged_in(
    pre: ServerState,
    headers: Seq<(Seq<char>, Seq<char>)>,
    path: Seq<char>,
    payload: Option<(Seq<char>, Seq<char>)>,
    now: i64,
    fresh_token: Seq<char>,
    post: ServerState,
    response: ResponseView,
) -> bool {
    let ended = run::<LoginTask>(
        pre.db,
        LoginState::begin(payload, now, pre.config, fresh_token),
        4,
    );
    &&& ended.1 is Some
    &&& post == ServerState {
        db: ended.0,
        log: log_after(pre.log, ended.1, path, now, headers),
        ..pre
    }
    &&& response == answer_of(ended.1)
}

/// The grant that a body asks for: the permission by its id where that is
/// given, else by its name.
pub open spec fn grant_plan(payload: Option<PersonServicePermissionPayload>) -> OperationView {
    match payload {
        None => OperationView::Refused { code: ErrorCode::InvalidRequestBody },
        Some(body) => match (body.permission_id, body.permission_name) {
            (Some(identifier), _) => OperationView::Grant {
                person: body.person_id@,
                service: body.service_id@,
                permission: identifier@,
            },
            (None, Some(name)) => OperationView::Grant {
                person: body.person_id@,
                service: body.service_id@,
                permission: FlexibleIdView::of_text(name@),
            },
            (None, None) => OperationView::Refused { code: ErrorCode::InvalidRequestBody },
        },
    }
}

/// The body of a check of what the caller may do in a service.
pub struct CheckAccessPayload {
    pub service_id: Option<FlexibleId>,
    pub permission_name: Option<String>,
}

/// The check of access that a request asks for: the service by the service
/// token of the request or by the body, the permission as the body names it.
pub open spec fn access_plan(
    headers: Seq<(Seq<char>, Seq<char>)>,
    payload: Option<CheckAccessPayload>,
) -> OperationView {
    match payload {
        Some(body) => OperationView::CheckAccess {
            service_token: header_token(headers, "service-token"@),
            named_service: identifier_view(body.service_id),
            permission_name: text_of(body.permission_name),
        },
        None => OperationView::CheckAccess {
            service_token: header_token(headers, "service-token"@),
            named_service: None,
            permission_name: None,
        },
    }
}

/// The issue of a service token that a request asks for.
pub open spec fn service_token_plan(id: Option<Seq<char>>) -> OperationView {
    match path_number(id) {
        Some(service_id) => OperationView::IssueServiceToken { service_id },
        None => OperationView::Refused { code: ErrorCode::InvalidServiceId },
    }
}

impl Server {
    /// A service with empty tables and an empty log.
    pub fn new(config: TokenConfig, secret: &str) -> (server: Server)
        ensures
            server@.db.wf(),
            server@.db == DbState::empty(),
            server@.config == config,
            server@.secret == secret@,
            server@.log.len() == 0,
    {
        let server = Server { db: DB::new(), config, secret: secret.to_owned(), log: Vec::new() };
        assert(server.log.deep_view() =~= Seq::<Seq<char>>::empty());
        server
    }

    /// Puts one statement to the tables.
    pub fn store(&mut self, call: StoreCall) -> (answer: StoreAnswer)
        requires
            old(self)@.db.wf(),
        ensures
            final(self)@.db.wf(),
            (final(self)@.db, answer@) == old(self)@.db.apply(call@),
            final(self)@ == (ServerState { db: final(self)@.db, ..old(self)@ }),
    {
        self.db.apply(call)
    }

    /// The tables.
    pub fn tables(&self) -> (db: &DB)
        ensures
            db@ == self@.db,
    {
        &self.db
    }

    /// The configuration.
    pub fn settings(&self) -> (config: TokenConfig)
        ensures
            config == self@.config,
    {
        self.config
    }

    /// The lines that were logged, oldest first.
    pub fn log_lines(&self) -> (lines: &Vec<String>)
        ensures
            lines.deep_view() == self@.log,
    {
        &self.log
    }

    fn record(&mut self, outcome: Option<Outcome>, req: &Request, now: i64) -> (r: Response)
        ensures
            final(self)@ == (ServerState {
                log: log_after(
                    old(self)@.log,
                    option_outcome(outcome),
                    req.path@,
                    now,
                    req.headers.deep_view(),
                ),
                ..old(self)@
            }),
            r@ == answer_of(option_outcome(outcome)),
    {
        match outcome {
            Some(outcome) => {
                let ip = extract_ip(&req.headers);
                let line = log_access(
                    outcome.token.as_str(),
                    req.path.as_str(),
                    now,
                    ip.as_str(),
                    outcome.used_cache,
                    outcome.valid,
                );
                let ghost before = self.log.deep_view();
                let ghost added = line@;
                self.log.push(line);
                assert(self.log.deep_view() =~= before.push(added));
                outcome.response
            },
            None => error_response(ErrorCode::TokenValidationFailed),
        }
    }
}

/// An optional outcome as plain values.
pub open spec fn option_outcome(outcome: Option<Outcome>) -> Option<OutcomeView> {
    match outcome {
        Some(outcome) => Some(outcome@),
        None => None,
    }
}

/// Runs the exchange that `operation` asks for, with the given token value
/// and salt in hand for what the exchange may have to issue or to hash.
pub fn serve_with(
    server: &mut Server,
    req: &Request,
    operation: Operation,
    now: i64,
    fresh_token: String,
    salt: Vec<u8>,
) -> (r: Response)
    requires
        old(server)@.db.wf(),
        old(server)@.config.fits(now),
    ensures
        final(server)@.db.wf(),
        served(
            old(server)@,
            req.headers.deep_view(),
            req.path@,
            operation@,
            now,
            fresh_token@,
            salt@,
            final(server)@,
            r@,
        ),
{
    let user_token = extract_token(&req.headers, USER_TOKEN_HEADER);
    proof {
        lemma_exchange_always_answers(
            server@.db,
            text_of(user_token),
            operation@,
            now,
            server@.config,
            fresh_token@,
            salt@,
        );
    }
    let first = Exchange::begin(user_token, operation, now, server.config, fresh_token, salt);
    let outcome = drive(&mut server.db, first, EXCHANGE_FUEL);
    server.record(outcome, req, now)
}

/// Runs the exchange that `operation` asks for.
pub fn serve(server: &mut Server, req: &Request, operation: Operation, now: i64) -> (r: Response)
    requires
        old(server)@.db.wf(),
        old(server)@.config.fits(now),
    ensures
        final(server)@.db.wf(),
        handled(
            old(server)@,
            req.headers.deep_view(),
            req.path@,
            operation@,
            now,
            final(server)@,
            r@,
        ),
{
    let fresh_token = generate_token_value(server.secret.as_str(), now);
    let salt = fresh_salt();
    let ghost fresh = fresh_token@;
    let ghost salted = salt@;
    let r = serve_with(server, req, operation, now, fresh_token, salt);
    assert(served(
        old(server)@,
        req.headers.deep_view(),
        req.path@,
        operation@,
        now,
        fresh,
        salted,
        server@,
        r@,
    ));
    r
}

/// Runs a planned command, or refuses what could not be planned.
pub fn handle(server: &mut Server, req: &Request, plan: Result<Command, ErrorCode>, now: i64) -> (r:
    Response)
    requires
        old(server)@.db.wf(),
        old(server)@.config.fits(now),
    ensures
        final(server)@.db.wf(),
        handled(
            old(server)@,
            req.headers.deep_view(),
            req.path@,
            operation_of(plan_view(plan)),
            now,
            final(server)@,
            r@,
        ),
{
    let operation = match plan {
        Ok(command) => Operation::Admin { command },
        Err(code) => Operation::Refused { code },
    };
    serve(server, req, operation, now)
}

/// The page of welcome.
pub fn home(req: &Request) -> (r: Response)
    ensures
        r@ == ResponseView::success(BodyView::Home),
{
    ok_response(Body::Home)
}

/// Logs a person in, under the given token value.
pub fn login_with(
    server: &mut Server,
    req: &Request,
    payload: Option<LoginPayload>,
    now: i64,
    fresh_token: String,
) -> (r: Response)
    requires
        old(server)@.db.wf(),
        old(server)@.config.fits(now),
    ensures
        final(server)@.db.wf(),
        logged_in(
            old(server)@,
            req.headers.deep_view(),
            req.path@,
            credentials(payload),
            now,
            fresh_token@,
            final(server)@,
            r@,
        ),
{
    proof {
        lemma_login_always_answers(
            server@.db,
            credentials(payload),
            now,
            server@.config,
            fresh_token@,
        );
    }
    let first = LoginTask::begin(payload, now, server.config, fresh_token);
    let outcome = drive(&mut server.db, first, 4);
    server.record(outcome, req, now)
}

/// Logs a person in: with the right password they get a token, the one they
/// have where it is still alive, else a new one.
pub fn login(server: &mut Server, req: &Request, payload: Option<LoginPayload>, now: i64) -> (r:
    Response)
    requires
        old(server)@.db.wf(),
        old(server)@.config.fits(now),
    ensures
        final(server)@.db.wf(),
        exists|fresh_token: Seq<char>|
            fresh_token.len() == 64 && #[trigger] logged_in(
                old(server)@,
                req.headers.deep_view(),
                req.path@,
                credentials(payload),
                now,
                fresh_token,
                final(server)@,
                r@,
            ),
{
    let fresh_token = generate_token_value(server.secret.as_str(), now);
    let ghost fresh = fresh_token@;
    let r = login_with(server, req, payload, now, fresh_token);
    assert(logged_in(
        old(server)@,
        req.headers.deep_view(),
        req.path@,
        credentials(payload),
        now,
        fresh,
        server@,
        r@,
    ));
    r
}

/// Ends the session of the caller: their token is removed.
pub fn logout(server: &mut Server, req: &Request, now: i64) -> (r: Response)
    requires
        old(server)@.db.wf(),
        old(server)@.config.fits(now),
    ensures
        final(server)@.db.wf(),
        handled(
            old(server)@,
            req.headers.deep_view(),
            req.path@,
            OperationView::Logout,
            now,
            final(server)@,
            r@,
        ),
{
    serve(server, req, Operation::Logout, now)
}

/// Shows whom the caller's token stands for.
pub fn profile(server: &mut Server, req: &Request, now: i64) -> (r: Response)
    requires
        old(server)@.db.wf(),
        old(server)@.config.fits(now),
    ensures
        final(server)@.db.wf(),
        handled(
            old(server)@,
            req.headers.deep_view(),
            req.path@,
            OperationView::Profile,
            now,
            final(server)@,
            r@,
        ),
{
    serve(server, req, Operation::Profile, now)
}

/// Checks the caller's token.
pub fn check_token(server: &mut Server, req: &Request, now: i64) -> (r: Response)
    requires
        old(server)@.db.wf(),
        old(server)@.config.fits(now),
    ensures
        final(server)@.db.wf(),
        handled(
            old(server)@,
            req.headers.deep_view(),
            req.path@,
            OperationView::CheckToken,
            now,
            final(server)@,
            r@,
        ),
{
    serve(server, req, Operation::CheckToken, now)
}

/// Checks what the caller may do in a service, which the request names by a
/// service token or by its body, and by one of the two only.
pub fn check_permission(
    server: &mut Server,
    req: &Request,
    payload: Option<CheckAccessPayload>,
    now: i64,
) -> (r: Response)
    requires
        old(server)@.db.wf(),
        old(server)@.config.fits(now),
    ensures
        final(server)@.db.wf(),
        handled(
            old(server)@,
            req.headers.deep_view(),
            req.path@,
            access_plan(req.headers.deep_view(), payload),
            now,
            final(server)@,
            r@,
        ),
{
    let service_token = extract_token(&req.headers, SERVICE_TOKEN_HEADER);
    let operation = match payload {
        Some(body) => Operation::CheckAccess {
            service_token,
            named_service: body.service_id,
            permission_name: body.permission_name,
        },
        None => Operation::CheckAccess {
            service_token,
            named_service: None,
            permission_name: None,
        },
    };
    serve(server, req, operation, now)
}

/// Issues a token for the service that the path names.
pub fn issue_service_token(server: &mut Server, req: &Request, now: i64) -> (r: Response)
    requires
        old(server)@.db.wf(),
        old(server)@.config.fits(now),
    ensures
        final(server)@.db.wf(),
        handled(
            old(server)@,
            req.headers.deep_view(),
            req.path@,
            service_token_plan(first_param(req.params.deep_view(), "id"@)),
            now,
            final(server)@,
            r@,
        ),
{
    let operation = match path_id(param(req, "id")) {
        Some(service_id) => Operation::IssueServiceToken { service_id },
        None => Operation::Refused { code: ErrorCode::InvalidServiceId },
    };
    serve(server, req, operation, now)
}

/// Grants a person a permission in a service through a role of their own,
/// and drops what the cache holds for the person there.
pub fn grant_permission_to_person_in_service(
    server: &mut Server,
    req: &Request,
    payload: Option<PersonServicePermissionPayload>,
    now: i64,
) -> (r: Response)
    requires
        old(server)@.db.wf(),
        old(server)@.config.fits(now),
    ensures
        final(server)@.db.wf(),
        handled(
            old(server)@,
            req.headers.deep_view(),
            req.path@,
            grant_plan(payload),
            now,
            final(server)@,
            r@,
        ),
{
    let operation = match payload {
        None => Operation::Refused { code: ErrorCode::InvalidRequestBody },
        Some(body) => match (body.permission_id, body.permission_name) {
            (Some(identifier), _) => Operation::Grant {
                person: body.person_id,
                service: body.service_id,
                permission: identifier,
            },
            (None, Some(name)) => Operation::Grant {
                person: body.person_id,
                service: body.service_id,
                permission: FlexibleId::from_text(name.as_str()),
            },
            (None, None) => Operation::Refused { code: ErrorCode::InvalidRequestBody },
        },
    };
    serve(server, req, operation, now)
}

/// Asks whether a person holds a permission in a service; what is asked comes
/// from the body or, where that is missing, from the path.
pub fn check_person_permission_in_service(
    server: &mut Server,
    req: &Request,
    payload: Option<CheckPermissionPayload>,
    now: i64,
) -> (r: Response)
    requires
        old(server)@.db.wf(),
        old(server)@.config.fits(now),
    ensures
        final(server)@.db.wf(),
        exists|asked: Option<CheckPermissionPayload>|
            #![trigger check_person_permission_in_service_plan(asked)]
            (payload is Some ==> asked == payload) && handled(
                old(server)@,
                req.headers.deep_view(),
                req.path@,
                operation_of(check_person_permission_in_service_plan(asked)),
                now,
                final(server)@,
                r@,
            ),
{
    let asked = parse_check_permission_payload(
        payload,
        param(req, "person_id"),
        param(req, "service_id"),
        param(req, "permission_name"),
    );
    let ghost seen = asked;
    let plan = Command::check_person_permission_in_service(asked);
    let r = handle(server, req, plan, now);
    assert(handled(
        old(server)@,
        req.headers.deep_view(),
        req.path@,
        operation_of(check_person_permission_in_service_plan(seen)),
        now,
        server@,
        r@,
    ));
    r
}

/// Creates a person.
pub fn create_user(
    server: &mut Server,
    req: &Request,
    payload: Option<CreateUserPayload>,
    now: i64,
) -> (r: Response)
    requires
        old(server)@.db.wf(),
        old(server)@.config.fits(now),
    ensures
        final(server)@.db.wf(),
        handled(
            old(server)@,
            req.headers.deep_view(),
            req.path@,
            operation_of(create_user_plan(payload)),
            now,
            final(server)@,
            r@,
        ),
{
    let plan = Command::create_user(payload);
    handle(server, req, plan, now)
}

/// Lists the persons.
pub fn list_people(server: &mut Server, req: &Request, now: i64) -> (r: Response)
    requires
        old(server)@.db.wf(),
        old(server)@.config.fits(now),
    ensures
        final(server)@.db.wf(),
        handled(
            old(server)@,
            req.headers.deep_view(),
            req.path@,
            OperationView::Admin { command: CommandView::ListPeople },
            now,
            final(server)@,
            r@,
        ),
{
    handle(server, req, Ok(Command::ListPeople), now)
}

/// Reads a person.
pub fn get_user(server: &mut Server, req: &Request, now: i64) -> (r: Response)
    requires
        old(server)@.db.wf(),
        old(server)@.config.fits(now),
    ensures
        final(server)@.db.wf(),
        handled(
            old(server)@,
            req.headers.deep_view(),
            req.path@,
            operation_of(get_user_plan(first_param(req.params.deep_view(), "id"@))),
            now,
            final(server)@,
            r@,
        ),
{
    let plan = Command::get_user(param(req, "id"));
    handle(server, req, plan, now)
}

/// Changes a person.
pub fn update_user(
    server: &mut Server,
    req: &Request,
    payload: Option<UpdateUserPayload>,
    now: i64,
) -> (r: Response)
    requires
        old(server)@.db.wf(),
        old(server)@.config.fits(now),
    ensures
        final(server)@.db.wf(),
        handled(
            old(server)@,
            req.headers.deep_view(),
            req.path@,
            operation_of(update_user_plan(first_param(req.params.deep_view(), "id"@), payload)),
            now,
            final(server)@,
            r@,
        ),
{
    let plan = Command::update_user(param(req, "id"), payload);
    handle(server, req, plan, now)
}

/// Removes a person, drops what the cache holds for their tokens and revokes the tokens.
pub fn delete_user(server: &mut Server, req: &Request, now: i64) -> (r: Response)
    requires
        old(server)@.db.wf(),
        old(server)@.config.fits(now),
    ensures
        final(server)@.db.wf(),
        handled(
            old(server)@,
            req.headers.deep_view(),
            req.path@,
            operation_of(delete_user_plan(first_param(req.params.deep_view(), "id"@))),
            now,
            final(server)@,
            r@,
        ),
{
    let plan = Command::delete_user(param(req, "id"));
    handle(server, req, plan, now)
}

/// Creates a service.
pub fn create_service(
    server: &mut Server,
    req: &Request,
    payload: Option<CreateServicePayload>,
    now: i64,
) -> (r: Response)
    requires
        old(server)@.db.wf(),
        old(server)@.config.fits(now),
    ensures
        final(server)@.db.wf(),
        handled(
            old(server)@,
            req.headers.deep_view(),
            req.path@,
            operation_of(create_service_plan(payload)),
            now,
            final(server)@,
            r@,
        ),
{
    let plan = Command::create_service(payload);
    handle(server, req, plan, now)
}

/// Lists the services.
pub fn list_services(server: &mut Server, req: &Request, now: i64) -> (r: Response)
    requires
        old(server)@.db.wf(),
        old(server)@.config.fits(now),
    ensures
        final(server)@.db.wf(),
        handled(
            old(server)@,
            req.headers.deep_view(),
            req.path@,
            OperationView::Admin { command: CommandView::ListServices },
            now,
            final(server)@,
            r@,
        ),
{
    handle(server, req, Ok(Command::ListServices), now)
}

/// Changes a service.
pub fn update_service(
    server: &mut Server,
    req: &Request,
    payload: Option<UpdateServicePayload>,
    now: i64,
) -> (r: Response)
    requires
        old(server)@.db.wf(),
        old(server)@.config.fits(now),
    ensures
        final(server)@.db.wf(),
        handled(
            old(server)@,
            req.headers.deep_view(),
            req.path@,
            operation_of(update_service_plan(first_param(req.params.deep_view(), "id"@), payload)),
            now,
            final(server)@,
            r@,
        ),
{
    let plan = Command::update_service(param(req, "id"), payload);
    handle(server, req, plan, now)
}

/// Removes a service and drops what the cache holds for it.
pub fn delete_service(server: &mut Server, req: &Request, now: i64) -> (r: Response)
    requires
        old(server)@.db.wf(),
        old(server)@.config.fits(now),
    ensures
        final(server)@.db.wf(),
        handled(
            old(server)@,
            req.headers.deep_view(),
            req.path@,
            operation_of(delete_service_plan(first_param(req.params.deep_view(), "id"@))),
            now,
            final(server)@,
            r@,
        ),
{
    let plan = Command::delete_service(param(req, "id"));
    handle(server, req, plan, now)
}

/// Creates a role.
pub fn create_role(
    server: &mut Server,
    req: &Request,
    payload: Option<CreateRolePayload>,
    now: i64,
) -> (r: Response)
    requires
        old(server)@.db.wf(),
        old(server)@.config.fits(now),
    ensures
        final(server)@.db.wf(),
        handled(
            old(server)@,
            req.headers.deep_view(),
            req.path@,
            operation_of(create_role_plan(payload)),
            now,
            final(server)@,
            r@,
        ),
{
    let plan = Command::create_role(payload);
    handle(server, req, plan, now)
}

/// Lists the roles.
pub fn list_roles(server: &mut Server, req: &Request, now: i64) -> (r: Response)
    requires
        old(server)@.db.wf(),
        old(server)@.config.fits(now),
    ensures
        final(server)@.db.wf(),
        handled(
            old(server)@,
            req.headers.deep_view(),
            req.path@,
            OperationView::Admin { command: CommandView::ListRoles },
            now,
            final(server)@,
            r@,
        ),
{
    handle(server, req, Ok(Command::ListRoles), now)
}

/// Reads a role.
pub fn get_role(server: &mut Server, req: &Request, now: i64) -> (r: Response)
    requires
        old(server)@.db.wf(),
        old(server)@.config.fits(now),
    ensures
        final(server)@.db.wf(),
        handled(
            old(server)@,
            req.headers.deep_view(),
            req.path@,
            operation_of(get_role_plan(first_param(req.params.deep_view(), "id"@))),
            now,
            final(server)@,
            r@,
        ),
{
    let plan = Command::get_role(param(req, "id"));
    handle(server, req, plan, now)
}

/// Renames a role and empties the cache.
pub fn update_role(
    server: &mut Server,
    req: &Request,
    payload: Option<UpdateRolePayload>,
    now: i64,
) -> (r: Response)
    requires
        old(server)@.db.wf(),
        old(server)@.config.fits(now),
    ensures
        final(server)@.db.wf(),
        handled(
            old(server)@,
            req.headers.deep_view(),
            req.path@,
            operation_of(update_role_plan(first_param(req.params.deep_view(), "id"@), payload)),
            now,
            final(server)@,
            r@,
        ),
{
    let plan = Command::update_role(param(req, "id"), payload);
    handle(server, req, plan, now)
}

/// Removes a role and empties the cache.
pub fn delete_role(server: &mut Server, req: &Request, now: i64) -> (r: Response)
    requires
        old(server)@.db.wf(),
        old(server)@.config.fits(now),
    ensures
        final(server)@.db.wf(),
        handled(
            old(server)@,
            req.headers.deep_view(),
            req.path@,
            operation_of(delete_role_plan(first_param(req.params.deep_view(), "id"@))),
            now,
            final(server)@,
            r@,
        ),
{
    let plan = Command::delete_role(param(req, "id"));
    handle(server, req, plan, now)
}

/// Creates a permission.
pub fn create_permission(
    server: &mut Server,
    req: &Request,
    payload: Option<CreatePermissionPayload>,
    now: i64,
) -> (r: Response)
    requires
        old(server)@.db.wf(),
        old(server)@.config.fits(now),
    ensures
        final(server)@.db.wf(),
        handled(
            old(server)@,
            req.headers.deep_view(),
            req.path@,
            operation_of(create_permission_plan(payload)),
            now,
            final(server)@,
            r@,
        ),
{
    let plan = Command::create_permission(payload);
    handle(server, req, plan, now)
}

/// Lists the permissions.
pub fn list_permissions(server: &mut Server, req: &Request, now: i64) -> (r: Response)
    requires
        old(server)@.db.wf(),
        old(server)@.config.fits(now),
    ensures
        final(server)@.db.wf(),
        handled(
            old(server)@,
            req.headers.deep_view(),
            req.path@,
            OperationView::Admin { command: CommandView::ListPermissions },
            now,
            final(server)@,
            r@,
        ),
{
    handle(server, req, Ok(Command::ListPermissions), now)
}

/// Renames a permission and empties the cache.
pub fn update_permission(
    server: &mut Server,
    req: &Request,
    payload: Option<UpdatePermissionPayload>,
    now: i64,
) -> (r: Response)
    requires
        old(server)@.db.wf(),
        old(server)@.config.fits(now),
    ensures
        final(server)@.db.wf(),
        handled(
            old(server)@,
            req.headers.deep_view(),
            req.path@,
            operation_of(
                update_permission_plan(first_param(req.params.deep_view(), "id"@), payload),
            ),
            now,
            final(server)@,
            r@,
        ),
{
    let plan = Command::update_permission(param(req, "id"), payload);
    handle(server, req, plan, now)
}

/// Removes a permission and empties the cache.
pub fn delete_permission(server: &mut Server, req: &Request, now: i64) -> (r: Response)
    requires
        old(server)@.db.wf(),
        old(server)@.config.fits(now),
    ensures
        final(server)@.db.wf(),
        handled(
            old(server)@,
            req.headers.deep_view(),
            req.path@,
            operation_of(delete_permission_plan(first_param(req.params.deep_view(), "id"@))),
            now,
            final(server)@,
            r@,
        ),
{
    let plan = Command::delete_permission(param(req, "id"));
    handle(server, req, plan, now)
}

/// Lets a role confer a permission and empties the cache.
pub fn assign_permission_to_role(
    server: &mut Server,
    req: &Request,
    payload: Option<RolePermissionPayload>,
    now: i64,
) -> (r: Response)
    requires
        old(server)@.db.wf(),
        old(server)@.config.fits(now),
    ensures
        final(server)@.db.wf(),
        handled(
            old(server)@,
            req.headers.deep_view(),
            req.path@,
            operation_of(assign_permission_to_role_plan(payload)),
            now,
            final(server)@,
            r@,
        ),
{
    let plan = Command::assign_permission_to_role(payload);
    handle(server, req, plan, now)
}

/// Takes a permission from a role and empties the cache.
pub fn remove_permission_from_role(
    server: &mut Server,
    req: &Request,
    payload: Option<RolePermissionPayload>,
    now: i64,
) -> (r: Response)
    requires
        old(server)@.db.wf(),
        old(server)@.config.fits(now),
    ensures
        final(server)@.db.wf(),
        handled(
            old(server)@,
            req.headers.deep_view(),
            req.path@,
            operation_of(remove_permission_from_role_plan(payload)),
            now,
            final(server)@,
            r@,
        ),
{
    let plan = Command::remove_permission_from_role(payload);
    handle(server, req, plan, now)
}

/// Lists the permissions of a role.
pub fn list_role_permissions(server: &mut Server, req: &Request, now: i64) -> (r: Response)
    requires
        old(server)@.db.wf(),
        old(server)@.config.fits(now),
    ensures
        final(server)@.db.wf(),
        handled(
            old(server)@,
            req.headers.deep_view(),
            req.path@,
            operation_of(list_role_permissions_plan(first_param(req.params.deep_view(), "id"@))),
            now,
            final(server)@,
            r@,
        ),
{
    let plan = Command::list_role_permissions(param(req, "id"));
    handle(server, req, plan, now)
}

/// Makes a role visible in a service and drops what the cache holds for the service.
pub fn assign_role_to_service(
    server: &mut Server,
    req: &Request,
    payload: Option<ServiceRolePayload>,
    now: i64,
) -> (r: Response)
    requires
        old(server)@.db.wf(),
        old(server)@.config.fits(now),
    ensures
        final(server)@.db.wf(),
        handled(
            old(server)@,
            req.headers.deep_view(),
            req.path@,
            operation_of(assign_role_to_service_plan(payload)),
            now,
            final(server)@,
            r@,
        ),
{
    let plan = Command::assign_role_to_service(payload);
    handle(server, req, plan, now)
}

/// Takes a role out of a service and drops what the cache holds for the service.
pub fn remove_role_from_service(
    server: &mut Server,
    req: &Request,
    payload: Option<ServiceRolePayload>,
    now: i64,
) -> (r: Response)
    requires
        old(server)@.db.wf(),
        old(server)@.config.fits(now),
    ensures
        final(server)@.db.wf(),
        handled(
            old(server)@,
            req.headers.deep_view(),
            req.path@,
            operation_of(remove_role_from_service_plan(payload)),
            now,
            final(server)@,
            r@,
        ),
{
    let plan = Command::remove_role_from_service(payload);
    handle(server, req, plan, now)
}

/// Lists the roles of a service.
pub fn list_service_roles(server: &mut Server, req: &Request, now: i64) -> (r: Response)
    requires
        old(server)@.db.wf(),
        old(server)@.config.fits(now),
    ensures
        final(server)@.db.wf(),
        handled(
            old(server)@,
            req.headers.deep_view(),
            req.path@,
            operation_of(list_service_roles_plan(first_param(req.params.deep_view(), "id"@))),
            now,
            final(server)@,
            r@,
        ),
{
    let plan = Command::list_service_roles(param(req, "id"));
    handle(server, req, plan, now)
}

/// Gives a person a role in a service and drops what the cache holds for the person there.
pub fn assign_role_to_person_in_service(
    server: &mut Server,
    req: &Request,
    payload: Option<PersonServiceRolePayload>,
    now: i64,
) -> (r: Response)
    requires
        old(server)@.db.wf(),
        old(server)@.config.fits(now),
    ensures
        final(server)@.db.wf(),
        handled(
            old(server)@,
            req.headers.deep_view(),
            req.path@,
            operation_of(assign_role_to_person_in_service_plan(payload)),
            now,
            final(server)@,
            r@,
        ),
{
    let plan = Command::assign_role_to_person_in_service(payload);
    handle(server, req, plan, now)
}

/// Takes a role in a service from a person and drops what the cache holds for the person there.
pub fn remove_role_from_person_in_service(
    server: &mut Server,
    req: &Request,
    payload: Option<PersonServiceRolePayload>,
    now: i64,
) -> (r: Response)
    requires
        old(server)@.db.wf(),
        old(server)@.config.fits(now),
    ensures
        final(server)@.db.wf(),
        handled(
            old(server)@,
            req.headers.deep_view(),
            req.path@,
            operation_of(remove_role_from_person_in_service_plan(payload)),
            now,
            final(server)@,
            r@,
        ),
{
    let plan = Command::remove_role_from_person_in_service(payload);
    handle(server, req, plan, now)
}

/// Lists the roles of a person in a service.
pub fn list_person_roles_in_service(server: &mut Server, req: &Request, now: i64) -> (r: Response)
    requires
        old(server)@.db.wf(),
        old(server)@.config.fits(now),
    ensures
        final(server)@.db.wf(),
        handled(
            old(server)@,
            req.headers.deep_view(),
            req.path@,
            operation_of(
                list_person_roles_in_service_plan(
                    first_param(req.params.deep_view(), "person_id"@),
                    first_param(req.params.deep_view(), "service_id"@),
                ),
            ),
            now,
            final(server)@,
            r@,
        ),
{
    let plan = Command::list_person_roles_in_service(
        param(req, "person_id"),
        param(req, "service_id"),
    );
    handle(server, req, plan, now)
}

/// Lists the persons that have a role in a service.
pub fn list_persons_with_role_in_service(
    server: &mut Server,
    req: &Request,
    now: i64,
) -> (r: Response)
    requires
        old(server)@.db.wf(),
        old(server)@.config.fits(now),
    ensures
        final(server)@.db.wf(),
        handled(
            old(server)@,
            req.headers.deep_view(),
            req.path@,
            operation_of(
                list_persons_with_role_in_service_plan(
                    first_param(req.params.deep_view(), "service_id"@),
                    first_param(req.params.deep_view(), "role_id"@),
                ),
            ),
            now,
            final(server)@,
            r@,
        ),
{
    let plan = Command::list_persons_with_role_in_service(
        param(req, "service_id"),
        param(req, "role_id"),
    );
    handle(server, req, plan, now)
}

/// Lists the services in which a person has a role.
pub fn list_services_of_person(server: &mut Server, req: &Request, now: i64) -> (r: Response)
    requires
        old(server)@.db.wf(),
        old(server)@.config.fits(now),
    ensures
        final(server)@.db.wf(),
        handled(
            old(server)@,
            req.headers.deep_view(),
            req.path@,
            operation_of(
                list_services_of_person_plan(first_param(req.params.deep_view(), "person_id"@)),
            ),
            now,
            final(server)@,
            r@,
        ),
{
    let plan = Command::list_services_of_person(param(req, "person_id"));
    handle(server, req, plan, now)
}

} // verus!
