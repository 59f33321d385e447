//! What holds of a login.

use crate::exchange::OutcomeView;
use crate::http::{BodyView, ErrorCode, ResponseView};
use crate::login::{LoginState, LoginTask};
use crate::password::accepts;
use crate::protocol::run;
use crate::store::{lemma_newest_live, newest_live, DbState};
use crate::token::{PayloadView, TokenConfig, TokenRow};
use vstd::prelude::*;

verus! {

/// A login with the right password by a person who has a token that is still
/// alive hands out that token, the newest of theirs, and leaves the tables as
/// they are: the person's tokens do not grow in number.
pub proof fn lemma_login_reuses_live_token(
    db: DbState,
    username: Seq<char>,
    password: Seq<char>,
    now: i64,
    config: TokenConfig,
    fresh_token: Seq<char>,
)
    requires
        db.wf(),
        db.catalog.find_auth_user(username) matches Some(user) && accepts(
            password,
            user.password_hash,
        ) && newest_live(db.tokens, user.id, now) is Some,
    ensures
        ({
            let user = db.catalog.find_auth_user(username).unwrap();
            let row = newest_live(db.tokens, user.id, now).unwrap();
            let ended = run::<LoginTask>(
                db,
                LoginState::begin(Some((username, password)), now, config, fresh_token),
                4,
            );
            &&& ended.0 == db
            &&& ended.1 == Some(
                OutcomeView {
                    response: ResponseView::success(
                        BodyView::Login {
                            token: row.token,
                            expires_at: row.expires_at,
                            payload: PayloadView::User {
                                user_id: user.id,
                                username: user.username,
                                name: user.name,
                            },
                        },
                    ),
                    token: row.token,
                    valid: true,
                    used_cache: None,
                },
            )
            &&& db.is_live_token_of(row, user.id, now)
        }),
{
    reveal_with_fuel(run, 4);
    let user = db.catalog.find_auth_user(username).unwrap();
    lemma_newest_live(db, user.id, now);
}

/// A login with the right password by a person who has no live token issues
/// one: a row with the fresh value that stands for the person and expires one
/// user lifetime from now.
pub proof fn lemma_login_issues_a_token(
    db: DbState,
    username: Seq<char>,
    password: Seq<char>,
    now: i64,
    config: TokenConfig,
    fresh_token: Seq<char>,
)
    requires
        db.wf(),
        db.catalog.find_auth_user(username) matches Some(user) && accepts(
            password,
            user.password_hash,
        ) && newest_live(db.tokens, user.id, now) is None,
        db.find_token(fresh_token) is None,
    ensures
        ({
            let user = db.catalog.find_auth_user(username).unwrap();
            let row = TokenRow {
                token: fresh_token,
                payload: PayloadView::User {
                    user_id: user.id,
                    username: user.username,
                    name: user.name,
                },
                expires_at: (now + config.ttl_seconds) as i64,
            };
            let ended = run::<LoginTask>(
                db,
                LoginState::begin(Some((username, password)), now, config, fresh_token),
                4,
            );
            &&& ended.0 == db.insert_token(row)
            &&& ended.1 == Some(
                OutcomeView {
                    response: ResponseView::success(
                        BodyView::Login {
                            token: fresh_token,
                            expires_at: row.expires_at,
                            payload: row.payload,
                        },
                    ),
                    token: fresh_token,
                    valid: true,
                    used_cache: None,
                },
            )
        }),
{
    reveal_with_fuel(run, 4);
}

/// A login with a password that the stored digest does not accept, or with a
/// user name that no person has who is not removed, is refused and changes
/// nothing.
pub proof fn lemma_login_refuses_wrong_credentials(
    db: DbState,
    username: Seq<char>,
    password: Seq<char>,
    now: i64,
    config: TokenConfig,
    fresh_token: Seq<char>,
)
    requires
        db.wf(),
        match db.catalog.find_auth_user(username) {
            Some(user) => !accepts(password, user.password_hash),
            None => true,
        },
    ensures
        ({
            let ended = run::<LoginTask>(
                db,
                LoginState::begin(Some((username, password)), now, config, fresh_token),
                4,
            );
            &&& ended.0 == db
            &&& ended.1 matches Some(outcome) && outcome.response == ResponseView::failure(
                ErrorCode::InvalidCredentials,
            )
        }),
{
    reveal_with_fuel(run, 4);
}

} // verus!
