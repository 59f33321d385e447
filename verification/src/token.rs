//! Tokens, their configuration and the arithmetic of expiry and renewal.

use crate::text::{option_text, parse_i64, parse_i64_spec};
use vstd::prelude::*;

verus! {

/// What a token stands for: a person who logged in, or a service.
pub enum TokenPayload {
    User { user_id: i32, username: String, name: String },
    Service { service_id: i32, service_name: String },
}

/// A payload as plain values.
pub enum PayloadView {
    User { user_id: i32, username: Seq<char>, name: Seq<char> },
    Service { service_id: i32, service_name: Seq<char> },
}

impl PayloadView {
    /// The person a user token was issued to.
    pub open spec fn user_id(self) -> Option<i32> {
        match self {
            PayloadView::User { user_id, .. } => Some(user_id),
            PayloadView::Service { .. } => None,
        }
    }

    /// The service a service token was issued to.
    pub open spec fn service_id(self) -> Option<i32> {
        match self {
            PayloadView::User { .. } => None,
            PayloadView::Service { service_id, .. } => Some(service_id),
        }
    }
}

impl View for TokenPayload {
    type V = PayloadView;

    open spec fn view(&self) -> PayloadView {
        match *self {
            TokenPayload::User { user_id, username, name } => PayloadView::User {
                user_id,
                username: username@,
                name: name@,
            },
            TokenPayload::Service { service_id, service_name } => PayloadView::Service {
                service_id,
                service_name: service_name@,
            },
        }
    }
}

impl DeepView for TokenPayload {
    type V = PayloadView;

    open spec fn deep_view(&self) -> PayloadView {
        self@
    }
}

impl TokenPayload {
    /// The person this token was issued to, if it is a user token.
    pub fn user_id(&self) -> (r: Option<i32>)
        ensures
            r == self@.user_id(),
    {
        match self {
            TokenPayload::User { user_id, .. } => Some(*user_id),
            TokenPayload::Service { .. } => None,
        }
    }

    /// The service this token was issued to, if it is a service token.
    pub fn service_id(&self) -> (r: Option<i32>)
        ensures
            r == self@.service_id(),
    {
        match self {
            TokenPayload::User { .. } => None,
            TokenPayload::Service { service_id, .. } => Some(*service_id),
        }
    }
}

impl Clone for TokenPayload {
    fn clone(&self) -> (r: Self)
        ensures
            r@ == self@,
    {
        match self {
            TokenPayload::User { user_id, username, name } => TokenPayload::User {
                user_id: *user_id,
                username: username.clone(),
                name: name.clone(),
            },
            TokenPayload::Service { service_id, service_name } => TokenPayload::Service {
                service_id: *service_id,
                service_name: service_name.clone(),
            },
        }
    }
}

/// One row of the token table.
pub struct TokenRecord {
    pub token: String,
    pub payload: TokenPayload,
    pub expires_at: i64,
}

/// A row of the token table as plain values.
pub struct TokenRow {
    pub token: Seq<char>,
    pub payload: PayloadView,
    pub expires_at: i64,
}

impl View for TokenRecord {
    type V = TokenRow;

    open spec fn view(&self) -> TokenRow {
        TokenRow { token: self.token@, payload: self.payload@, expires_at: self.expires_at }
    }
}

impl DeepView for TokenRecord {
    type V = TokenRow;

    open spec fn deep_view(&self) -> TokenRow {
        self@
    }
}

impl Clone for TokenRecord {
    fn clone(&self) -> (r: Self)
        ensures
            r@ == self@,
    {
        TokenRecord {
            token: self.token.clone(),
            payload: self.payload.clone(),
            expires_at: self.expires_at,
        }
    }
}

/// Lifetimes of tokens, in seconds.
#[derive(Clone, Copy, Debug)]
pub struct TokenConfig {
    pub ttl_seconds: i64,
    pub renew_threshold_seconds: i64,
    pub service_ttl_seconds: i64,
}

pub const DEFAULT_USER_TTL_SECONDS: i64 = 300;

pub const DEFAULT_SERVICE_TTL_SECONDS: i64 = 604800;

pub const DEFAULT_RENEW_THRESHOLD_SECONDS: i64 = 30;

/// The number of seconds that a setting gives: what it holds when it is a
/// decimal integer of 64 bits, else the fallback.
pub open spec fn seconds_setting(value: Option<Seq<char>>, fallback: i64) -> i64 {
    match value {
        Some(text) => match parse_i64_spec(text) {
            Some(v) => v,
            None => fallback,
        },
        None => fallback,
    }
}

impl TokenConfig {
    /// Reads one setting, falling back where it is absent or no integer.
    pub fn load_env_seconds(value: Option<&str>, fallback: i64) -> (r: i64)
        ensures
            r == seconds_setting(option_text(value), fallback),
    {
        match value {
            Some(text) => match parse_i64(text) {
                Some(v) => v,
                None => fallback,
            },
            None => fallback,
        }
    }

    /// The configuration that the three settings give. Each argument is the
    /// text of one setting, absent where it is not set: the lifetime of a user
    /// token, the renewal threshold, the lifetime of a service token.
    pub fn load(
        user_ttl: Option<&str>,
        renew_threshold: Option<&str>,
        service_ttl: Option<&str>,
    ) -> (config: TokenConfig)
        ensures
            config.ttl_seconds == seconds_setting(option_text(user_ttl), 300),
            config.renew_threshold_seconds == seconds_setting(option_text(renew_threshold), 30),
            config.service_ttl_seconds == seconds_setting(option_text(service_ttl), 604800),
    {
        TokenConfig {
            ttl_seconds: Self::load_env_seconds(user_ttl, DEFAULT_USER_TTL_SECONDS),
            renew_threshold_seconds: Self::load_env_seconds(
                renew_threshold,
                DEFAULT_RENEW_THRESHOLD_SECONDS,
            ),
            service_ttl_seconds: Self::load_env_seconds(service_ttl, DEFAULT_SERVICE_TTL_SECONDS),
        }
    }

    /// Both lifetimes can be added to `now` within 64 bits.
    pub open spec fn fits(self, now: i64) -> bool {
        &&& i64::MIN <= now + self.ttl_seconds <= i64::MAX
        &&& i64::MIN <= now + self.service_ttl_seconds <= i64::MAX
    }

    /// Tells whether both lifetimes can be added to `now` within 64 bits.
    pub fn check_fits(&self, now: i64) -> (r: bool)
        ensures
            r == self.fits(now),
    {
        now.checked_add(self.ttl_seconds).is_some() && now.checked_add(
            self.service_ttl_seconds,
        ).is_some()
    }

    /// A token is renewed when renewal is enabled and it has no more than the
    /// threshold left to live.
    pub open spec fn renewal_due(self, expires_at: i64, now: i64) -> bool {
        self.renew_threshold_seconds > 0 && expires_at - now <= self.renew_threshold_seconds
    }

    /// Tells whether a token that expires at `expires_at` is due for renewal at `now`.
    pub fn should_renew(&self, expires_at: i64, now: i64) -> (r: bool)
        ensures
            r == self.renewal_due(expires_at, now),
    {
        if self.renew_threshold_seconds <= 0 {
            return false;
        }
        let left: i128 = expires_at as i128 - now as i128;
        left <= self.renew_threshold_seconds as i128
    }

    /// When a user token issued or renewed at `now` expires.
    pub fn compute_expires_at(&self, now: i64) -> (r: i64)
        requires
            i64::MIN <= now + self.ttl_seconds <= i64::MAX,
        ensures
            r == now + self.ttl_seconds,
    {
        now + self.ttl_seconds
    }

    /// When a service token issued at `now` expires.
    pub fn compute_service_expires_at(&self, now: i64) -> (r: i64)
        requires
            i64::MIN <= now + self.service_ttl_seconds <= i64::MAX,
        ensures
            r == now + self.service_ttl_seconds,
    {
        now + self.service_ttl_seconds
    }
}

/// A token is expired from the second it was to expire at.
pub open spec fn expired(expires_at: i64, now: i64) -> bool {
    now >= expires_at
}

/// Tells whether a token that expires at `expires_at` is expired at `now`.
pub fn has_expired(expires_at: i64, now: i64) -> (r: bool)
    ensures
        r == expired(expires_at, now),
{
    now >= expires_at
}

/// A count of seconds as a signed number of 64 bits, wrapping round as a
/// two's-complement conversion does.
pub open spec fn epoch_of(secs: u64) -> i64 {
    if secs <= 0x7fff_ffff_ffff_ffff {
        secs as i64
    } else {
        (secs - 0x1_0000_0000_0000_0000) as i64
    }
}

/// The time in seconds since the epoch, from what the clock gave: the seconds
/// elapsed since the epoch, or nothing where the clock stands before it.
pub fn current_epoch(since_epoch: Option<u64>) -> (now: i64)
    ensures
        now == match since_epoch {
            Some(secs) => epoch_of(secs),
            None => 0,
        },
{
    match since_epoch {
        Some(secs) => if secs <= 0x7fff_ffff_ffff_ffff {
            secs as i64
        } else {
            (secs as i128 - 0x1_0000_0000_0000_0000) as i64
        },
        None => 0,
    }
}

/// Why a token was not accepted, or an operation on tokens failed.
#[derive(Clone, Copy, Debug, PartialEq, Eq, Structural)]
pub enum TokenError {
    NotFound,
    Expired,
    Database,
}

/// A token just issued.
pub struct TokenIssue {
    pub token: String,
    pub expires_at: i64,
}

/// A token that was accepted.
pub struct TokenValidation {
    pub record: TokenRecord,
    pub renewed: bool,
    pub expires_at: i64,
}

/// An accepted token as plain values.
pub struct ValidationView {
    pub record: TokenRow,
    pub renewed: bool,
    pub expires_at: i64,
}

impl View for TokenValidation {
    type V = ValidationView;

    open spec fn view(&self) -> ValidationView {
        ValidationView { record: self.record@, renewed: self.renewed, expires_at: self.expires_at }
    }
}

/// The outcome of a validation as plain values.
pub open spec fn outcome_view(
    outcome: Result<TokenValidation, TokenError>,
) -> Result<ValidationView, TokenError> {
    match outcome {
        Ok(validation) => Ok(validation@),
        Err(error) => Err(error),
    }
}

} // verus!
