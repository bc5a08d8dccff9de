//! OAuth device-flow login against the Cohub identity provider: the requests
//! it sends, how it reads the answers, and when a stored token is still good.
use vstd::prelude::*;
use crate::errors::{AuthError, AuthErrorView};

verus! {

/// The identity provider.
pub const ISSUER: &'static str = "https://auth.neta.art";

/// The client id of the desktop application.
pub const CLIENT_ID: &'static str = "f8d26cdlwx85b0e5l3om2";

/// The API the tokens are for.
pub const RESOURCE: &'static str = "https://api.talesofai";

/// The scopes asked for.
pub const SCOPE: &'static str = "openid profile email offline_access";

/// A token is refreshed when it has no more than this left (five minutes).
pub const SKEW_MS: u64 = 300000;

/// A device code, as the login shows and polls it.
pub struct DeviceCode {
    pub device_code: String,
    pub user_code: String,
    pub verification_uri: String,
    pub verification_uri_complete: String,
    pub expires_in: u64,
    pub interval: u64,
}

/// The answer of the device authorization endpoint, as sent.
pub struct RawDeviceCode {
    pub device_code: String,
    pub user_code: String,
    pub verification_uri: String,
    pub verification_uri_complete: Option<String>,
    pub expires_in: u64,
    pub interval: Option<u64>,
}

/// A login session, as stored on disk.
pub struct Session {
    pub access_token: String,
    pub refresh_token: Option<String>,
    pub id_token: Option<String>,
    pub expires_at_ms: u64,
}

/// The answer of the token endpoint when it grants a token.
pub struct TokenResponse {
    pub access_token: String,
    pub refresh_token: Option<String>,
    pub id_token: Option<String>,
    pub expires_in: u64,
}

/// The Rust `Debug` text of a string (quoted and escaped, as `format!("{:?}", s)` writes it).
pub uninterp spec fn debug_text(s: Seq<char>) -> Seq<char>;

/// `format!("{:?}", s)` for a string.
/// Claimed: the result is a function of the text alone, named `debug_text`.
#[verifier::external_body]
fn debug_str(s: &str) -> (r: String)
    ensures
        r@ == debug_text(s@),
{
    format!("{:?}", s)
}

#[verifier::external_type_specification]
#[verifier::external_body]
pub struct ExSystemTime(std::time::SystemTime);

/// `SystemTime::now()`: the time of the system clock; nothing is claimed of it.
#[verifier::external_body]
fn system_now() -> std::time::SystemTime {
    std::time::SystemTime::now()
}

/// `t.duration_since(UNIX_EPOCH)` in milliseconds (`Duration::as_millis`,
/// cut to 64 bits); `None` where std reports `t` to lie before the epoch.
/// Nothing is claimed of the value: it depends on the clock.
#[verifier::external_body]
fn millis_since_epoch(t: std::time::SystemTime) -> Option<u64> {
    match t.duration_since(std::time::UNIX_EPOCH) {
        Ok(d) => Some(d.as_millis() as u64),
        Err(_) => None,
    }
}

/// The time a clock reading gives, in milliseconds since the epoch: the
/// reading itself, or zero for a clock that reads before the epoch.
pub fn clock_millis(reading: Option<u64>) -> (r: u64)
    ensures
        r == match reading {
            Some(ms) => ms,
            None => 0,
        },
{
    match reading {
        Some(ms) => ms,
        None => 0,
    }
}

/// Milliseconds since the Unix epoch, by the system clock (see `clock_millis`).
pub fn now_ms() -> u64 {
    clock_millis(millis_since_epoch(system_now()))
}

/// The URL of the device authorization endpoint.
pub fn device_auth_url() -> (r: String)
    ensures
        r@ == ISSUER@ + "/oidc/device/auth"@,
{
    let mut r = String::from_str(ISSUER);
    r.append("/oidc/device/auth");
    r
}

/// The URL of the token endpoint.
pub fn token_url() -> (r: String)
    ensures
        r@ == ISSUER@ + "/oidc/token"@,
{
    let mut r = String::from_str(ISSUER);
    r.append("/oidc/token");
    r
}

/// A form field, as a value.
pub open spec fn field(name: Seq<char>, value: Seq<char>) -> (Seq<char>, Seq<char>) {
    (name, value)
}

/// The fields of a form, as values.
pub open spec fn form_view(form: Seq<(String, String)>) -> Seq<(Seq<char>, Seq<char>)> {
    form.map_values(|p: (String, String)| (p.0@, p.1@))
}

fn pair(name: &str, value: &str) -> (r: (String, String))
    ensures
        r.0@ == name@,
        r.1@ == value@,
{
    (String::from_str(name), String::from_str(value))
}

/// The form that asks for a device code.
pub fn device_code_form() -> (r: Vec<(String, String)>)
    ensures
        form_view(r@) == seq![
            field("client_id"@, CLIENT_ID@),
            field("scope"@, SCOPE@),
            field("resource"@, RESOURCE@),
        ],
{
    let r = vec![pair("client_id", CLIENT_ID), pair("scope", SCOPE), pair("resource", RESOURCE)];
    assert(form_view(r@) =~= seq![
        field("client_id"@, CLIENT_ID@),
        field("scope"@, SCOPE@),
        field("resource"@, RESOURCE@),
    ]);
    r
}

/// The form that polls for the token of a device code.
pub fn device_token_form(device_code: &str) -> (r: Vec<(String, String)>)
    ensures
        form_view(r@) == seq![
            field("client_id"@, CLIENT_ID@),
            field("grant_type"@, "urn:ietf:params:oauth:grant-type:device_code"@),
            field("device_code"@, device_code@),
            field("resource"@, RESOURCE@),
        ],
{
    let r = vec![
        pair("client_id", CLIENT_ID),
        pair("grant_type", "urn:ietf:params:oauth:grant-type:device_code"),
        pair("device_code", device_code),
        pair("resource", RESOURCE),
    ];
    assert(form_view(r@) =~= seq![
        field("client_id"@, CLIENT_ID@),
        field("grant_type"@, "urn:ietf:params:oauth:grant-type:device_code"@),
        field("device_code"@, device_code@),
        field("resource"@, RESOURCE@),
    ]);
    r
}

/// The form that refreshes a token.
pub fn refresh_form(refresh_token: &str) -> (r: Vec<(String, String)>)
    ensures
        form_view(r@) == seq![
            field("client_id"@, CLIENT_ID@),
            field("grant_type"@, "refresh_token"@),
            field("refresh_token"@, refresh_token@),
            field("scope"@, SCOPE@),
            field("resource"@, RESOURCE@),
        ],
{
    let r = vec![
        pair("client_id", CLIENT_ID),
        pair("grant_type", "refresh_token"),
        pair("refresh_token", refresh_token),
        pair("scope", SCOPE),
        pair("resource", RESOURCE),
    ];
    assert(form_view(r@) =~= seq![
        field("client_id"@, CLIENT_ID@),
        field("grant_type"@, "refresh_token"@),
        field("refresh_token"@, refresh_token@),
        field("scope"@, SCOPE@),
        field("resource"@, RESOURCE@),
    ]);
    r
}

/// The error for a refused device code request, with the HTTP status line and body.
pub fn device_code_failure(status: &str, body: &str) -> (r: AuthError)
    ensures
        r@ == AuthErrorView::DeviceAuth(
            "device code request failed: HTTP "@ + status@ + " "@ + body@,
        ),
{
    let mut m = String::from_str("device code request failed: HTTP ");
    m.append(status);
    m.append(" ");
    m.append(body);
    AuthError::DeviceAuth(m)
}

/// The error for a refused refresh.
pub fn refresh_failure() -> (r: AuthError)
    ensures
        r@ == AuthErrorView::DeviceAuth("refresh failed"@),
{
    AuthError::DeviceAuth(String::from_str("refresh failed"))
}

/// The device code of an answer: without a complete verification URI the
/// plain one stands in; without an interval, five seconds.
pub fn device_code_from_response(raw: RawDeviceCode) -> (r: DeviceCode)
    ensures
        r.device_code == raw.device_code,
        r.user_code == raw.user_code,
        r.verification_uri == raw.verification_uri,
        r.verification_uri_complete@ == match raw.verification_uri_complete {
            Some(u) => u@,
            None => raw.verification_uri@,
        },
        r.expires_in == raw.expires_in,
        r.interval == match raw.interval {
            Some(i) => i,
            None => 5,
        },
{
    let verification_uri_complete = match raw.verification_uri_complete {
        Some(u) => u,
        None => raw.verification_uri.clone(),
    };
    DeviceCode {
        device_code: raw.device_code,
        user_code: raw.user_code,
        verification_uri: raw.verification_uri,
        verification_uri_complete,
        expires_in: raw.expires_in,
        interval: match raw.interval {
            Some(i) => i,
            None => 5,
        },
    }
}

/// The session a granted token opens at time `now_ms` (milliseconds).
pub fn session_from_token(token: TokenResponse, now_ms: u64) -> (r: Session)
    requires
        now_ms + token.expires_in * 1000 <= u64::MAX,
    ensures
        r.access_token == token.access_token,
        r.refresh_token == token.refresh_token,
        r.id_token == token.id_token,
        r.expires_at_ms == now_ms + token.expires_in * 1000,
{
    Session {
        access_token: token.access_token,
        refresh_token: token.refresh_token,
        id_token: token.id_token,
        expires_at_ms: now_ms + token.expires_in * 1000,
    }
}

/// The session after a refresh: a refresh or id token the answer leaves out
/// is kept from the current session.
pub fn refreshed_session(current: Session, token: TokenResponse, now_ms: u64) -> (r: Session)
    requires
        now_ms + token.expires_in * 1000 <= u64::MAX,
    ensures
        r.access_token == token.access_token,
        r.refresh_token == (if token.refresh_token is Some {
            token.refresh_token
        } else {
            current.refresh_token
        }),
        r.id_token == (if token.id_token is Some {
            token.id_token
        } else {
            current.id_token
        }),
        r.expires_at_ms == now_ms + token.expires_in * 1000,
{
    Session {
        access_token: token.access_token,
        refresh_token: match token.refresh_token {
            Some(t) => Some(t),
            None => current.refresh_token,
        },
        id_token: match token.id_token {
            Some(t) => Some(t),
            None => current.id_token,
        },
        expires_at_ms: now_ms + token.expires_in * 1000,
    }
}

/// The refresh token of the stored session; without a session, or without a
/// refresh token in it, the login is gone.
pub fn refresh_credential(current: &Option<Session>) -> (r: Result<String, AuthError>)
    ensures
        match current {
            Some(s) => match s.refresh_token {
                Some(t) => r == Ok::<String, AuthError>(t),
                None => r matches Err(e) && e@ == AuthErrorView::NotAuthenticated,
            },
            None => r matches Err(e) && e@ == AuthErrorView::NotAuthenticated,
        },
{
    match current {
        Some(s) => match &s.refresh_token {
            Some(t) => Ok(t.clone()),
            None => Err(AuthError::NotAuthenticated),
        },
        None => Err(AuthError::NotAuthenticated),
    }
}

/// Whether a token that expires at `expires_at_ms` is still good at `now_ms`:
/// it must have more than five minutes left.
pub fn token_is_fresh(expires_at_ms: u64, now_ms: u64) -> (r: bool)
    requires
        now_ms + SKEW_MS <= u64::MAX,
    ensures
        r == (expires_at_ms > now_ms + SKEW_MS),
{
    expires_at_ms > now_ms + SKEW_MS
}

/// What to do for an access token.
pub enum TokenPlan {
    /// The stored token is good: use it.
    Use(String),
    /// The stored token is about to expire: refresh it.
    Refresh,
}

/// Chooses between the stored access token and a refresh; without a stored
/// session, the login is gone.
pub fn plan_access_token(session: Option<Session>, now_ms: u64) -> (r: Result<TokenPlan, AuthError>)
    requires
        now_ms + SKEW_MS <= u64::MAX,
    ensures
        match session {
            None => r matches Err(e) && e@ == AuthErrorView::NotAuthenticated,
            Some(s) => if s.expires_at_ms > now_ms + SKEW_MS {
                r matches Ok(TokenPlan::Use(t)) && t == s.access_token
            } else {
                r matches Ok(TokenPlan::Refresh)
            },
        },
{
    match session {
        None => Err(AuthError::NotAuthenticated),
        Some(s) => if token_is_fresh(s.expires_at_ms, now_ms) {
            Ok(TokenPlan::Use(s.access_token))
        } else {
            Ok(TokenPlan::Refresh)
        },
    }
}

/// The message of a poll refused for a reason other than waiting.
pub open spec fn poll_failure_text(error: Option<Seq<char>>) -> Seq<char> {
    match error {
        Some(e) => "token poll failed: Some("@ + debug_text(e) + ")"@,
        None => "token poll failed: None"@,
    }
}

/// Polling for the token of a device code, until the code expires.
pub struct DevicePoll {
    /// When the device code expires (milliseconds since the epoch).
    pub deadline_ms: u64,
    /// Seconds to wait before each attempt.
    pub interval_secs: u64,
}

impl DevicePoll {
    /// Starts polling at `now_ms`: the code expires `expires_in` seconds later.
    pub fn start(device: &DeviceCode, now_ms: u64) -> (r: DevicePoll)
        requires
            now_ms + device.expires_in * 1000 <= u64::MAX,
        ensures
            r.deadline_ms == now_ms + device.expires_in * 1000,
            r.interval_secs == device.interval,
    {
        DevicePoll { deadline_ms: now_ms + device.expires_in * 1000, interval_secs: device.interval }
    }

    /// Before an attempt at `now_ms`: the seconds to wait, or the end of the
    /// login once the code has expired.
    pub fn before_attempt(&self, now_ms: u64) -> (r: Result<u64, AuthError>)
        ensures
            now_ms >= self.deadline_ms ==> (r matches Err(e) && e@ == AuthErrorView::Timeout),
            now_ms < self.deadline_ms ==> r == Ok::<u64, AuthError>(self.interval_secs),
    {
        if now_ms >= self.deadline_ms {
            Err(AuthError::Timeout)
        } else {
            Ok(self.interval_secs)
        }
    }

    /// After the token endpoint refused an attempt with this `error` code:
    /// `authorization_pending` polls on, `slow_down` polls on five seconds
    /// slower, anything else ends the login.
    pub fn after_refusal(&mut self, error: Option<String>) -> (r: Result<(), AuthError>)
        requires
            error.deep_view() == Some("slow_down"@) ==> old(self).interval_secs + 5 <= u64::MAX,
        ensures
            final(self).deadline_ms == old(self).deadline_ms,
            error.deep_view() == Some("authorization_pending"@) ==> r is Ok
                && final(self).interval_secs == old(self).interval_secs,
            error.deep_view() == Some("slow_down"@) ==> r is Ok
                && final(self).interval_secs == old(self).interval_secs + 5,
            error.deep_view() != Some("authorization_pending"@) && error.deep_view() != Some(
                "slow_down"@,
            ) ==> (r matches Err(e) && e@ == AuthErrorView::DeviceAuth(
                poll_failure_text(error.deep_view()),
            )) && final(self).interval_secs == old(self).interval_secs,
    {
        proof {
            reveal_strlit("authorization_pending");
            reveal_strlit("slow_down");
            assert("slow_down"@.len() != "authorization_pending"@.len());
        }
        if crate::json::text_is(&error, "authorization_pending") {
            Ok(())
        } else if crate::json::text_is(&error, "slow_down") {
            self.interval_secs = self.interval_secs + 5;
            Ok(())
        } else {
            let m = match &error {
                Some(e) => {
                    let mut m = String::from_str("token poll failed: Some(");
                    m.append(debug_str(e.as_str()).as_str());
                    m.append(")");
                    m
                },
                None => String::from_str("token poll failed: None"),
            };
            Err(AuthError::DeviceAuth(m))
        }
    }
}

} // verus!
