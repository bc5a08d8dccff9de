//! The Cohub HTTP API endpoints the application uses, and how it reads their
//! answers. The full `/api/spaces` answer may hold secrets in
//! `meta.extraEnv`; only `id`, `name` and `userUuid` are read.
use vstd::prelude::*;
use crate::errors::ApiError;

verus! {

/// The API host.
pub const API_BASE_URL: &'static str = "https://api.cohub.run";

/// The answer of `/api/me`.
pub struct MeResponse {
    pub uuid: String,
    pub profile: Option<MeProfile>,
}

/// The profile in `/api/me`.
pub struct MeProfile {
    pub display_name: Option<String>,
    pub username: Option<String>,
    pub avatar_url: Option<String>,
}

/// One item of `/api/spaces`.
pub struct SpaceListItem {
    pub id: String,
    pub name: String,
    /// The creator of the space (`userUuid`).
    pub user_uuid: Option<String>,
}

/// `http::StatusCode::from_u16(code)` followed by `is_success`; a code that
/// is not a status code (outside 100..=999) is no success.
/// Claimed, as the `http` source shows: success is exactly 200..=299.
#[verifier::external_body]
fn status_is_success(code: u16) -> (r: bool)
    ensures
        r == (200 <= code && code <= 299),
{
    match reqwest::StatusCode::from_u16(code) {
        Ok(s) => s.is_success(),
        Err(_) => false,
    }
}

/// Accepts a response status: a success, or the error for any other status.
pub fn check_status(code: u16) -> (r: Result<(), ApiError>)
    ensures
        200 <= code <= 299 ==> r is Ok,
        !(200 <= code <= 299) ==> (r matches Err(ApiError::Status(c)) && c == code),
{
    if status_is_success(code) {
        Ok(())
    } else {
        Err(ApiError::Status(code))
    }
}

/// Whether an HTTP status is a success (200..=299).
pub fn is_success_status(code: u16) -> (r: bool)
    ensures
        r == (200 <= code && code <= 299),
{
    check_status(code).is_ok()
}

/// The URL of `/api/me`.
pub fn me_url() -> (r: String)
    ensures
        r@ == API_BASE_URL@ + "/api/me"@,
{
    let mut r = String::from_str(API_BASE_URL);
    r.append("/api/me");
    r
}

/// The URL of `/api/spaces`.
pub fn spaces_url() -> (r: String)
    ensures
        r@ == API_BASE_URL@ + "/api/spaces"@,
{
    let mut r = String::from_str(API_BASE_URL);
    r.append("/api/spaces");
    r
}

/// The URL of the latest sessions of a space (at most 50).
pub fn space_sessions_url(space_id: &str) -> (r: String)
    ensures
        r@ == API_BASE_URL@ + "/api/spaces/"@ + space_id@ + "/sessions?limit=50"@,
{
    let mut r = String::from_str(API_BASE_URL);
    r.append("/api/spaces/");
    r.append(space_id);
    r.append("/sessions?limit=50");
    r
}

} // verus!
