//! Errors of the HTTP API, the device login, the settings file and the
//! realtime subscription, with the messages they are shown by.
use vstd::prelude::*;

verus! {

#[verifier::external_type_specification]
#[verifier::external_body]
pub struct ExReqwestError(reqwest::Error);

#[verifier::external_type_specification]
#[verifier::external_body]
pub struct ExIoError(std::io::Error);

#[verifier::external_type_specification]
#[verifier::external_body]
pub struct ExSerdeJsonError(serde_json::Error);

#[verifier::external_type_specification]
#[verifier::external_body]
pub struct ExTungsteniteError(tokio_tungstenite::tungstenite::Error);

/// The `Display` text of a `reqwest::Error` (`format!("{}", e)`); nothing is claimed of it.
#[verifier::external_body]
fn reqwest_error_text(e: &reqwest::Error) -> String {
    format!("{}", e)
}

/// The `Display` text of a `std::io::Error` (`format!("{}", e)`); nothing is claimed of it.
#[verifier::external_body]
fn io_error_text(e: &std::io::Error) -> String {
    format!("{}", e)
}

/// The `Display` text of a `serde_json::Error` (`format!("{}", e)`); nothing is claimed of it.
#[verifier::external_body]
fn serde_json_error_text(e: &serde_json::Error) -> String {
    format!("{}", e)
}

/// The `Display` text of a `tungstenite::Error` (`format!("{}", e)`); nothing is claimed of it.
#[verifier::external_body]
fn tungstenite_error_text(e: &tokio_tungstenite::tungstenite::Error) -> String {
    format!("{}", e)
}

/// `prefix` followed by `text`.
fn prefixed(prefix: &str, text: String) -> (r: String)
    ensures
        r@ == prefix@ + text@,
{
    let mut r = String::from_str(prefix);
    r.append(text.as_str());
    r
}

/// Errors of the HTTP API.
pub enum ApiError {
    Http(reqwest::Error),
    /// The server answered with a status outside 200..=299.
    Status(u16),
}

impl ApiError {
    /// The message the error is shown by.
    pub fn message(&self) -> (r: String)
        ensures
            self matches ApiError::Status(code) ==> r@ == "unexpected status "@
                + crate::text::decimal_text(code as nat),
            self is Http ==> exists|t: Seq<char>| r@ == "http request failed: "@ + t,
    {
        match self {
            ApiError::Http(e) => prefixed("http request failed: ", reqwest_error_text(e)),
            ApiError::Status(code) => prefixed("unexpected status ", crate::text::decimal(*code as u64)),
        }
    }
}

/// Errors of the device login.
pub enum AuthError {
    Http(reqwest::Error),
    DeviceAuth(String),
    Io(std::io::Error),
    Serde(serde_json::Error),
    Timeout,
    NotAuthenticated,
}

/// The kind of an [`AuthError`], with its text where it carries one of its own.
pub enum AuthErrorView {
    Http,
    DeviceAuth(Seq<char>),
    Io,
    Serde,
    Timeout,
    NotAuthenticated,
}

impl View for AuthError {
    type V = AuthErrorView;

    open spec fn view(&self) -> AuthErrorView {
        match self {
            AuthError::Http(_) => AuthErrorView::Http,
            AuthError::DeviceAuth(m) => AuthErrorView::DeviceAuth(m@),
            AuthError::Io(_) => AuthErrorView::Io,
            AuthError::Serde(_) => AuthErrorView::Serde,
            AuthError::Timeout => AuthErrorView::Timeout,
            AuthError::NotAuthenticated => AuthErrorView::NotAuthenticated,
        }
    }
}

impl AuthError {
    /// The message the error is shown by.
    pub fn message(&self) -> (r: String)
        ensures
            self matches AuthError::DeviceAuth(m) ==> r@ == "device auth error: "@ + m@,
            self is Timeout ==> r@ == "login timed out"@,
            self is NotAuthenticated ==> r@ == "not authenticated"@,
            self is Http ==> exists|t: Seq<char>| r@ == "http request failed: "@ + t,
            self is Io ==> exists|t: Seq<char>| r@ == "io error: "@ + t,
            self is Serde ==> exists|t: Seq<char>| r@ == "serde error: "@ + t,
    {
        match self {
            AuthError::Http(e) => prefixed("http request failed: ", reqwest_error_text(e)),
            AuthError::DeviceAuth(m) => prefixed("device auth error: ", m.clone()),
            AuthError::Io(e) => prefixed("io error: ", io_error_text(e)),
            AuthError::Serde(e) => prefixed("serde error: ", serde_json_error_text(e)),
            AuthError::Timeout => String::from_str("login timed out"),
            AuthError::NotAuthenticated => String::from_str("not authenticated"),
        }
    }
}

/// Errors of the settings file.
pub enum SettingsError {
    Io(std::io::Error),
    Serde(serde_json::Error),
}

impl SettingsError {
    /// The message the error is shown by.
    pub fn message(&self) -> (r: String)
        ensures
            self is Io ==> exists|t: Seq<char>| r@ == "io error: "@ + t,
            self is Serde ==> exists|t: Seq<char>| r@ == "serde error: "@ + t,
    {
        match self {
            SettingsError::Io(e) => prefixed("io error: ", io_error_text(e)),
            SettingsError::Serde(e) => prefixed("serde error: ", serde_json_error_text(e)),
        }
    }
}

/// Errors of the realtime subscription.
pub enum WsError {
    Ws(tokio_tungstenite::tungstenite::Error),
    Auth(String),
    ClosedBeforeAuth,
}

/// The kind of a [`WsError`], with its text where it carries one of its own.
pub enum WsErrorView {
    Transport,
    Auth(Seq<char>),
    ClosedBeforeAuth,
}

impl View for WsError {
    type V = WsErrorView;

    open spec fn view(&self) -> WsErrorView {
        match self {
            WsError::Ws(_) => WsErrorView::Transport,
            WsError::Auth(m) => WsErrorView::Auth(m@),
            WsError::ClosedBeforeAuth => WsErrorView::ClosedBeforeAuth,
        }
    }
}

impl WsError {
    /// The message the error is shown by.
    pub fn message(&self) -> (r: String)
        ensures
            self matches WsError::Auth(m) ==> r@ == "auth failed: "@ + m@,
            self is ClosedBeforeAuth ==> r@ == "connection closed before auth completed"@,
            self is Ws ==> exists|t: Seq<char>| r@ == "websocket error: "@ + t,
    {
        match self {
            WsError::Ws(e) => prefixed("websocket error: ", tungstenite_error_text(e)),
            WsError::Auth(m) => prefixed("auth failed: ", m.clone()),
            WsError::ClosedBeforeAuth => String::from_str("connection closed before auth completed"),
        }
    }
}

} // verus!
