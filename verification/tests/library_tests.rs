use cohub_desktop::api::{
    check_status, is_success_status, me_url, space_sessions_url, spaces_url, MeProfile, MeResponse, SpaceListItem,
};
use cohub_desktop::auth::{
    clock_millis, device_auth_url, device_code_failure, device_code_form, device_code_from_response,
    device_token_form, now_ms, plan_access_token, refresh_credential, refresh_form,
    refreshed_session, session_from_token, token_is_fresh, token_url, DeviceCode, DevicePoll,
    RawDeviceCode, Session, TokenPlan, TokenResponse,
};
use cohub_desktop::errors::{ApiError, AuthError, SettingsError, WsError};
use cohub_desktop::events::TurnLiveState;
use cohub_desktop::json::{json_quote, parse_json, str_field, u64_field, Json};
use cohub_desktop::settings::{default_true, settings_from_text, Settings};
use cohub_desktop::signal::{parse_turn_signal, signal_log_line, SignalReaction, SignalSubscription, TurnSignal};
use cohub_desktop::table::StrTable;
use cohub_desktop::text::{decimal, trim, truncate_preview};
use cohub_desktop::events::{record_space_sessions, update_session_space};

fn s(v: &str) -> Option<String> {
    Some(v.to_string())
}

// ---------- json ----------

#[test]
fn json_reads_fields() {
    let j = parse_json(r#"{"a":"x","n":5,"neg":-1,"f":1.5,"o":{"b":true},"arr":[1,2]}"#).unwrap();
    assert_eq!(str_field(&j, "a"), s("x"));
    assert_eq!(u64_field(&j, "n"), Some(5));
    assert_eq!(u64_field(&j, "neg"), None);
    assert_eq!(u64_field(&j, "f"), None);
    assert_eq!(str_field(&j, "n"), None);
    assert_eq!(str_field(&j, "missing"), None);
    assert_eq!(j.get("o").and_then(|o| o.get("b")).and_then(|b| b.as_bool()), Some(true));
    assert!(j.get("o").unwrap().is_object());
    assert!(matches!(j.get("arr"), Some(Json::Array(v)) if v.len() == 2));
    assert!(parse_json("{").is_none());
    assert!(parse_json("[1,2]").unwrap().get("a").is_none());
}

#[test]
fn json_duplicate_key_keeps_last() {
    let j = parse_json(r#"{"a":"first","a":"last"}"#).unwrap();
    assert_eq!(str_field(&j, "a"), s("last"));
}

#[test]
fn json_quote_escapes() {
    assert_eq!(json_quote("plain"), "\"plain\"");
    assert_eq!(json_quote("q\"\n"), "\"q\\\"\\n\"");
}

// ---------- text ----------

#[test]
fn decimal_renders_numbers() {
    assert_eq!(decimal(0), "0");
    assert_eq!(decimal(7), "7");
    assert_eq!(decimal(1234), "1234");
    assert_eq!(decimal(u64::MAX), u64::MAX.to_string());
}

#[test]
fn trim_strips_unicode_white_space() {
    assert_eq!(trim("  a b \n"), "a b");
    assert_eq!(trim("\u{3000}x\u{3000}"), "x");
    assert_eq!(trim("   "), "");
}

#[test]
fn truncate_preview_keeps_short_text() {
    assert_eq!(truncate_preview("  hello  ", 10), "hello");
    assert_eq!(truncate_preview("abc", 3), "abc");
}

#[test]
fn truncate_preview_cuts_long_text() {
    assert_eq!(truncate_preview("abcdef", 3), "ab…");
    assert_eq!(truncate_preview("你好世界", 3), "你好…");
    assert_eq!(truncate_preview("ab", 0), "…");
    assert_eq!(truncate_preview("", 0), "");
    let long = "x".repeat(150);
    let p = truncate_preview(&long, 100);
    assert_eq!(p.chars().count(), 100);
    assert!(p.ends_with('…'));
}

// ---------- table / live state ----------

#[test]
fn table_insert_get_take() {
    let mut t: StrTable<String> = StrTable::new();
    assert!(t.get("a").is_none());
    t.insert("a".to_string(), "1".to_string());
    t.insert("b".to_string(), "2".to_string());
    t.insert("a".to_string(), "3".to_string());
    assert_eq!(t.get("a").cloned(), s("3"));
    assert_eq!(t.take("b"), s("2"));
    assert!(t.get("b").is_none());
    assert_eq!(t.take("b"), None);
}

#[test]
fn update_session_space_needs_both_ids() {
    let mut t: StrTable<String> = StrTable::new();
    update_session_space(&mut t, &s("se"), &None);
    update_session_space(&mut t, &s(""), &s("sp"));
    assert!(t.get("se").is_none());
    assert!(t.get("").is_none());
    update_session_space(&mut t, &s("se"), &s("sp"));
    assert_eq!(t.get("se").cloned(), s("sp"));
}

#[test]
fn turn_live_state_counts_distinct_items() {
    let mut st = TurnLiveState::new(s("sp"), None);
    let p = st.progress(s("t"));
    assert_eq!((p.steps, p.tools), (0, 0));
    assert_eq!(p.space_id, s("sp"));
    assert_eq!(p.session_id, None);
    st.record_ordinal(4);
    st.record_ordinal(4);
    st.record_ordinal(9);
    st.record_tool("a".to_string());
    st.record_tool("a".to_string());
    st.fill_origin(s("other"), s("se"));
    st.merge_llm_call(Some(1), s("prov"), None);
    let p = st.progress(None);
    assert_eq!((p.steps, p.tools), (2, 1));
    assert_eq!(p.space_id, s("sp"));
    assert_eq!(p.session_id, s("se"));
    assert_eq!(p.llm_round, Some(1));
    assert_eq!(p.provider, s("prov"));
    assert_eq!(p.turn_id, None);
}

// ---------- settings ----------

#[test]
fn settings_defaults() {
    let d = Settings::default();
    assert!(!d.only_my_spaces && !d.only_my_turns);
    assert!(d.notify_finalized && d.tray_badge && d.in_app_toast);
    assert!(default_true());
}

#[test]
fn settings_missing_fields_take_defaults() {
    let st = settings_from_text(r#"{"only_my_spaces":true,"tray_badge":false}"#);
    assert!(st.only_my_spaces);
    assert!(!st.only_my_turns);
    assert!(st.notify_finalized);
    assert!(!st.tray_badge);
    assert!(st.in_app_toast);
}

#[test]
fn settings_ignore_unknown_fields() {
    let st = settings_from_text(r#"{"only_my_turns":true,"future_option":[1,2,3]}"#);
    assert!(st.only_my_turns);
    assert!(st.tray_badge);
}

#[test]
fn settings_wrong_type_gives_defaults() {
    let st = settings_from_text(r#"{"only_my_spaces":true,"tray_badge":"no"}"#);
    assert!(!st.only_my_spaces);
    assert!(st.tray_badge);
    let st = settings_from_text(r#"{"only_my_spaces":null}"#);
    assert!(!st.only_my_spaces);
}

#[test]
fn settings_from_garbage_or_other_shapes() {
    assert!(settings_from_text("not json").notify_finalized);
    assert!(!settings_from_text("42").only_my_spaces);
    let st = settings_from_text("[true, true, false]");
    assert!(st.only_my_spaces && st.only_my_turns && !st.notify_finalized && st.tray_badge);
    let st = settings_from_text("[true, true, true, true, true, true]");
    assert!(!st.only_my_spaces);
}

#[test]
fn settings_duplicate_field_keeps_last() {
    let st = settings_from_text(r#"{"tray_badge":false,"tray_badge":true}"#);
    assert!(st.tray_badge);
}

// ---------- signal (single space client) ----------

#[test]
fn signal_of_lifecycle_and_finalized() {
    let j = parse_json(
        r#"{"type":"session.turn.lifecycle","sessionId":"se","payload":{"phase":"llm_call_started","turnId":"t","llmRound":4,"provider":"p","model":"m"}}"#,
    )
    .unwrap();
    match parse_turn_signal(&j) {
        Some(TurnSignal::LlmRoundStarted { session_id, turn_id, llm_round, provider, model }) => {
            assert_eq!(session_id, s("se"));
            assert_eq!(turn_id, s("t"));
            assert_eq!(llm_round, Some(4));
            assert_eq!(provider, s("p"));
            assert_eq!(model, s("m"));
        }
        _ => panic!("expected a round start"),
    }
    let j = parse_json(
        r#"{"type":"session.turn.finalized","payload":{"turn":{"id":"t","status":"completed"}}}"#,
    )
    .unwrap();
    match parse_turn_signal(&j) {
        Some(TurnSignal::TurnFinalized { session_id, turn_id, status }) => {
            assert_eq!(session_id, None);
            assert_eq!(turn_id, s("t"));
            assert_eq!(status, s("completed"));
        }
        _ => panic!("expected a turn end"),
    }
    let j = parse_json(r#"{"type":"session.turn.patch","payload":{}}"#).unwrap();
    assert!(parse_turn_signal(&j).is_none());
    let j = parse_json(r#"{"type":"session.turn.finalized"}"#).unwrap();
    assert!(parse_turn_signal(&j).is_none());
}

#[test]
fn signal_subscription_flow() {
    let mut sub = SignalSubscription::new("sp1".to_string());
    assert!(matches!(sub.on_close(), SignalReaction::Fail(WsError::ClosedBeforeAuth)));
    match sub.on_text(r#"{"type":"system.auth.ok"}"#) {
        SignalReaction::Send(t) => {
            assert_eq!(t, r#"{"payload":{"rooms":["space:sp1"]},"type":"subscribe"}"#)
        }
        _ => panic!("expected the subscription frame"),
    }
    assert!(matches!(sub.on_text(r#"{"type":"system.subscribe.ok"}"#), SignalReaction::Ignore));
    let r = sub.on_text(
        r#"{"type":"session.turn.finalized","sessionId":"se","payload":{"turn":{"id":"t","status":"failed"}}}"#,
    );
    match r {
        SignalReaction::Emit(sig) => {
            assert_eq!(signal_log_line(&sig), "[turn] ✅ finalized status=failed")
        }
        _ => panic!("expected a signal"),
    }
    assert!(matches!(sub.on_close(), SignalReaction::Finish));
    match sub.on_text(r#"{"type":"system.request.error","payload":{"message":"no"}}"#) {
        SignalReaction::Fail(WsError::Auth(m)) => assert_eq!(m, "no"),
        _ => panic!("expected an auth failure"),
    }
}

#[test]
fn signal_log_line_of_round() {
    let sig = TurnSignal::LlmRoundStarted {
        session_id: None,
        turn_id: None,
        llm_round: Some(12),
        provider: s("acme"),
        model: None,
    };
    assert_eq!(signal_log_line(&sig), "[turn] llmRound=12 provider=acme model=");
    let sig = TurnSignal::TurnFinalized { session_id: None, turn_id: None, status: None };
    assert_eq!(signal_log_line(&sig), "[turn] ✅ finalized status=");
}

// ---------- api ----------

#[test]
fn status_check() {
    assert!(check_status(200).is_ok());
    assert!(check_status(204).is_ok());
    assert!(check_status(299).is_ok());
    assert!(matches!(check_status(300), Err(ApiError::Status(300))));
    assert!(matches!(check_status(199), Err(ApiError::Status(199))));
    assert!(matches!(check_status(401), Err(ApiError::Status(401))));
    assert!(matches!(check_status(42), Err(ApiError::Status(42))));
    assert!(matches!(check_status(1200), Err(ApiError::Status(1200))));
    assert!(is_success_status(201));
    assert!(!is_success_status(404));
}

#[test]
fn api_urls() {
    assert_eq!(me_url(), "https://api.cohub.run/api/me");
    assert_eq!(spaces_url(), "https://api.cohub.run/api/spaces");
    assert_eq!(
        space_sessions_url("abc"),
        "https://api.cohub.run/api/spaces/abc/sessions?limit=50"
    );
}

#[test]
fn api_types_hold_fields() {
    let me = MeResponse {
        uuid: "u".to_string(),
        profile: Some(MeProfile { display_name: None, username: s("name"), avatar_url: None }),
    };
    assert_eq!(me.profile.unwrap().username, s("name"));
    let item = SpaceListItem { id: "i".to_string(), name: "n".to_string(), user_uuid: None };
    assert_eq!((item.id, item.name, item.user_uuid), ("i".to_string(), "n".to_string(), None));
}

// ---------- errors ----------

#[test]
fn error_messages() {
    assert_eq!(ApiError::Status(404).message(), "unexpected status 404");
    assert_eq!(AuthError::DeviceAuth("x".to_string()).message(), "device auth error: x");
    assert_eq!(AuthError::Timeout.message(), "login timed out");
    assert_eq!(AuthError::NotAuthenticated.message(), "not authenticated");
    assert_eq!(
        AuthError::Io(std::io::Error::new(std::io::ErrorKind::Other, "disk")).message(),
        "io error: disk"
    );
    let serde_err = serde_json::from_str::<u8>("x").unwrap_err();
    let expected = format!("serde error: {}", serde_err);
    assert_eq!(AuthError::Serde(serde_err).message(), expected);
    assert_eq!(
        SettingsError::Io(std::io::Error::new(std::io::ErrorKind::Other, "full")).message(),
        "io error: full"
    );
    assert_eq!(WsError::Auth("m".to_string()).message(), "auth failed: m");
    assert_eq!(WsError::ClosedBeforeAuth.message(), "connection closed before auth completed");
    assert_eq!(
        WsError::Ws(tokio_tungstenite::tungstenite::Error::ConnectionClosed).message(),
        "websocket error: Connection closed normally"
    );
}

// ---------- auth ----------

fn pairs(v: Vec<(String, String)>) -> Vec<(String, String)> {
    v
}

#[test]
fn auth_urls_and_forms() {
    assert_eq!(device_auth_url(), "https://auth.neta.art/oidc/device/auth");
    assert_eq!(token_url(), "https://auth.neta.art/oidc/token");
    let f = pairs(device_code_form());
    assert_eq!(f.len(), 3);
    assert_eq!(f[0], ("client_id".to_string(), "f8d26cdlwx85b0e5l3om2".to_string()));
    assert_eq!(f[1], ("scope".to_string(), "openid profile email offline_access".to_string()));
    assert_eq!(f[2], ("resource".to_string(), "https://api.talesofai".to_string()));
    let f = device_token_form("dc");
    assert_eq!(
        f[1],
        ("grant_type".to_string(), "urn:ietf:params:oauth:grant-type:device_code".to_string())
    );
    assert_eq!(f[2], ("device_code".to_string(), "dc".to_string()));
    let f = refresh_form("rt");
    assert_eq!(f.len(), 5);
    assert_eq!(f[1], ("grant_type".to_string(), "refresh_token".to_string()));
    assert_eq!(f[2], ("refresh_token".to_string(), "rt".to_string()));
}

#[test]
fn device_code_defaults() {
    let d = device_code_from_response(RawDeviceCode {
        device_code: "dc".to_string(),
        user_code: "UC".to_string(),
        verification_uri: "https://v".to_string(),
        verification_uri_complete: None,
        expires_in: 600,
        interval: None,
    });
    assert_eq!(d.verification_uri_complete, "https://v");
    assert_eq!(d.interval, 5);
    assert_eq!(d.expires_in, 600);
    let d = device_code_from_response(RawDeviceCode {
        device_code: "dc".to_string(),
        user_code: "UC".to_string(),
        verification_uri: "https://v".to_string(),
        verification_uri_complete: s("https://v?c=UC"),
        expires_in: 600,
        interval: Some(2),
    });
    assert_eq!(d.verification_uri_complete, "https://v?c=UC");
    assert_eq!(d.interval, 2);
}

#[test]
fn device_code_failure_message() {
    match device_code_failure("400 Bad Request", "nope") {
        AuthError::DeviceAuth(m) => assert_eq!(m, "device code request failed: HTTP 400 Bad Request nope"),
        _ => panic!("expected a device auth error"),
    }
}

fn token(refresh: Option<String>, id: Option<String>) -> TokenResponse {
    TokenResponse { access_token: "new".to_string(), refresh_token: refresh, id_token: id, expires_in: 3600 }
}

#[test]
fn sessions_from_tokens() {
    let sess = session_from_token(token(s("r"), None), 1_000);
    assert_eq!(sess.access_token, "new");
    assert_eq!(sess.refresh_token, s("r"));
    assert_eq!(sess.expires_at_ms, 1_000 + 3_600_000);
    let current = Session {
        access_token: "old".to_string(),
        refresh_token: s("old-r"),
        id_token: s("old-id"),
        expires_at_ms: 5,
    };
    let sess = refreshed_session(current, token(None, s("new-id")), 10);
    assert_eq!(sess.access_token, "new");
    assert_eq!(sess.refresh_token, s("old-r"));
    assert_eq!(sess.id_token, s("new-id"));
    assert_eq!(sess.expires_at_ms, 3_600_010);
}

#[test]
fn refresh_needs_a_refresh_token() {
    assert!(matches!(refresh_credential(&None), Err(AuthError::NotAuthenticated)));
    let no_refresh = Session { access_token: "a".to_string(), refresh_token: None, id_token: None, expires_at_ms: 0 };
    assert!(matches!(refresh_credential(&Some(no_refresh)), Err(AuthError::NotAuthenticated)));
    let with = Session { access_token: "a".to_string(), refresh_token: s("r"), id_token: None, expires_at_ms: 0 };
    assert_eq!(refresh_credential(&Some(with)).ok(), s("r"));
}

#[test]
fn token_freshness_has_five_minutes_margin() {
    assert!(token_is_fresh(1_000 + 300_001, 1_000));
    assert!(!token_is_fresh(1_000 + 300_000, 1_000));
    assert!(!token_is_fresh(0, 1_000));
    let fresh = Session { access_token: "tok".to_string(), refresh_token: None, id_token: None, expires_at_ms: 400_000 };
    match plan_access_token(Some(fresh), 0) {
        Ok(TokenPlan::Use(t)) => assert_eq!(t, "tok"),
        _ => panic!("expected the stored token"),
    }
    let stale = Session { access_token: "tok".to_string(), refresh_token: None, id_token: None, expires_at_ms: 300_000 };
    assert!(matches!(plan_access_token(Some(stale), 0), Ok(TokenPlan::Refresh)));
    assert!(matches!(plan_access_token(None, 0), Err(AuthError::NotAuthenticated)));
}

#[test]
fn device_poll_steps() {
    let device = DeviceCode {
        device_code: "dc".to_string(),
        user_code: "UC".to_string(),
        verification_uri: "v".to_string(),
        verification_uri_complete: "v".to_string(),
        expires_in: 10,
        interval: 5,
    };
    let mut poll = DevicePoll::start(&device, 1_000);
    assert_eq!(poll.deadline_ms, 11_000);
    assert_eq!(poll.before_attempt(1_000).ok(), Some(5));
    assert!(poll.after_refusal(s("authorization_pending")).is_ok());
    assert_eq!(poll.interval_secs, 5);
    assert!(poll.after_refusal(s("slow_down")).is_ok());
    assert_eq!(poll.before_attempt(10_999).ok(), Some(10));
    assert!(matches!(poll.before_attempt(11_000), Err(AuthError::Timeout)));
    match poll.after_refusal(s("expired_token")) {
        Err(AuthError::DeviceAuth(m)) => assert_eq!(m, "token poll failed: Some(\"expired_token\")"),
        _ => panic!("expected a device auth error"),
    }
    match poll.after_refusal(None) {
        Err(AuthError::DeviceAuth(m)) => assert_eq!(m, "token poll failed: None"),
        _ => panic!("expected a device auth error"),
    }
}

#[test]
fn clock_is_after_2020() {
    assert!(now_ms() > 1_577_836_800_000);
}

#[test]
fn http_error_messages() {
    let e = reqwest::Client::new().get("not a url").build().unwrap_err();
    let text = e.to_string();
    assert_eq!(ApiError::Http(e).message(), format!("http request failed: {text}"));
    let e = reqwest::Client::new().get("::").build().unwrap_err();
    let text = e.to_string();
    assert_eq!(AuthError::Http(e).message(), format!("http request failed: {text}"));
    let e = serde_json::from_str::<bool>("1").unwrap_err();
    let text = e.to_string();
    assert_eq!(SettingsError::Serde(e).message(), format!("serde error: {text}"));
}

#[test]
fn json_quote_writes_controls_as_unicode_escapes() {
    assert_eq!(json_quote("\u{1}\u{8}\u{c}\r\t\\"), "\"\\u0001\\b\\f\\r\\t\\\\\"");
    assert_eq!(json_quote("\u{1f}é"), "\"\\u001fé\"");
}

#[test]
fn clock_reading_before_epoch_is_zero() {
    assert_eq!(clock_millis(Some(1_700_000_000_000)), 1_700_000_000_000);
    assert_eq!(clock_millis(None), 0);
}

#[test]
fn sessions_of_a_space_are_recorded() {
    let mut t: StrTable<String> = StrTable::new();
    t.insert("se0".to_string(), "old".to_string());
    record_space_sessions(&mut t, &"sp".to_string(), vec!["se0".to_string(), "se1".to_string()]);
    assert_eq!(t.get("se0").cloned(), s("sp"));
    assert_eq!(t.get("se1").cloned(), s("sp"));
    record_space_sessions(&mut t, &"sp2".to_string(), vec![]);
    assert_eq!(t.get("se1").cloned(), s("sp"));
}

#[test]
fn poll_refusal_at_the_largest_interval() {
    let mut poll = DevicePoll { deadline_ms: 10, interval_secs: u64::MAX };
    assert!(poll.after_refusal(s("authorization_pending")).is_ok());
    assert!(matches!(poll.after_refusal(s("access_denied")), Err(AuthError::DeviceAuth(_))));
    assert_eq!(poll.interval_secs, u64::MAX);
}
