use cohub_desktop::errors::WsError;
use cohub_desktop::events::{TurnFinalized, TurnProgress, WsEvent};
use cohub_desktop::subscription::{auth_frame, subscribe_frame, Reaction, Subscription};
use cohub_desktop::table::StrTable;

fn sub(spaces: &[&str]) -> Subscription {
    Subscription::new(spaces.iter().map(|s| s.to_string()).collect(), StrTable::new())
}

fn progress(r: Reaction) -> TurnProgress {
    match r {
        Reaction::Emit(WsEvent::TurnProgress(p)) => p,
        _ => panic!("expected a turn progress"),
    }
}

fn finalized(r: Reaction) -> TurnFinalized {
    match r {
        Reaction::Emit(WsEvent::TurnFinalized(f)) => f,
        _ => panic!("expected a finalized turn"),
    }
}

fn s(v: &str) -> Option<String> {
    Some(v.to_string())
}

#[test]
fn auth_frame_holds_token_and_capabilities() {
    assert_eq!(
        auth_frame("tok"),
        r#"{"payload":{"capabilities":["compact-stream","room-subscription"],"token":"tok"},"type":"auth"}"#
    );
}

#[test]
fn auth_frame_escapes_token() {
    assert_eq!(
        auth_frame("a\"b\\c"),
        r#"{"payload":{"capabilities":["compact-stream","room-subscription"],"token":"a\"b\\c"},"type":"auth"}"#
    );
}

#[test]
fn auth_frame_is_json_that_serde_reads_back() {
    let v: serde_json::Value = serde_json::from_str(&auth_frame("x\ny")).unwrap();
    assert_eq!(v["type"], "auth");
    assert_eq!(v["payload"]["token"], "x\ny");
    assert_eq!(v["payload"]["capabilities"][1], "room-subscription");
}

#[test]
fn subscribe_frame_lists_every_space_in_order() {
    let ids = vec!["s1".to_string(), "s2".to_string(), "s3".to_string()];
    assert_eq!(
        subscribe_frame(&ids),
        r#"{"payload":{"rooms":["space:s1","space:s2","space:s3"]},"type":"subscribe"}"#
    );
    assert_eq!(subscribe_frame(&vec![]), r#"{"payload":{"rooms":[]},"type":"subscribe"}"#);
}

#[test]
fn auth_ok_sends_the_subscription() {
    let mut sub = sub(&["s1", "s2"]);
    match sub.on_text(r#"{"type":"system.auth.ok"}"#) {
        Reaction::Send(t) => {
            assert_eq!(t, r#"{"payload":{"rooms":["space:s1","space:s2"]},"type":"subscribe"}"#)
        }
        _ => panic!("expected a frame to send"),
    }
    assert!(matches!(sub.on_close(), Reaction::Finish));
}

#[test]
fn close_before_auth_is_an_error() {
    let sub = sub(&["s1"]);
    match sub.on_close() {
        Reaction::Fail(WsError::ClosedBeforeAuth) => {}
        _ => panic!("expected ClosedBeforeAuth"),
    }
}

#[test]
fn request_error_fails_with_its_message() {
    let mut sub = sub(&["s1"]);
    match sub.on_text(r#"{"type":"system.request.error","payload":{"message":"bad token"}}"#) {
        Reaction::Fail(WsError::Auth(m)) => assert_eq!(m, "bad token"),
        _ => panic!("expected an auth failure"),
    }
    match sub.on_text(r#"{"type":"system.request.error"}"#) {
        Reaction::Fail(WsError::Auth(m)) => assert_eq!(m, "auth failed"),
        _ => panic!("expected an auth failure"),
    }
}

#[test]
fn system_events_and_garbage_are_ignored() {
    let mut sub = sub(&["s1"]);
    assert!(matches!(sub.on_text(r#"{"type":"system.ready"}"#), Reaction::Ignore));
    assert!(matches!(sub.on_text(r#"{"type":"system.pong"}"#), Reaction::Ignore));
    assert!(matches!(sub.on_text("not json"), Reaction::Ignore));
    assert!(matches!(sub.on_text(r#"{"type":"system.subscribe.ok"}"#), Reaction::Emit(WsEvent::Connected)));
}

#[test]
fn lifecycle_reports_llm_round() {
    let mut sub = sub(&["sp1"]);
    let p = progress(sub.on_text(
        r#"{"type":"session.turn.lifecycle","sessionId":"se1","spaceId":"sp1","payload":{"phase":"llm_call_started","turnId":"t1","llmRound":2,"provider":"acme","model":"m-large"}}"#,
    ));
    assert_eq!(p.space_id, s("sp1"));
    assert_eq!(p.session_id, s("se1"));
    assert_eq!(p.turn_id, s("t1"));
    assert_eq!(p.llm_round, Some(2));
    assert_eq!(p.provider, s("acme"));
    assert_eq!(p.model, s("m-large"));
    assert_eq!((p.steps, p.tools), (0, 0));
}

#[test]
fn lifecycle_of_other_phase_is_ignored() {
    let mut sub = sub(&["sp1"]);
    let r = sub.on_text(
        r#"{"type":"session.turn.lifecycle","payload":{"phase":"llm_call_finished","turnId":"t1"}}"#,
    );
    assert!(matches!(r, Reaction::Ignore));
}

const PATCH_A: &str = r#"{"type":"session.turn.patch","sessionId":"se1","spaceId":"sp1","payload":{"turnId":"t1","messageOrdinal":1,"ops":[{"o":"add","p":"/0","v":{"type":"tool_use","id":"tool-a"}},{"o":"add","p":"/1","v":{"type":"text","id":"x"}},{"o":"add","p":"/2","v":"plain"}]}}"#;
const PATCH_B: &str = r#"{"type":"session.turn.patch","sessionId":"se1","payload":{"turnId":"t1","messageOrdinal":2,"ops":[{"v":{"type":"tool_use","id":"tool-a"}},{"v":{"type":"tool_use","id":"tool-b"}}]}}"#;

#[test]
fn patches_count_distinct_ordinals_and_tools() {
    let mut sub = sub(&["sp1"]);
    let p = progress(sub.on_text(PATCH_A));
    assert_eq!((p.steps, p.tools), (1, 1));
    assert_eq!(p.turn_id, s("t1"));
    assert_eq!(p.space_id, s("sp1"));
    let p = progress(sub.on_text(PATCH_B));
    assert_eq!((p.steps, p.tools), (2, 2));
    assert_eq!(p.space_id, s("sp1"));
}

#[test]
fn repeated_patch_changes_nothing() {
    let mut sub = sub(&["sp1"]);
    let first = progress(sub.on_text(PATCH_A));
    let again = progress(sub.on_text(PATCH_A));
    assert_eq!((first.steps, first.tools), (again.steps, again.tools));
    assert_eq!(again.space_id, first.space_id);
}

#[test]
fn patch_without_turn_id_is_ignored() {
    let mut sub = sub(&["sp1"]);
    assert!(matches!(
        sub.on_text(r#"{"type":"session.turn.patch","payload":{"messageOrdinal":1}}"#),
        Reaction::Ignore
    ));
}

#[test]
fn lifecycle_keeps_counts_of_patches() {
    let mut sub = sub(&["sp1"]);
    sub.on_text(PATCH_A);
    sub.on_text(PATCH_B);
    let p = progress(sub.on_text(
        r#"{"type":"session.turn.lifecycle","sessionId":"se1","payload":{"phase":"llm_call_started","turnId":"t1","llmRound":3}}"#,
    ));
    assert_eq!((p.steps, p.tools), (2, 2));
    assert_eq!(p.llm_round, Some(3));
    assert_eq!(p.space_id, s("sp1"));
    assert_eq!(p.provider, None);
}

#[test]
fn lifecycle_keeps_provider_when_next_call_omits_it() {
    let mut sub = sub(&["sp1"]);
    sub.on_text(
        r#"{"type":"session.turn.lifecycle","payload":{"phase":"llm_call_started","turnId":"t1","llmRound":1,"provider":"p","model":"m"}}"#,
    );
    let p = progress(sub.on_text(
        r#"{"type":"session.turn.lifecycle","payload":{"phase":"llm_call_started","turnId":"t1"}}"#,
    ));
    assert_eq!(p.provider, s("p"));
    assert_eq!(p.model, s("m"));
    assert_eq!(p.llm_round, None);
}

#[test]
fn finalized_takes_space_of_its_session() {
    let mut sub = sub(&["sp1"]);
    let r = sub.on_text(r#"{"type":"session.message.created","sessionId":"se9","spaceId":"sp9"}"#);
    match r {
        Reaction::Emit(WsEvent::Activity { event_type, space_id, session_id }) => {
            assert_eq!(event_type, "session.message.created");
            assert_eq!(space_id, s("sp9"));
            assert_eq!(session_id, s("se9"));
        }
        _ => panic!("expected an activity"),
    }
    let f = finalized(sub.on_text(
        r#"{"type":"session.turn.finalized","spaceId":null,"payload":{"turn":{"id":"t7","sessionId":"se9","status":"completed"}}}"#,
    ));
    assert_eq!(f.space_id, s("sp9"));
    assert_eq!(f.session_id, s("se9"));
    assert_eq!(f.status, s("completed"));
}

#[test]
fn finalized_reads_the_summary() {
    let mut sub = sub(&["sp1"]);
    let f = finalized(sub.on_text(
        r#"{"type":"session.turn.finalized","spaceId":"sp1","sessionId":"se1","payload":{"turn":{"id":"t1","sequence":4,"status":"completed","provider":"p","model":"m","userUuid":"u1","durationMs":99,"assistantText":"fallback","intermediateSummary":{"messageCount":3,"toolCallCount":1,"hasError":true,"durationMs":1200,"lastMessageText":"done","usage":{"input":10,"output":20,"cacheRead":5}}}}}"#,
    ));
    assert_eq!(f.space_id, s("sp1"));
    assert_eq!(f.session_id, s("se1"));
    assert_eq!(f.turn_id, s("t1"));
    assert_eq!(f.sequence, Some(4));
    assert_eq!(f.provider, s("p"));
    assert_eq!(f.model, s("m"));
    assert_eq!(f.user_uuid, s("u1"));
    assert_eq!((f.message_count, f.tool_call_count), (3, 1));
    assert_eq!((f.usage_input, f.usage_output, f.usage_cache_read), (10, 20, 5));
    assert_eq!(f.duration_ms, Some(1200));
    assert_eq!(f.last_text, s("done"));
    assert!(f.has_error);
}

#[test]
fn finalized_falls_back_without_summary() {
    let mut sub = sub(&["sp1"]);
    let f = finalized(sub.on_text(
        r#"{"type":"session.turn.finalized","sessionId":"se2","payload":{"turn":{"id":"t1","durationMs":7,"assistantText":"hi","intermediateSummary":{"lastMessageText":""}}}}"#,
    ));
    assert_eq!(f.session_id, s("se2"));
    assert_eq!(f.space_id, None);
    assert_eq!(f.duration_ms, Some(7));
    assert_eq!(f.last_text, s("hi"));
    assert_eq!((f.message_count, f.usage_input), (0, 0));
    assert!(!f.has_error);
}

#[test]
fn finalized_forgets_the_live_turn() {
    let mut sub = sub(&["sp1"]);
    sub.on_text(PATCH_A);
    sub.on_text(r#"{"type":"session.turn.finalized","payload":{"turn":{"id":"t1"}}}"#);
    let p = progress(sub.on_text(PATCH_B));
    assert_eq!((p.steps, p.tools), (1, 2));
    assert_eq!(p.space_id, s("sp1"));
}

#[test]
fn finalized_without_turn_is_ignored() {
    let mut sub = sub(&["sp1"]);
    assert!(matches!(
        sub.on_text(r#"{"type":"session.turn.finalized","payload":{}}"#),
        Reaction::Ignore
    ));
}

#[test]
fn activity_without_type_and_known_session() {
    let mut known = StrTable::new();
    known.insert("se1".to_string(), "sp1".to_string());
    let mut sub = Subscription::new(vec!["sp1".to_string()], known);
    match sub.on_text(r#"{"sessionId":"se1"}"#) {
        Reaction::Emit(WsEvent::Activity { event_type, space_id, session_id }) => {
            assert_eq!(event_type, "");
            assert_eq!(space_id, s("sp1"));
            assert_eq!(session_id, s("se1"));
        }
        _ => panic!("expected an activity"),
    }
}

#[test]
fn empty_ids_are_not_remembered() {
    let mut sub = sub(&["sp1"]);
    sub.on_text(r#"{"type":"x","sessionId":"se1","spaceId":""}"#);
    match sub.on_text(r#"{"type":"x","sessionId":"se1"}"#) {
        Reaction::Emit(WsEvent::Activity { space_id, .. }) => assert_eq!(space_id, None),
        _ => panic!("expected an activity"),
    }
}
