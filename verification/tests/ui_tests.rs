use cohub_desktop::api::{MeProfile, MeResponse, SpaceListItem};
use cohub_desktop::events::{TurnFinalized, TurnProgress, WsEvent};
use cohub_desktop::settings::Settings;
use cohub_desktop::ui::{
    account_from_me, badge_view, connected_status, connecting_status, disconnected_status,
    display_name_of, finalized_notice, idle_status, menu_action, route_event, run_ended,
    session_url, should_process_space, should_process_turn, space_ids_of, toggle_action,
    subscription_plan, token_failure, EventRoute, ListenerContext, MenuAction, NextStep,
    SubscriptionPlan, WindowAction,
};

fn s(v: &str) -> Option<String> {
    Some(v.to_string())
}

fn fin(last_text: Option<String>, messages: u64, tools: u64) -> TurnFinalized {
    TurnFinalized {
        space_id: s("sp"),
        session_id: s("se"),
        turn_id: s("t"),
        sequence: Some(3),
        status: s("completed"),
        provider: None,
        model: None,
        message_count: messages,
        tool_call_count: tools,
        usage_input: 0,
        usage_output: 0,
        usage_cache_read: 0,
        duration_ms: None,
        last_text,
        has_error: false,
        user_uuid: s("me"),
    }
}

fn me(display: Option<String>, avatar: Option<String>) -> MeResponse {
    MeResponse {
        uuid: "uuid-1".to_string(),
        profile: Some(MeProfile { display_name: display, username: None, avatar_url: avatar }),
    }
}

fn space(id: &str, owner: Option<String>) -> SpaceListItem {
    SpaceListItem { id: id.to_string(), name: format!("name-{id}"), user_uuid: owner }
}

fn settings(only_spaces: bool, only_turns: bool) -> Settings {
    Settings { only_my_spaces: only_spaces, only_my_turns: only_turns, ..Settings::default() }
}

#[test]
fn session_url_needs_space_and_session() {
    assert_eq!(
        session_url(&s("sp"), &s("se"), Some(7)),
        s("https://cohub.run/spaces/sp/sessions/se?turn=7")
    );
    assert_eq!(session_url(&s("sp"), &s("se"), None), s("https://cohub.run/spaces/sp/sessions/se"));
    assert_eq!(session_url(&None, &s("se"), Some(7)), None);
    assert_eq!(session_url(&s("sp"), &None, None), None);
}

#[test]
fn notice_prefers_last_reply() {
    let n = finalized_notice(&fin(s("  all done  "), 2, 1));
    assert_eq!(n.body, "all done");
    assert_eq!(n.link, s("https://cohub.run/spaces/sp/sessions/se?turn=3"));
    let long = "y".repeat(120);
    let n = finalized_notice(&fin(Some(long), 2, 1));
    assert_eq!(n.body.chars().count(), 100);
}

#[test]
fn notice_falls_back_to_counts() {
    assert_eq!(finalized_notice(&fin(None, 1, 1)).body, "1 step · 1 tool");
    assert_eq!(finalized_notice(&fin(s(""), 3, 0)).body, "3 steps · 0 tools");
    let mut f = fin(None, 1, 2);
    f.space_id = None;
    let n = finalized_notice(&f);
    assert_eq!(n.body, "1 step · 2 tools");
    assert_eq!(n.link, None);
}

#[test]
fn account_of_me() {
    let a = account_from_me(&me(s("Alice"), s("https://a/png")));
    assert_eq!((a.uuid.as_str(), a.display_name.as_str()), ("uuid-1", "Alice"));
    assert_eq!(a.avatar_url, s("https://a/png"));
    let a = account_from_me(&me(None, s("")));
    assert_eq!(a.display_name, "uuid-1");
    assert_eq!(a.avatar_url, None);
    let bare = MeResponse { uuid: "u2".to_string(), profile: None };
    assert_eq!(display_name_of(&bare), "u2");
}

#[test]
fn space_ids_in_order() {
    let spaces = vec![space("a", None), space("b", None)];
    assert_eq!(space_ids_of(&spaces), vec!["a".to_string(), "b".to_string()]);
    assert!(space_ids_of(&vec![]).is_empty());
}

#[test]
fn space_filter() {
    let ctx = ListenerContext {
        account_uuid: s("me"),
        spaces: vec![space("mine", s("me")), space("theirs", s("them"))],
    };
    let all = settings(false, false);
    assert!(should_process_space(&all, None, &None));
    let only = settings(true, false);
    assert!(should_process_space(&only, Some(&ctx), &s("mine")));
    assert!(!should_process_space(&only, Some(&ctx), &s("theirs")));
    assert!(!should_process_space(&only, Some(&ctx), &s("unknown")));
    assert!(!should_process_space(&only, Some(&ctx), &None));
    assert!(!should_process_space(&only, None, &s("mine")));
}

#[test]
fn space_filter_needs_a_known_account() {
    let ctx = ListenerContext { account_uuid: None, spaces: vec![space("x", None)] };
    assert!(!should_process_space(&settings(true, false), Some(&ctx), &s("x")));
    let ctx = ListenerContext { account_uuid: s("me"), spaces: vec![space("x", None)] };
    assert!(!should_process_space(&settings(true, false), Some(&ctx), &s("x")));
}

#[test]
fn turn_filter() {
    let ctx = ListenerContext { account_uuid: s("me"), spaces: vec![] };
    assert!(should_process_turn(&settings(false, false), None, &None));
    let only = settings(false, true);
    assert!(should_process_turn(&only, Some(&ctx), &s("me")));
    assert!(!should_process_turn(&only, Some(&ctx), &s("you")));
    assert!(!should_process_turn(&only, Some(&ctx), &None));
    let anon = ListenerContext { account_uuid: None, spaces: vec![] };
    assert!(!should_process_turn(&only, Some(&anon), &s("me")));
}

#[test]
fn routes_finalized_by_settings() {
    let ctx = ListenerContext { account_uuid: s("me"), spaces: vec![space("sp", s("me"))] };
    let st = Settings { notify_finalized: false, ..Settings::default() };
    match route_event(WsEvent::TurnFinalized(fin(None, 1, 0)), &st, Some(&ctx)) {
        EventRoute::Finalized { fin, notice, toast, count_unread } => {
            assert_eq!(fin.turn_id, s("t"));
            assert!(notice.is_none());
            assert!(toast);
            assert!(count_unread);
        }
        _ => panic!("expected a finalized route"),
    }
    match route_event(WsEvent::TurnFinalized(fin(s("hi"), 1, 0)), &Settings::default(), None) {
        EventRoute::Finalized { notice, count_unread, .. } => {
            assert_eq!(notice.unwrap().body, "hi");
            assert!(!count_unread);
        }
        _ => panic!("expected a finalized route"),
    }
    let mut theirs = fin(None, 1, 0);
    theirs.user_uuid = s("them");
    assert!(matches!(
        route_event(WsEvent::TurnFinalized(theirs), &settings(false, true), Some(&ctx)),
        EventRoute::Drop
    ));
}

#[test]
fn routes_progress_and_activity() {
    let ctx = ListenerContext { account_uuid: s("me"), spaces: vec![space("sp", s("me"))] };
    let only = settings(true, false);
    let p = TurnProgress {
        space_id: s("other"),
        session_id: None,
        turn_id: None,
        llm_round: None,
        provider: None,
        model: None,
        steps: 1,
        tools: 0,
    };
    assert!(matches!(route_event(WsEvent::TurnProgress(p), &only, Some(&ctx)), EventRoute::Drop));
    let a = WsEvent::Activity { event_type: "x".to_string(), space_id: s("sp"), session_id: None };
    match route_event(a, &only, Some(&ctx)) {
        EventRoute::Activity { event_type, space_id, .. } => {
            assert_eq!(event_type, "x");
            assert_eq!(space_id, s("sp"));
        }
        _ => panic!("expected an activity route"),
    }
    assert!(matches!(route_event(WsEvent::Connected, &only, Some(&ctx)), EventRoute::Drop));
}

#[test]
fn badge_shows_unread_count() {
    let b = badge_view(3, true);
    assert_eq!(b.title, s("3"));
    assert_eq!(b.tooltip, "Cohub · 3 个对话完结待查看");
    let b = badge_view(3, false);
    assert_eq!(b.title, None);
    assert_eq!(b.tooltip, "Cohub · 3 个对话完结待查看");
    let b = badge_view(0, true);
    assert_eq!(b.title, None);
    assert_eq!(b.tooltip, "Cohub Desktop");
}

#[test]
fn tray_actions() {
    assert!(matches!(toggle_action(true), WindowAction::Hide));
    assert!(matches!(toggle_action(false), WindowAction::ShowAndFocus));
    assert!(matches!(menu_action("toggle"), MenuAction::Toggle));
    assert!(matches!(menu_action("quit"), MenuAction::Quit));
    assert!(matches!(menu_action("other"), MenuAction::Nothing));
}

#[test]
fn subscription_statuses() {
    let c = connecting_status(4);
    assert_eq!((c.phase.as_str(), c.space_count, c.error), ("connecting", 4, None));
    assert_eq!(connected_status(2).phase, "connected");
    let i = idle_status();
    assert_eq!((i.phase.as_str(), i.space_count), ("idle", 0));
    assert_eq!(i.error, s("当前账号没有可订阅的 Space"));
    assert_eq!(disconnected_status().phase, "disconnected");
    let step = token_failure(2, "not authenticated");
    let st = step.status.unwrap();
    assert_eq!(st.phase, "error");
    assert_eq!(st.error, s("获取 token 失败：not authenticated"));
    assert_eq!(step.log, "[ws] 获取 token 失败：not authenticated，停止重连");
    assert!(matches!(step.next, NextStep::Stop));
    let step = run_ended(2, &None);
    assert_eq!(step.log, "[ws] 连接正常关闭，5 秒后重连");
    assert!(step.status.is_none());
    assert!(matches!(step.next, NextStep::ReconnectAfterSecs(5)));
    let step = run_ended(2, &s("boom"));
    assert_eq!(step.log, "[ws] 连接断开：boom，5 秒后重连");
    assert!(matches!(step.next, NextStep::ReconnectAfterSecs(5)));
    let st = step.status.unwrap();
    assert_eq!((st.phase.as_str(), st.space_count), ("reconnecting", 2));
    assert_eq!(st.error, s("boom"));
}

#[test]
fn plan_follows_spaces_or_idles() {
    match subscription_plan(&vec![space("a", None), space("b", None)]) {
        SubscriptionPlan::Follow(ids) => assert_eq!(ids, vec!["a".to_string(), "b".to_string()]),
        _ => panic!("expected to follow"),
    }
    match subscription_plan(&vec![]) {
        SubscriptionPlan::Idle(st) => {
            assert_eq!((st.phase.as_str(), st.space_count), ("idle", 0));
            assert_eq!(st.error, s("当前账号没有可订阅的 Space"));
        }
        _ => panic!("expected idle"),
    }
}
