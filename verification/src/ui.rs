//! What the application decides around the subscription: which events reach
//! the user, what a notification and the tray show, and the statuses of the
//! subscription task.
use vstd::prelude::*;
use crate::api::{MeResponse, SpaceListItem};
use crate::events::{TurnFinalized, TurnProgress, WsEvent};
use crate::settings::Settings;
use crate::text::{append_decimal, decimal_text, preview_text, truncate_preview};

verus! {

/// The account that is logged in.
pub struct AccountInfo {
    pub uuid: String,
    pub display_name: String,
    pub avatar_url: Option<String>,
}

/// The name an account is shown by: its profile's display name, else its uuid.
pub open spec fn display_name_text(me: MeResponse) -> Seq<char> {
    match me.profile {
        Some(p) => match p.display_name {
            Some(d) => d@,
            None => me.uuid@,
        },
        None => me.uuid@,
    }
}

/// The avatar of an account: its profile's avatar URL, when not empty.
pub open spec fn avatar_text(me: MeResponse) -> Option<Seq<char>> {
    match me.profile {
        Some(p) => match p.avatar_url {
            Some(u) => if u@.len() > 0 {
                Some(u@)
            } else {
                None
            },
            None => None,
        },
        None => None,
    }
}

/// The name an account is shown by.
pub fn display_name_of(me: &MeResponse) -> (r: String)
    ensures
        r@ == display_name_text(*me),
{
    match &me.profile {
        Some(p) => match &p.display_name {
            Some(d) => d.clone(),
            None => me.uuid.clone(),
        },
        None => me.uuid.clone(),
    }
}

/// The account of an `/api/me` answer.
pub fn account_from_me(me: &MeResponse) -> (r: AccountInfo)
    ensures
        r.uuid@ == me.uuid@,
        r.display_name@ == display_name_text(*me),
        r.avatar_url.deep_view() == avatar_text(*me),
{
    let avatar_url = match &me.profile {
        Some(p) => match &p.avatar_url {
            Some(u) => if u.as_str().is_empty() {
                None
            } else {
                Some(u.clone())
            },
            None => None,
        },
        None => None,
    };
    AccountInfo { uuid: me.uuid.clone(), display_name: display_name_of(me), avatar_url }
}

/// The ids of a list of spaces, in order.
pub fn space_ids_of(spaces: &Vec<SpaceListItem>) -> (r: Vec<String>)
    ensures
        r.deep_view() == spaces@.map_values(|s: SpaceListItem| s.id@),
{
    let mut r: Vec<String> = Vec::new();
    let mut i: usize = 0;
    while i < spaces.len()
        invariant
            i <= spaces@.len(),
            r.deep_view() == spaces@.take(i as int).map_values(|s: SpaceListItem| s.id@),
        decreases spaces@.len() - i,
    {
        let ghost before = r.deep_view();
        r.push(spaces[i].id.clone());
        proof {
            assert(r.deep_view() =~= before.push(spaces@[i as int].id@));
            assert(spaces@.take(i + 1) =~= spaces@.take(i as int).push(spaces@[i as int]));
            assert(r.deep_view() =~= spaces@.take(i + 1).map_values(|s: SpaceListItem| s.id@));
        }
        i = i + 1;
    }
    assert(spaces@.take(spaces@.len() as int) =~= spaces@);
    r
}

/// The web link of a session, at a turn when its sequence is known:
/// `https://cohub.run/spaces/{space}/sessions/{session}?turn={sequence}`.
pub open spec fn session_url_text(
    space_id: Option<Seq<char>>,
    session_id: Option<Seq<char>>,
    sequence: Option<u64>,
) -> Option<Seq<char>> {
    match (space_id, session_id) {
        (Some(space), Some(session)) => Some(
            "https://cohub.run/spaces/"@ + space + "/sessions/"@ + session + match sequence {
                Some(n) => "?turn="@ + decimal_text(n as nat),
                None => Seq::empty(),
            },
        ),
        _ => None,
    }
}

/// Builds the web link of a session; none without both the space and the session.
pub fn session_url(space_id: &Option<String>, session_id: &Option<String>, sequence: Option<u64>) -> (r:
    Option<String>)
    ensures
        r.deep_view() == session_url_text(space_id.deep_view(), session_id.deep_view(), sequence),
{
    match (space_id, session_id) {
        (Some(space), Some(session)) => {
            let mut url = String::from_str("https://cohub.run/spaces/");
            url.append(space.as_str());
            url.append("/sessions/");
            url.append(session.as_str());
            let ghost base = url@;
            match sequence {
                Some(n) => {
                    url.append("?turn=");
                    append_decimal(&mut url, n);
                    assert(url@ =~= base + ("?turn="@ + decimal_text(n as nat)));
                },
                None => {
                    assert(url@ =~= base + Seq::<char>::empty());
                },
            }
            Some(url)
        },
        _ => None,
    }
}

/// `step` or `steps`, `tool` or `tools`: the plural ending of a count.
pub open spec fn plural_text(n: u64) -> Seq<char> {
    if n == 1 {
        Seq::empty()
    } else {
        "s"@
    }
}

/// `"{m} step(s) · {t} tool(s)"`.
pub open spec fn summary_label_text(messages: u64, tools: u64) -> Seq<char> {
    decimal_text(messages as nat) + " step"@ + plural_text(messages) + " · "@ + decimal_text(
        tools as nat,
    ) + " tool"@ + plural_text(tools)
}

/// A notification for a finished turn.
pub struct FinalizedNotice {
    /// The text of the notification.
    pub body: String,
    /// The page a click on it opens, when the turn's space and session are known.
    pub link: Option<String>,
}

/// The body of a finished turn's notification: a preview of its last reply
/// (at most 100 characters), or, without one, its counts.
pub open spec fn notice_body_text(fin: TurnFinalized) -> Seq<char> {
    match fin.last_text {
        Some(t) => if t@.len() > 0 {
            preview_text(t@, 100)
        } else {
            summary_label_text(fin.message_count, fin.tool_call_count)
        },
        None => summary_label_text(fin.message_count, fin.tool_call_count),
    }
}

fn append_plural(out: &mut String, n: u64)
    ensures
        final(out)@ == old(out)@ + plural_text(n),
{
    if n == 1 {
        assert(old(out)@ + Seq::<char>::empty() =~= old(out)@);
    } else {
        out.append("s");
    }
}

fn summary_label(messages: u64, tools: u64) -> (r: String)
    ensures
        r@ == summary_label_text(messages, tools),
{
    let mut s = String::new();
    append_decimal(&mut s, messages);
    s.append(" step");
    append_plural(&mut s, messages);
    s.append(" · ");
    append_decimal(&mut s, tools);
    s.append(" tool");
    append_plural(&mut s, tools);
    assert(s@ =~= summary_label_text(messages, tools));
    s
}

/// The notification of a finished turn.
pub fn finalized_notice(fin: &TurnFinalized) -> (r: FinalizedNotice)
    ensures
        r.body@ == notice_body_text(*fin),
        r.link.deep_view() == session_url_text(
            fin.space_id.deep_view(),
            fin.session_id.deep_view(),
            fin.sequence,
        ),
{
    let link = session_url(&fin.space_id, &fin.session_id, fin.sequence);
    let body = match &fin.last_text {
        Some(t) => if t.as_str().is_empty() {
            summary_label(fin.message_count, fin.tool_call_count)
        } else {
            truncate_preview(t.as_str(), 100)
        },
        None => summary_label(fin.message_count, fin.tool_call_count),
    };
    FinalizedNotice { body, link }
}

/// What the listener knows of the account: its uuid, and the spaces it sees.
pub struct ListenerContext {
    pub account_uuid: Option<String>,
    pub spaces: Vec<SpaceListItem>,
}

/// Whether the account owns a space: an account is known, and a listed space
/// has that id and the account's uuid as creator.
pub open spec fn owns_space(ctx: ListenerContext, space_id: Seq<char>) -> bool {
    match ctx.account_uuid {
        None => false,
        Some(a) => exists|i: int|
            0 <= i < ctx.spaces@.len() && #[trigger] ctx.spaces@[i].id@ == space_id
                && ctx.spaces@[i].user_uuid.deep_view() == Some(a@),
    }
}

/// Whether events of a space reach the user: all do unless only the account's
/// own spaces are followed; then a space must be known and owned.
pub open spec fn space_followed(
    settings: Settings,
    ctx: Option<ListenerContext>,
    space_id: Option<Seq<char>>,
) -> bool {
    if !settings.only_my_spaces {
        true
    } else {
        match (space_id, ctx) {
            (Some(sid), Some(c)) => owns_space(c, sid),
            _ => false,
        }
    }
}

/// Whether a finished turn reaches the user: all do unless only the account's
/// own turns are followed; then its user must be the account.
pub open spec fn turn_followed(
    settings: Settings,
    ctx: Option<ListenerContext>,
    user_uuid: Option<Seq<char>>,
) -> bool {
    if !settings.only_my_turns {
        true
    } else {
        match (user_uuid, ctx) {
            (Some(u), Some(c)) => c.account_uuid.deep_view() == Some(u),
            _ => false,
        }
    }
}

/// An optional context, as a value.
pub open spec fn opt_ctx(ctx: Option<&ListenerContext>) -> Option<ListenerContext> {
    match ctx {
        Some(c) => Some(*c),
        None => None,
    }
}

fn opt_text_eq(a: &Option<String>, b: &Option<String>) -> (r: bool)
    ensures
        r == (a.deep_view() == b.deep_view()),
{
    match (a, b) {
        (Some(x), Some(y)) => *x == *y,
        (None, None) => true,
        _ => false,
    }
}

/// Decides whether events of a space reach the user.
pub fn should_process_space(
    settings: &Settings,
    ctx: Option<&ListenerContext>,
    space_id: &Option<String>,
) -> (r: bool)
    ensures
        r == space_followed(*settings, opt_ctx(ctx), space_id.deep_view()),
{
    if !settings.only_my_spaces {
        return true;
    }
    let sid = match space_id {
        Some(s) => s,
        None => return false,
    };
    let c = match ctx {
        Some(c) => c,
        None => return false,
    };
    if c.account_uuid.is_none() {
        return false;
    }
    let mut i: usize = 0;
    while i < c.spaces.len()
        invariant
            i <= c.spaces@.len(),
            settings.only_my_spaces,
            space_id.deep_view() == Some(sid@),
            opt_ctx(ctx) == Some(*c),
            c.account_uuid is Some,
            forall|j: int|
                0 <= j < i ==> !(c.spaces@[j].id@ == sid@ && c.spaces@[j].user_uuid.deep_view()
                    == c.account_uuid.deep_view()),
        decreases c.spaces@.len() - i,
    {
        if c.spaces[i].id == *sid && opt_text_eq(&c.spaces[i].user_uuid, &c.account_uuid) {
            assert(c.spaces@[i as int].id@ == sid@);
            assert(c.spaces@[i as int].user_uuid.deep_view() == c.account_uuid.deep_view());
            assert(owns_space(*c, sid@));
            return true;
        }
        i = i + 1;
    }
    false
}

/// Decides whether a finished turn reaches the user.
pub fn should_process_turn(
    settings: &Settings,
    ctx: Option<&ListenerContext>,
    user_uuid: &Option<String>,
) -> (r: bool)
    ensures
        r == turn_followed(*settings, opt_ctx(ctx), user_uuid.deep_view()),
{
    if !settings.only_my_turns {
        return true;
    }
    let u = match user_uuid {
        Some(u) => u,
        None => return false,
    };
    match ctx {
        Some(c) => match &c.account_uuid {
            Some(a) => *a == *u,
            None => false,
        },
        None => false,
    }
}

/// What the application does with an event of the subscription.
pub enum EventRoute {
    /// Nothing reaches the user.
    Drop,
    /// Forward an activity.
    Activity { event_type: String, space_id: Option<String>, session_id: Option<String> },
    /// Forward the progress of a turn.
    Progress(TurnProgress),
    /// A finished turn: notify when `notice` is given, toast when `toast`,
    /// count it as unread when `count_unread`, and forward it.
    Finalized { fin: TurnFinalized, notice: Option<FinalizedNotice>, toast: bool, count_unread: bool },
}

/// Routes an event of the subscription by the settings and what the listener
/// knows. `Connected` is reported apart, as the subscription's status.
pub fn route_event(ev: WsEvent, settings: &Settings, ctx: Option<&ListenerContext>) -> (r: EventRoute)
    ensures
        match ev {
            WsEvent::Connected => r is Drop,
            WsEvent::Activity { event_type, space_id, session_id } => if space_followed(
                *settings,
                opt_ctx(ctx),
                space_id.deep_view(),
            ) {
                r == EventRoute::Activity { event_type, space_id, session_id }
            } else {
                r is Drop
            },
            WsEvent::TurnProgress(p) => if space_followed(
                *settings,
                opt_ctx(ctx),
                p.space_id.deep_view(),
            ) {
                r == EventRoute::Progress(p)
            } else {
                r is Drop
            },
            WsEvent::TurnFinalized(f) => if space_followed(
                *settings,
                opt_ctx(ctx),
                f.space_id.deep_view(),
            ) && turn_followed(*settings, opt_ctx(ctx), f.user_uuid.deep_view()) {
                r matches EventRoute::Finalized { fin, notice, toast, count_unread } && fin == f
                    && toast == settings.in_app_toast && count_unread == (ctx is Some) && (
                notice is Some <==> settings.notify_finalized) && (notice matches Some(n) ==> (
                n.body@ == notice_body_text(f) && n.link.deep_view() == session_url_text(
                    f.space_id.deep_view(),
                    f.session_id.deep_view(),
                    f.sequence,
                )))
            } else {
                r is Drop
            },
        },
{
    match ev {
        WsEvent::Connected => EventRoute::Drop,
        WsEvent::Activity { event_type, space_id, session_id } => {
            if should_process_space(settings, ctx, &space_id) {
                EventRoute::Activity { event_type, space_id, session_id }
            } else {
                EventRoute::Drop
            }
        },
        WsEvent::TurnProgress(p) => {
            if should_process_space(settings, ctx, &p.space_id) {
                EventRoute::Progress(p)
            } else {
                EventRoute::Drop
            }
        },
        WsEvent::TurnFinalized(f) => {
            if !should_process_space(settings, ctx, &f.space_id) || !should_process_turn(
                settings,
                ctx,
                &f.user_uuid,
            ) {
                return EventRoute::Drop;
            }
            let notice = if settings.notify_finalized {
                Some(finalized_notice(&f))
            } else {
                None
            };
            EventRoute::Finalized {
                fin: f,
                notice,
                toast: settings.in_app_toast,
                count_unread: ctx.is_some(),
            }
        },
    }
}

/// What the tray shows.
pub struct BadgeView {
    /// The title next to the icon: the unread count, or nothing.
    pub title: Option<String>,
    pub tooltip: String,
}

/// The tray title: the unread count when there is one and the badge is on.
pub open spec fn badge_title_text(unread: usize, tray_badge: bool) -> Option<Seq<char>> {
    if tray_badge && unread > 0 {
        Some(decimal_text(unread as nat))
    } else {
        None
    }
}

/// The tray tooltip: how many finished turns wait, or the application's name.
pub open spec fn badge_tooltip_text(unread: usize) -> Seq<char> {
    if unread > 0 {
        "Cohub · "@ + decimal_text(unread as nat) + " 个对话完结待查看"@
    } else {
        "Cohub Desktop"@
    }
}

/// What the tray shows for a number of unread finished turns.
pub fn badge_view(unread: usize, tray_badge: bool) -> (r: BadgeView)
    ensures
        r.title.deep_view() == badge_title_text(unread, tray_badge),
        r.tooltip@ == badge_tooltip_text(unread),
{
    let title = if tray_badge && unread > 0 {
        let mut t = String::new();
        append_decimal(&mut t, unread as u64);
        assert(t@ =~= decimal_text(unread as nat));
        Some(t)
    } else {
        None
    };
    let tooltip = if unread > 0 {
        let mut t = String::from_str("Cohub · ");
        append_decimal(&mut t, unread as u64);
        t.append(" 个对话完结待查看");
        t
    } else {
        String::from_str("Cohub Desktop")
    };
    BadgeView { title, tooltip }
}

/// What a click on the tray icon, or its menu entry, does to the main window.
pub enum WindowAction {
    Hide,
    ShowAndFocus,
}

/// Toggles the main window: a visible window hides, any other shows and takes focus.
pub fn toggle_action(visible: bool) -> (r: WindowAction)
    ensures
        visible ==> r is Hide,
        !visible ==> r is ShowAndFocus,
{
    if visible {
        WindowAction::Hide
    } else {
        WindowAction::ShowAndFocus
    }
}

/// What a tray menu entry does.
pub enum MenuAction {
    Toggle,
    Quit,
    Nothing,
}

/// The action of a tray menu entry, by its id.
pub fn menu_action(id: &str) -> (r: MenuAction)
    ensures
        id@ == "toggle"@ ==> r is Toggle,
        id@ == "quit"@ ==> r is Quit,
        id@ != "toggle"@ && id@ != "quit"@ ==> r is Nothing,
{
    proof {
        reveal_strlit("toggle");
        reveal_strlit("quit");
        assert("toggle"@.len() != "quit"@.len());
    }
    let s = String::from_str(id);
    if s == String::from_str("toggle") {
        MenuAction::Toggle
    } else if s == String::from_str("quit") {
        MenuAction::Quit
    } else {
        MenuAction::Nothing
    }
}

/// The status of the subscription task, as the front end shows it.
pub struct SubscriptionStatus {
    pub phase: String,
    pub space_count: usize,
    pub error: Option<String>,
}

fn status(phase: &str, space_count: usize, error: Option<String>) -> (r: SubscriptionStatus)
    ensures
        r.phase@ == phase@,
        r.space_count == space_count,
        r.error == error,
{
    SubscriptionStatus { phase: String::from_str(phase), space_count, error }
}

/// The task is connecting to the gateway.
pub fn connecting_status(space_count: usize) -> (r: SubscriptionStatus)
    ensures
        r.phase@ == "connecting"@,
        r.space_count == space_count,
        r.error is None,
{
    status("connecting", space_count, None)
}

/// The subscription is established.
pub fn connected_status(space_count: usize) -> (r: SubscriptionStatus)
    ensures
        r.phase@ == "connected"@,
        r.space_count == space_count,
        r.error is None,
{
    status("connected", space_count, None)
}

/// The account has no space to follow.
pub fn idle_status() -> (r: SubscriptionStatus)
    ensures
        r.phase@ == "idle"@,
        r.space_count == 0,
        r.error.deep_view() == Some("当前账号没有可订阅的 Space"@),
{
    status("idle", 0, Some(String::from_str("当前账号没有可订阅的 Space")))
}

/// The user logged out.
pub fn disconnected_status() -> (r: SubscriptionStatus)
    ensures
        r.phase@ == "disconnected"@,
        r.space_count == 0,
        r.error is None,
{
    status("disconnected", 0, None)
}

/// Seconds the subscription task waits before it reconnects.
pub const RECONNECT_DELAY_SECS: u64 = 5;

/// What the subscription task does after a step.
pub enum NextStep {
    /// End the task.
    Stop,
    /// Wait this many seconds, then connect again.
    ReconnectAfterSecs(u64),
}

/// A step of the subscription task: the status to show (if any), the line to
/// log, and what to do next.
pub struct SupervisorStep {
    pub status: Option<SubscriptionStatus>,
    pub log: String,
    pub next: NextStep,
}

/// No token could be had: the task shows the error, logs it, and stops.
pub fn token_failure(space_count: usize, message: &str) -> (r: SupervisorStep)
    ensures
        r.status matches Some(s) && s.phase@ == "error"@ && s.space_count == space_count
            && s.error.deep_view() == Some("获取 token 失败："@ + message@),
        r.log@ == "[ws] 获取 token 失败："@ + message@ + "，停止重连"@,
        r.next is Stop,
{
    let mut e = String::from_str("获取 token 失败：");
    e.append(message);
    let mut log = String::from_str("[ws] 获取 token 失败：");
    log.append(message);
    log.append("，停止重连");
    SupervisorStep { status: Some(status("error", space_count, Some(e))), log, next: NextStep::Stop }
}

/// A connection ended, normally (`error` is `None`) or with an error message:
/// the task logs it, shows a reconnecting status after an error, and
/// reconnects after five seconds either way.
pub fn run_ended(space_count: usize, error: &Option<String>) -> (r: SupervisorStep)
    ensures
        error is None ==> r.log@ == "[ws] 连接正常关闭，5 秒后重连"@ && r.status is None,
        error matches Some(m) ==> r.log@ == "[ws] 连接断开："@ + m@ + "，5 秒后重连"@,
        error matches Some(m) ==> (r.status matches Some(s) && s.phase@ == "reconnecting"@
            && s.space_count == space_count && s.error.deep_view() == Some(m@)),
        r.next == NextStep::ReconnectAfterSecs(RECONNECT_DELAY_SECS),
{
    match error {
        None => SupervisorStep {
            status: None,
            log: String::from_str("[ws] 连接正常关闭，5 秒后重连"),
            next: NextStep::ReconnectAfterSecs(RECONNECT_DELAY_SECS),
        },
        Some(m) => {
            let mut log = String::from_str("[ws] 连接断开：");
            log.append(m.as_str());
            log.append("，5 秒后重连");
            SupervisorStep {
                status: Some(status("reconnecting", space_count, Some(m.clone()))),
                log,
                next: NextStep::ReconnectAfterSecs(RECONNECT_DELAY_SECS),
            }
        },
    }
}

/// What to do once the spaces of the account are known.
pub enum SubscriptionPlan {
    /// No space: show this status and follow nothing.
    Idle(SubscriptionStatus),
    /// Follow these spaces.
    Follow(Vec<String>),
}

/// Chooses between following the account's spaces and going idle when it has none.
pub fn subscription_plan(spaces: &Vec<SpaceListItem>) -> (r: SubscriptionPlan)
    ensures
        spaces@.len() == 0 ==> (r matches SubscriptionPlan::Idle(s) && s.phase@ == "idle"@
            && s.space_count == 0 && s.error.deep_view() == Some("当前账号没有可订阅的 Space"@)),
        spaces@.len() > 0 ==> (r matches SubscriptionPlan::Follow(ids) && ids.deep_view()
            == spaces@.map_values(|s: SpaceListItem| s.id@)),
{
    if spaces.len() == 0 {
        SubscriptionPlan::Idle(idle_status())
    } else {
        SubscriptionPlan::Follow(space_ids_of(spaces))
    }
}

} // verus!
