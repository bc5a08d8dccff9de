//! The realtime subscription to every space of the account, as a state
//! machine: the application sends the authentication frame, hands each frame
//! it receives to [`Subscription`], and performs the reaction it gets back.
use vstd::prelude::*;
use crate::errors::{WsError, WsErrorView};
use crate::events::{
    fresh_live, finalized_of, lifecycle_of, merged_llm_call, parse_finalized, parse_lifecycle,
    parse_patch, patch_of, progress_of, resolve_space, resolved_space, session_update,
    update_session_space, TurnFinalized, TurnFinalizedView, TurnLiveState, TurnLiveView, TurnProgress,
    TurnProgressView, WsEvent, WsEventView,
};
use crate::json::{
    as_str_of, get_in, json_get, json_quote, json_string_literal, opt_get, parse_json, parsed_json,
    str_at, str_field, str_of, Json,
};
use crate::table::StrTable;

verus! {

/// The authentication frame: `{"type":"auth","payload":{"token":..,"capabilities":[..]}}`
/// as serde_json writes it (keys in order).
pub open spec fn auth_frame_text(access_token: Seq<char>) -> Seq<char> {
    "{\"payload\":{\"capabilities\":[\"compact-stream\",\"room-subscription\"],\"token\":"@
        + json_string_literal(access_token) + "},\"type\":\"auth\"}"@
}

/// The rooms of a list of spaces, `"space:<id>"` each, as JSON array items.
pub open spec fn rooms_text(space_ids: Seq<Seq<char>>) -> Seq<char>
    decreases space_ids.len(),
{
    if space_ids.len() == 0 {
        Seq::empty()
    } else if space_ids.len() == 1 {
        json_string_literal("space:"@ + space_ids[0])
    } else {
        rooms_text(space_ids.drop_last()) + ","@ + json_string_literal("space:"@ + space_ids.last())
    }
}

/// The subscription frame: `{"type":"subscribe","payload":{"rooms":[..]}}`
/// as serde_json writes it (keys in order).
pub open spec fn subscribe_frame_text(space_ids: Seq<Seq<char>>) -> Seq<char> {
    "{\"payload\":{\"rooms\":["@ + rooms_text(space_ids) + "]},\"type\":\"subscribe\"}"@
}

/// Builds the authentication frame for an access token.
pub fn auth_frame(access_token: &str) -> (r: String)
    ensures
        r@ == auth_frame_text(access_token@),
{
    let mut r = String::from_str(
        "{\"payload\":{\"capabilities\":[\"compact-stream\",\"room-subscription\"],\"token\":",
    );
    r.append(json_quote(access_token).as_str());
    r.append("},\"type\":\"auth\"}");
    r
}

fn room_literal(space_id: &String) -> (r: String)
    ensures
        r@ == json_string_literal("space:"@ + space_id@),
{
    let mut room = String::from_str("space:");
    room.append(space_id.as_str());
    json_quote(room.as_str())
}

/// Builds the subscription frame for a list of spaces.
pub fn subscribe_frame(space_ids: &Vec<String>) -> (r: String)
    ensures
        r@ == subscribe_frame_text(space_ids.deep_view()),
{
    let ghost ids = space_ids.deep_view();
    let mut r = String::from_str("{\"payload\":{\"rooms\":[");
    let ghost head = r@;
    let mut i: usize = 0;
    assert(ids.take(0) =~= Seq::<Seq<char>>::empty());
    while i < space_ids.len()
        invariant
            i <= space_ids@.len(),
            ids == space_ids.deep_view(),
            r@ == head + rooms_text(ids.take(i as int)),
        decreases space_ids@.len() - i,
    {
        proof {
            assert(ids.take(i + 1).drop_last() =~= ids.take(i as int));
            assert(ids.take(i + 1).last() == ids[i as int]);
            assert(ids[i as int] == space_ids@[i as int]@);
        }
        if i > 0 {
            r.append(",");
        }
        let room = room_literal(&space_ids[i]);
        r.append(room.as_str());
        proof {
            if i == 0 {
                assert(ids.take(1) =~= seq![ids[0]]);
                assert(r@ =~= head + rooms_text(ids.take(1)));
            } else {
                assert(r@ =~= head + rooms_text(ids.take(i + 1)));
            }
        }
        i = i + 1;
    }
    assert(ids.take(ids.len() as int) =~= ids);
    r.append("]},\"type\":\"subscribe\"}");
    r
}

/// What the application does with a frame it received.
pub enum Reaction {
    /// Nothing to do.
    Ignore,
    /// Send this text frame.
    Send(String),
    /// Hand this event to the application.
    Emit(WsEvent),
    /// The connection ended normally.
    Finish,
    /// The connection ends with this error.
    Fail(WsError),
}

pub enum ReactionView {
    Ignore,
    Send(Seq<char>),
    Emit(WsEventView),
    Finish,
    Fail(WsErrorView),
}

impl View for Reaction {
    type V = ReactionView;

    open spec fn view(&self) -> ReactionView {
        match self {
            Reaction::Ignore => ReactionView::Ignore,
            Reaction::Send(t) => ReactionView::Send(t@),
            Reaction::Emit(e) => ReactionView::Emit(e@),
            Reaction::Finish => ReactionView::Finish,
            Reaction::Fail(e) => ReactionView::Fail(e@),
        }
    }
}

/// The state of a subscription, as a value.
pub struct SubscriptionView {
    /// Whether the gateway has accepted the token.
    pub authed: bool,
    /// The spaces to subscribe to.
    pub space_ids: Seq<Seq<char>>,
    /// The accumulated state of each streaming turn, by turn id.
    pub live: Map<Seq<char>, TurnLiveView>,
    /// The space of each session seen so far.
    pub session_space: Map<Seq<char>, Seq<char>>,
}

/// The text type of an envelope, empty when it has none.
pub open spec fn event_type_of(envelope: Json) -> Seq<char> {
    match str_at(envelope, "type"@) {
        Some(t) => t,
        None => Seq::empty(),
    }
}

/// A turn id as a key: the id, or the empty text when there is none.
pub open spec fn turn_key(turn_id: Option<Seq<char>>) -> Seq<char> {
    match turn_id {
        Some(t) => t,
        None => Seq::empty(),
    }
}

/// `session.turn.lifecycle`: the turn's state (a fresh one, placed in the
/// event's resolved space, if the turn is new) takes the LLM call; its
/// progress is emitted.
pub open spec fn lifecycle_step(s: SubscriptionView, envelope: Json) -> (SubscriptionView, ReactionView) {
    match lifecycle_of(envelope) {
        None => (s, ReactionView::Ignore),
        Some((turn_id, p)) => {
            let m = session_update(s.session_space, p.session_id, p.space_id);
            let space_id = resolved_space(m, p.space_id, p.session_id);
            let key = turn_key(turn_id);
            let st0 = if s.live.contains_key(key) {
                s.live[key]
            } else {
                fresh_live(space_id, p.session_id)
            };
            let st = merged_llm_call(st0, p.llm_round, p.provider, p.model);
            (
                SubscriptionView { live: s.live.insert(key, st), session_space: m, ..s },
                ReactionView::Emit(WsEventView::TurnProgress(progress_of(st, turn_id))),
            )
        },
    }
}

/// `session.turn.patch`: the patch is folded into the turn's state; its
/// progress is emitted with the space resolved through the session.
pub open spec fn patch_step(s: SubscriptionView, envelope: Json) -> (SubscriptionView, ReactionView) {
    let (live, r) = patch_of(s.live, envelope);
    match r {
        None => (s, ReactionView::Ignore),
        Some((_turn_id, p)) => {
            let m = session_update(s.session_space, p.session_id, p.space_id);
            (
                SubscriptionView { live, session_space: m, ..s },
                ReactionView::Emit(
                    WsEventView::TurnProgress(
                        TurnProgressView { space_id: resolved_space(m, p.space_id, p.session_id), ..p },
                    ),
                ),
            )
        },
    }
}

/// `session.turn.finalized`: the turn's state is dropped and its snapshot
/// emitted with the space resolved through the session.
pub open spec fn finalized_step(s: SubscriptionView, envelope: Json) -> (SubscriptionView, ReactionView) {
    match finalized_of(envelope) {
        None => (s, ReactionView::Ignore),
        Some(f) => {
            let m = session_update(s.session_space, f.session_id, f.space_id);
            (
                SubscriptionView {
                    live: s.live.remove(turn_key(f.turn_id)),
                    session_space: m,
                    ..s
                },
                ReactionView::Emit(
                    WsEventView::TurnFinalized(
                        TurnFinalizedView { space_id: resolved_space(m, f.space_id, f.session_id), ..f },
                    ),
                ),
            )
        },
    }
}

/// Any other event: emitted as an activity, with its space resolved through its session.
pub open spec fn activity_step(s: SubscriptionView, envelope: Json, event_type: Seq<char>) -> (
    SubscriptionView,
    ReactionView,
) {
    let session_id = str_at(envelope, "sessionId"@);
    let space_id = str_at(envelope, "spaceId"@);
    let m = session_update(s.session_space, session_id, space_id);
    (
        SubscriptionView { session_space: m, ..s },
        ReactionView::Emit(
            WsEventView::Activity {
                event_type,
                space_id: resolved_space(m, space_id, session_id),
                session_id,
            },
        ),
    )
}

/// The text of a gateway `system.request.error`, or `auth failed`.
pub open spec fn request_error_text(envelope: Json) -> Seq<char> {
    match as_str_of(opt_get(json_get(envelope, "payload"@), "message"@)) {
        Some(m) => m,
        None => "auth failed"@,
    }
}

/// How the subscription reacts to an envelope.
pub open spec fn envelope_step(s: SubscriptionView, envelope: Json) -> (SubscriptionView, ReactionView) {
    let t = event_type_of(envelope);
    if t == "system.ready"@ {
        (s, ReactionView::Ignore)
    } else if t == "system.auth.ok"@ {
        (
            SubscriptionView { authed: true, ..s },
            ReactionView::Send(subscribe_frame_text(s.space_ids)),
        )
    } else if t == "system.request.error"@ {
        (s, ReactionView::Fail(WsErrorView::Auth(request_error_text(envelope))))
    } else if t == "system.subscribe.ok"@ {
        (s, ReactionView::Emit(WsEventView::Connected))
    } else if t == "system.pong"@ {
        (s, ReactionView::Ignore)
    } else if t == "session.turn.lifecycle"@ {
        lifecycle_step(s, envelope)
    } else if t == "session.turn.patch"@ {
        patch_step(s, envelope)
    } else if t == "session.turn.finalized"@ {
        finalized_step(s, envelope)
    } else {
        activity_step(s, envelope, t)
    }
}

/// How the subscription reacts to a text frame: a text that is not JSON is skipped.
pub open spec fn text_step(s: SubscriptionView, text: Seq<char>) -> (SubscriptionView, ReactionView) {
    match parsed_json(text) {
        Some(envelope) => envelope_step(s, envelope),
        None => (s, ReactionView::Ignore),
    }
}

/// How the subscription reacts to the peer closing the connection.
pub open spec fn close_step(s: SubscriptionView) -> ReactionView {
    if s.authed {
        ReactionView::Finish
    } else {
        ReactionView::Fail(WsErrorView::ClosedBeforeAuth)
    }
}

/// A subscription to the rooms of a list of spaces.
pub struct Subscription {
    authed: bool,
    space_ids: Vec<String>,
    live: StrTable<TurnLiveState>,
    session_space: StrTable<String>,
}

impl View for Subscription {
    type V = SubscriptionView;

    closed spec fn view(&self) -> SubscriptionView {
        SubscriptionView {
            authed: self.authed,
            space_ids: self.space_ids.deep_view(),
            live: self.live.map(),
            session_space: self.session_space.map(),
        }
    }
}

fn text_eq(s: &String, lit: &str) -> (r: bool)
    ensures
        r == (s@ == lit@),
{
    *s == String::from_str(lit)
}

impl Subscription {
    #[verifier::type_invariant]
    spec fn inv(self) -> bool {
        self.live.wf() && self.session_space.wf()
    }

    /// A subscription that has not been accepted yet, with the sessions whose
    /// spaces are known beforehand.
    pub fn new(space_ids: Vec<String>, initial_session_space: StrTable<String>) -> (r: Self)
        requires
            initial_session_space.wf(),
        ensures
            r@ == (SubscriptionView {
                authed: false,
                space_ids: space_ids.deep_view(),
                live: Map::empty(),
                session_space: initial_session_space.map(),
            }),
    {
        Subscription {
            authed: false,
            space_ids,
            live: StrTable::new(),
            session_space: initial_session_space,
        }
    }

    /// Reacts to the peer closing the connection.
    pub fn on_close(&self) -> (r: Reaction)
        ensures
            r@ == close_step(self@),
    {
        if self.authed {
            Reaction::Finish
        } else {
            Reaction::Fail(WsError::ClosedBeforeAuth)
        }
    }

    /// Reacts to a text frame.
    pub fn on_text(&mut self, text: &str) -> (r: Reaction)
        ensures
            (final(self)@, r@) == text_step(old(self)@, text@),
    {
        match parse_json(text) {
            Some(envelope) => self.on_envelope(&envelope),
            None => Reaction::Ignore,
        }
    }

    /// Reacts to an envelope.
    pub fn on_envelope(&mut self, envelope: &Json) -> (r: Reaction)
        ensures
            (final(self)@, r@) == envelope_step(old(self)@, *envelope),
    {
        proof {
            use_type_invariant(&*self);
        }
        let t = match str_field(envelope, "type") {
            Some(t) => t,
            None => String::new(),
        };
        if text_eq(&t, "system.ready") {
            Reaction::Ignore
        } else if text_eq(&t, "system.auth.ok") {
            self.authed = true;
            Reaction::Send(subscribe_frame(&self.space_ids))
        } else if text_eq(&t, "system.request.error") {
            let message = match str_of(get_in(envelope.get("payload"), "message")) {
                Some(m) => m,
                None => String::from_str("auth failed"),
            };
            Reaction::Fail(WsError::Auth(message))
        } else if text_eq(&t, "system.subscribe.ok") {
            Reaction::Emit(WsEvent::Connected)
        } else if text_eq(&t, "system.pong") {
            Reaction::Ignore
        } else {
            let mut live: StrTable<TurnLiveState> = StrTable::new();
            let mut sessions: StrTable<String> = StrTable::new();
            std::mem::swap(&mut self.live, &mut live);
            std::mem::swap(&mut self.session_space, &mut sessions);
            let r = if text_eq(&t, "session.turn.lifecycle") {
                on_lifecycle(&mut live, &mut sessions, envelope)
            } else if text_eq(&t, "session.turn.patch") {
                on_patch(&mut live, &mut sessions, envelope)
            } else if text_eq(&t, "session.turn.finalized") {
                on_finalized(&mut live, &mut sessions, envelope)
            } else {
                on_activity(&mut sessions, envelope, t)
            };
            std::mem::swap(&mut self.live, &mut live);
            std::mem::swap(&mut self.session_space, &mut sessions);
            r
        }
    }
}

fn on_lifecycle(
    live: &mut StrTable<TurnLiveState>,
    sessions: &mut StrTable<String>,
    envelope: &Json,
) -> (r: Reaction)
    requires
        old(live).wf(),
        old(sessions).wf(),
    ensures
        final(live).wf(),
        final(sessions).wf(),
        ({
            let s = SubscriptionView {
                authed: false,
                space_ids: Seq::empty(),
                live: old(live).map(),
                session_space: old(sessions).map(),
            };
            let (s2, rv) = lifecycle_step(s, *envelope);
            s2.live == final(live).map() && s2.session_space == final(sessions).map() && rv == r@
        }),
{
    match parse_lifecycle(envelope) {
        None => Reaction::Ignore,
        Some((turn_id, progress)) => {
            update_session_space(sessions, &progress.session_id, &progress.space_id);
            let space_id = resolve_space(sessions, progress.space_id, &progress.session_id);
            let key = match &turn_id {
                Some(t) => t.clone(),
                None => String::new(),
            };
            let mut state = match live.take(key.as_str()) {
                Some(st) => st,
                None => TurnLiveState::new(space_id, progress.session_id),
            };
            state.merge_llm_call(progress.llm_round, progress.provider, progress.model);
            let p = state.progress(turn_id);
            live.insert(key, state);
            Reaction::Emit(WsEvent::TurnProgress(p))
        },
    }
}

fn on_patch(
    live: &mut StrTable<TurnLiveState>,
    sessions: &mut StrTable<String>,
    envelope: &Json,
) -> (r: Reaction)
    requires
        old(live).wf(),
        old(sessions).wf(),
    ensures
        final(live).wf(),
        final(sessions).wf(),
        ({
            let s = SubscriptionView {
                authed: false,
                space_ids: Seq::empty(),
                live: old(live).map(),
                session_space: old(sessions).map(),
            };
            let (s2, rv) = patch_step(s, *envelope);
            s2.live == final(live).map() && s2.session_space == final(sessions).map() && rv == r@
        }),
{
    match parse_patch(envelope, live) {
        None => Reaction::Ignore,
        Some((_turn_id, progress)) => {
            update_session_space(sessions, &progress.session_id, &progress.space_id);
            let space_id = resolve_space(sessions, progress.space_id, &progress.session_id);
            Reaction::Emit(WsEvent::TurnProgress(TurnProgress { space_id, ..progress }))
        },
    }
}

fn on_finalized(
    live: &mut StrTable<TurnLiveState>,
    sessions: &mut StrTable<String>,
    envelope: &Json,
) -> (r: Reaction)
    requires
        old(live).wf(),
        old(sessions).wf(),
    ensures
        final(live).wf(),
        final(sessions).wf(),
        ({
            let s = SubscriptionView {
                authed: false,
                space_ids: Seq::empty(),
                live: old(live).map(),
                session_space: old(sessions).map(),
            };
            let (s2, rv) = finalized_step(s, *envelope);
            s2.live == final(live).map() && s2.session_space == final(sessions).map() && rv == r@
        }),
{
    match parse_finalized(envelope) {
        None => Reaction::Ignore,
        Some(fin) => {
            update_session_space(sessions, &fin.session_id, &fin.space_id);
            let space_id = resolve_space(sessions, fin.space_id, &fin.session_id);
            let key = match &fin.turn_id {
                Some(t) => t.clone(),
                None => String::new(),
            };
            let _ = live.take(key.as_str());
            Reaction::Emit(WsEvent::TurnFinalized(TurnFinalized { space_id, ..fin }))
        },
    }
}

fn on_activity(sessions: &mut StrTable<String>, envelope: &Json, event_type: String) -> (r: Reaction)
    requires
        old(sessions).wf(),
    ensures
        final(sessions).wf(),
        ({
            let s = SubscriptionView {
                authed: false,
                space_ids: Seq::empty(),
                live: Map::empty(),
                session_space: old(sessions).map(),
            };
            let (s2, rv) = activity_step(s, *envelope, event_type@);
            s2.session_space == final(sessions).map() && rv == r@
        }),
{
    let session_id = str_field(envelope, "sessionId");
    let space_id = str_field(envelope, "spaceId");
    update_session_space(sessions, &session_id, &space_id);
    let space_id = resolve_space(sessions, space_id, &session_id);
    Reaction::Emit(WsEvent::Activity { event_type, space_id, session_id })
}

} // verus!
