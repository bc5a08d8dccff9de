//! Properties of the library that span several calls or hold of every input.
use vstd::prelude::*;
use crate::events::{
    add_tool_ids, finalized_of, lifecycle_of, op_tool_id, patch_of, patched, progress_of,
    resolved_space, session_update, with_origin, TurnLiveView, WsEventView,
};
use crate::json::{as_str_of, as_u64_of, json_get, opt_get, str_at, u64_at, Json};
use crate::settings::{member_or, settings_of_json};
use crate::subscription::{
    envelope_step, event_type_of, lifecycle_step, turn_key, ReactionView, SubscriptionView,
};
use crate::text::{decimal_text, preview_text, trimmed};
use crate::settings::Settings;
use crate::signal::{signal_step, SignalReactionView, SignalSubscriptionView, TurnSignalView};
use crate::ui::{
    badge_title_text, badge_tooltip_text, space_followed, turn_followed, ListenerContext,
};

verus! {

/// The tool ids that a list of patch operations carries.
pub open spec fn tool_ids_in(ops: Seq<Json>) -> Set<Seq<char>> {
    add_tool_ids(Set::empty(), ops)
}

/// Folding the tool ids of some operations into a set adds exactly the ids
/// they carry.
pub proof fn lemma_add_tool_ids_union(ids: Set<Seq<char>>, ops: Seq<Json>)
    ensures
        add_tool_ids(ids, ops) == ids.union(tool_ids_in(ops)),
    decreases ops.len(),
{
    if ops.len() > 0 {
        let rest = ops.drop_first();
        let next = match op_tool_id(ops[0]) {
            Some(id) => ids.insert(id),
            None => ids,
        };
        let next0 = match op_tool_id(ops[0]) {
            Some(id) => Set::<Seq<char>>::empty().insert(id),
            None => Set::<Seq<char>>::empty(),
        };
        lemma_add_tool_ids_union(next, rest);
        lemma_add_tool_ids_union(next0, rest);
        assert(add_tool_ids(ids, ops) == add_tool_ids(next, rest));
        assert(tool_ids_in(ops) == add_tool_ids(next0, rest));
        assert(next.union(tool_ids_in(rest)) =~= ids.union(next0.union(tool_ids_in(rest))));
    } else {
        assert(ids.union(Set::empty()) =~= ids);
    }
}

/// The tool ids a list of operations carries form a finite set.
pub proof fn lemma_tool_ids_in_finite(ops: Seq<Json>)
    ensures
        tool_ids_in(ops).finite(),
    decreases ops.len(),
{
    if ops.len() > 0 {
        let rest = ops.drop_first();
        let next0 = match op_tool_id(ops[0]) {
            Some(id) => Set::<Seq<char>>::empty().insert(id),
            None => Set::<Seq<char>>::empty(),
        };
        lemma_add_tool_ids_union(next0, rest);
        lemma_tool_ids_in_finite(rest);
        assert(tool_ids_in(ops) == next0.union(tool_ids_in(rest)));
    }
}

/// Folding a patch into a turn state twice is folding it once: ordinals and
/// tool ids are counted once each, however often they are reported.
pub proof fn lemma_patched_idempotent(s: TurnLiveView, payload: Json)
    ensures
        patched(patched(s, payload), payload) == patched(s, payload),
{
    let s1 = patched(s, payload);
    match u64_at(payload, "messageOrdinal"@) {
        Some(o) => {
            assert(s1.ordinals.insert(o) =~= s1.ordinals);
        },
        None => {},
    }
    match json_get(payload, "ops"@) {
        Some(Json::Array(ops)) => {
            let t = tool_ids_in(ops@);
            let before = match u64_at(payload, "messageOrdinal"@) {
                Some(o) => s.ordinals.insert(o),
                None => s.ordinals,
            };
            let s_mid = TurnLiveView { ordinals: before, ..s };
            lemma_add_tool_ids_union(s_mid.tool_ids, ops@);
            lemma_add_tool_ids_union(s1.tool_ids, ops@);
            assert(s1.tool_ids.union(t) =~= s1.tool_ids);
        },
        _ => {},
    }
    assert(patched(s1, payload) =~= s1);
}

/// A repeated `session.turn.patch` changes nothing more: the live turns and
/// the progress it reports are those of the first delivery.
pub proof fn law_patch_idempotent(states: Map<Seq<char>, TurnLiveView>, envelope: Json)
    ensures
        patch_of(patch_of(states, envelope).0, envelope) == patch_of(states, envelope),
{
    match json_get(envelope, "payload"@) {
        None => {},
        Some(payload) => match str_at(payload, "turnId"@) {
            None => {},
            Some(turn_id) => {
                let space_id = str_at(envelope, "spaceId"@);
                let session_id = str_at(envelope, "sessionId"@);
                let s0 = if states.contains_key(turn_id) {
                    states[turn_id]
                } else {
                    crate::events::fresh_live(space_id, session_id)
                };
                let w = with_origin(s0, space_id, session_id);
                let s = patched(w, payload);
                let m1 = states.insert(turn_id, s);
                assert(m1[turn_id] == s);
                assert(with_origin(s, space_id, session_id) == s);
                lemma_patched_idempotent(w, payload);
                assert(m1.insert(turn_id, s) =~= m1);
            },
        },
    }
}

/// A `session.turn.patch` never lowers the counts of a turn already followed:
/// steps and tools reported are at least those recorded before.
pub proof fn law_patch_counts_grow(states: Map<Seq<char>, TurnLiveView>, envelope: Json, turn_id: Seq<char>)
    requires
        states.contains_key(turn_id),
        states[turn_id].ordinals.finite(),
        states[turn_id].tool_ids.finite(),
        json_get(envelope, "payload"@) matches Some(payload) && str_at(payload, "turnId"@) == Some(
            turn_id,
        ),
    ensures
        patch_of(states, envelope).1 matches Some((_, p)) && p.steps >= states[turn_id].ordinals.len()
            && p.tools >= states[turn_id].tool_ids.len(),
{
    let payload = json_get(envelope, "payload"@)->0;
    let space_id = str_at(envelope, "spaceId"@);
    let session_id = str_at(envelope, "sessionId"@);
    let w = with_origin(states[turn_id], space_id, session_id);
    let s = patched(w, payload);
    let ords = match u64_at(payload, "messageOrdinal"@) {
        Some(o) => w.ordinals.insert(o),
        None => w.ordinals,
    };
    vstd::set_lib::lemma_len_subset(w.ordinals, ords);
    match json_get(payload, "ops"@) {
        Some(Json::Array(ops)) => {
            lemma_add_tool_ids_union(w.tool_ids, ops@);
            lemma_tool_ids_in_finite(ops@);
            vstd::set_lib::lemma_len_subset(w.tool_ids, w.tool_ids.union(tool_ids_in(ops@)));
        },
        _ => {},
    }
}

/// `session.turn.lifecycle` of a turn already followed keeps the counts that
/// patches accumulated: the progress it reports has the recorded steps and tools.
pub proof fn law_lifecycle_keeps_counts(s: SubscriptionView, envelope: Json)
    requires
        lifecycle_of(envelope) matches Some((t, _)) && s.live.contains_key(turn_key(t)),
    ensures
        lifecycle_step(s, envelope).1 matches ReactionView::Emit(WsEventView::TurnProgress(p))
            && p.steps == s.live[turn_key((lifecycle_of(envelope)->0).0)].ordinals.len()
            && p.tools == s.live[turn_key((lifecycle_of(envelope)->0).0)].tool_ids.len(),
{
}

proof fn lemma_types_distinct()
    ensures
        "session.turn.finalized"@ != "system.ready"@,
        "session.turn.finalized"@ != "system.auth.ok"@,
        "session.turn.finalized"@ != "system.request.error"@,
        "session.turn.finalized"@ != "system.subscribe.ok"@,
        "session.turn.finalized"@ != "system.pong"@,
        "session.turn.finalized"@ != "session.turn.lifecycle"@,
        "session.turn.finalized"@ != "session.turn.patch"@,
        "session.turn.finalized"@.len() > 0,
{
    reveal_strlit("session.turn.finalized");
    reveal_strlit("system.ready");
    reveal_strlit("system.auth.ok");
    reveal_strlit("system.request.error");
    reveal_strlit("system.subscribe.ok");
    reveal_strlit("system.pong");
    reveal_strlit("session.turn.lifecycle");
    reveal_strlit("session.turn.patch");
    assert("session.turn.finalized"@.len() != "system.ready"@.len());
    assert("session.turn.finalized"@.len() != "system.auth.ok"@.len());
    assert("session.turn.finalized"@.len() != "system.request.error"@.len());
    assert("session.turn.finalized"@.len() != "system.subscribe.ok"@.len());
    assert("session.turn.finalized"@.len() != "system.pong"@.len());
    assert("session.turn.finalized"@[13] != "session.turn.lifecycle"@[13]);
    assert("session.turn.finalized"@.len() != "session.turn.patch"@.len());
}

/// Whether an event type is handled as a plain activity.
pub open spec fn is_activity_type(t: Seq<char>) -> bool {
    &&& t != "system.ready"@
    &&& t != "system.auth.ok"@
    &&& t != "system.request.error"@
    &&& t != "system.subscribe.ok"@
    &&& t != "system.pong"@
    &&& t != "session.turn.lifecycle"@
    &&& t != "session.turn.patch"@
    &&& t != "session.turn.finalized"@
}

/// A finished turn whose event lacks `spaceId` is placed in the space that an
/// earlier event of its session named: after an activity that names session
/// `sid` in space `sp`, the finalized event of a turn of `sid` without a space
/// is reported in `sp`.
pub proof fn law_finalized_space_from_session(
    s: SubscriptionView,
    first: Json,
    second: Json,
    sid: Seq<char>,
    sp: Seq<char>,
)
    requires
        is_activity_type(event_type_of(first)),
        str_at(first, "sessionId"@) == Some(sid),
        str_at(first, "spaceId"@) == Some(sp),
        sid.len() > 0,
        sp.len() > 0,
        event_type_of(second) == "session.turn.finalized"@,
        finalized_of(second) matches Some(f) && f.session_id == Some(sid) && f.space_id is None,
    ensures
        envelope_step(envelope_step(s, first).0, second).1 matches ReactionView::Emit(
            WsEventView::TurnFinalized(f),
        ) && f.space_id == Some(sp),
{
    lemma_types_distinct();
    let s1 = envelope_step(s, first).0;
    assert(s1.session_space == s.session_space.insert(sid, sp));
}

/// The gateway is sent the subscription only once it has accepted the token:
/// whenever a frame is to be sent, the subscription is authenticated.
pub proof fn law_subscribe_only_when_authed(s: SubscriptionView, envelope: Json)
    ensures
        envelope_step(s, envelope).1 is Send ==> envelope_step(s, envelope).0.authed,
{
}

/// A `session.turn.finalized` event drops the live state of its turn and
/// leaves every other turn as it was.
pub proof fn law_finalized_forgets_turn(s: SubscriptionView, envelope: Json, other: Seq<char>)
    requires
        event_type_of(envelope) == "session.turn.finalized"@,
        finalized_of(envelope) is Some,
        other != turn_key(finalized_of(envelope)->0.turn_id),
    ensures
        !envelope_step(s, envelope).0.live.contains_key(turn_key(finalized_of(envelope)->0.turn_id)),
        envelope_step(s, envelope).0.live.contains_key(other) == s.live.contains_key(other),
        s.live.contains_key(other) ==> envelope_step(s, envelope).0.live[other] == s.live[other],
{
    lemma_types_distinct();
}

/// Once a session's space is learnt, an event of that session without a
/// space is placed in it.
pub proof fn law_session_space_remembered(
    m: Map<Seq<char>, Seq<char>>,
    sid: Seq<char>,
    sp: Seq<char>,
)
    requires
        sid.len() > 0,
        sp.len() > 0,
    ensures
        resolved_space(session_update(m, Some(sid), Some(sp)), None, Some(sid)) == Some(sp),
{
}

/// Settings stay readable as fields are added: in a settings object whose
/// fields are booleans, every field that is missing takes its default, and
/// every field that is present is taken as given.
pub proof fn law_settings_missing_fields_default(j: Json)
    requires
        j is Object,
        member_or(j, "only_my_spaces"@, false) is Some,
        member_or(j, "only_my_turns"@, false) is Some,
        member_or(j, "notify_finalized"@, true) is Some,
        member_or(j, "tray_badge"@, true) is Some,
        member_or(j, "in_app_toast"@, true) is Some,
    ensures
        settings_of_json(Some(j)).only_my_spaces == member_or(j, "only_my_spaces"@, false)->0,
        settings_of_json(Some(j)).only_my_turns == member_or(j, "only_my_turns"@, false)->0,
        settings_of_json(Some(j)).notify_finalized == member_or(j, "notify_finalized"@, true)->0,
        settings_of_json(Some(j)).tray_badge == member_or(j, "tray_badge"@, true)->0,
        settings_of_json(Some(j)).in_app_toast == member_or(j, "in_app_toast"@, true)->0,
        json_get(j, "only_my_spaces"@) is None ==> !settings_of_json(Some(j)).only_my_spaces,
        json_get(j, "only_my_turns"@) is None ==> !settings_of_json(Some(j)).only_my_turns,
        json_get(j, "notify_finalized"@) is None ==> settings_of_json(Some(j)).notify_finalized,
        json_get(j, "tray_badge"@) is None ==> settings_of_json(Some(j)).tray_badge,
        json_get(j, "in_app_toast"@) is None ==> settings_of_json(Some(j)).in_app_toast,
{
}

/// A preview never exceeds its length (for a length of at least one), and a
/// trimmed text that fits is shown whole.
pub proof fn law_preview_fits(text: Seq<char>, max: nat)
    requires
        max >= 1,
    ensures
        preview_text(text, max).len() <= max,
        trimmed(text).len() <= max ==> preview_text(text, max) == trimmed(text),
{
    reveal_strlit("…");
}

/// With neither listening filter on, every event reaches the user, whatever
/// the listener knows.
pub proof fn law_no_filter_follows_everything(
    settings: Settings,
    ctx: Option<ListenerContext>,
    space_id: Option<Seq<char>>,
    user_uuid: Option<Seq<char>>,
)
    requires
        !settings.only_my_spaces,
        !settings.only_my_turns,
    ensures
        space_followed(settings, ctx, space_id),
        turn_followed(settings, ctx, user_uuid),
{
}

/// The tray shows a count exactly when there are unread finished turns and
/// the badge is on.
pub proof fn law_badge_only_when_unread(unread: usize, tray_badge: bool)
    ensures
        badge_title_text(unread, tray_badge) is Some <==> (tray_badge && unread > 0),
{
}

/// The payload of an envelope.
pub open spec fn payload_of(envelope: Json) -> Json {
    json_get(envelope, "payload"@)->0
}

/// The tool ids that the `ops` of a patch payload carry.
pub open spec fn payload_tool_ids(payload: Json) -> Set<Seq<char>> {
    match json_get(payload, "ops"@) {
        Some(Json::Array(ops)) => tool_ids_in(ops@),
        _ => Set::empty(),
    }
}

/// The distinct `messageOrdinal` values of a run of patch envelopes.
pub open spec fn run_ordinals(envelopes: Seq<Json>) -> Set<u64>
    decreases envelopes.len(),
{
    if envelopes.len() == 0 {
        Set::empty()
    } else {
        let before = run_ordinals(envelopes.drop_last());
        match u64_at(payload_of(envelopes.last()), "messageOrdinal"@) {
            Some(o) => before.insert(o),
            None => before,
        }
    }
}

/// The distinct `tool_use` ids of a run of patch envelopes.
pub open spec fn run_tool_ids(envelopes: Seq<Json>) -> Set<Seq<char>>
    decreases envelopes.len(),
{
    if envelopes.len() == 0 {
        Set::empty()
    } else {
        run_tool_ids(envelopes.drop_last()).union(payload_tool_ids(payload_of(envelopes.last())))
    }
}

/// The live turns and the last report after a run of `session.turn.patch`
/// envelopes, each read as `parse_patch` reads it.
pub open spec fn patch_run(states: Map<Seq<char>, TurnLiveView>, envelopes: Seq<Json>) -> (
    Map<Seq<char>, TurnLiveView>,
    Option<(Option<Seq<char>>, crate::events::TurnProgressView)>,
)
    decreases envelopes.len(),
{
    if envelopes.len() == 0 {
        (states, None)
    } else {
        patch_of(patch_run(states, envelopes.drop_last()).0, envelopes.last())
    }
}

/// Whether every envelope of a run is a patch of turn `turn_id`.
pub open spec fn patches_of_turn(envelopes: Seq<Json>, turn_id: Seq<char>) -> bool {
    forall|i: int|
        0 <= i < envelopes.len() ==> json_get(#[trigger] envelopes[i], "payload"@) is Some
            && str_at(payload_of(envelopes[i]), "turnId"@) == Some(turn_id)
}

proof fn lemma_patch_run_state(
    states: Map<Seq<char>, TurnLiveView>,
    envelopes: Seq<Json>,
    turn_id: Seq<char>,
)
    requires
        !states.contains_key(turn_id),
        envelopes.len() >= 1,
        patches_of_turn(envelopes, turn_id),
    ensures
        patch_run(states, envelopes).0.contains_key(turn_id),
        patch_run(states, envelopes).0[turn_id].ordinals == run_ordinals(envelopes),
        patch_run(states, envelopes).0[turn_id].tool_ids == run_tool_ids(envelopes),
        patch_run(states, envelopes).1 == Some(
            (Some(turn_id), progress_of(patch_run(states, envelopes).0[turn_id], Some(turn_id))),
        ),
    decreases envelopes.len(),
{
    let init = envelopes.drop_last();
    let last = envelopes.last();
    assert(json_get(envelopes[envelopes.len() - 1], "payload"@) is Some);
    let payload = payload_of(last);
    let m = patch_run(states, init).0;
    if init.len() >= 1 {
        assert forall|i: int| 0 <= i < init.len() implies json_get(#[trigger] init[i], "payload"@)
            is Some && str_at(payload_of(init[i]), "turnId"@) == Some(turn_id) by {
            assert(init[i] == envelopes[i]);
        }
        lemma_patch_run_state(states, init, turn_id);
    } else {
        assert(m == states);
        assert(run_ordinals(init) =~= Set::<u64>::empty());
        assert(run_tool_ids(init) =~= Set::<Seq<char>>::empty());
    }
    let space_id = str_at(last, "spaceId"@);
    let session_id = str_at(last, "sessionId"@);
    let s0 = if m.contains_key(turn_id) {
        m[turn_id]
    } else {
        crate::events::fresh_live(space_id, session_id)
    };
    assert(s0.ordinals == run_ordinals(init));
    assert(s0.tool_ids == run_tool_ids(init));
    let w = with_origin(s0, space_id, session_id);
    let ords = match u64_at(payload, "messageOrdinal"@) {
        Some(o) => w.ordinals.insert(o),
        None => w.ordinals,
    };
    match json_get(payload, "ops"@) {
        Some(Json::Array(ops)) => {
            lemma_add_tool_ids_union(w.tool_ids, ops@);
        },
        _ => {
            assert(w.tool_ids.union(Set::<Seq<char>>::empty()) =~= w.tool_ids);
        },
    }
    let s = patched(w, payload);
    assert(s.ordinals == ords);
    assert(s.tool_ids == w.tool_ids.union(payload_tool_ids(payload)));
    assert(patch_run(states, envelopes) == patch_of(m, last));
}

/// Over a run of patches of one turn that was not followed before, the last
/// report counts as steps the distinct `messageOrdinal` values of the whole
/// run, and as tools the distinct `tool_use` ids of all its operations.
pub proof fn law_patch_run_counts_distinct(
    states: Map<Seq<char>, TurnLiveView>,
    envelopes: Seq<Json>,
    turn_id: Seq<char>,
)
    requires
        !states.contains_key(turn_id),
        envelopes.len() >= 1,
        patches_of_turn(envelopes, turn_id),
    ensures
        patch_run(states, envelopes).1 matches Some((t, p)) && t == Some(turn_id) && p.turn_id == Some(
            turn_id,
        ) && p.steps == run_ordinals(envelopes).len() && p.tools == run_tool_ids(envelopes).len(),
{
    lemma_patch_run_state(states, envelopes, turn_id);
}

proof fn lemma_lifecycle_type_distinct()
    ensures
        "session.turn.lifecycle"@ != "system.ready"@,
        "session.turn.lifecycle"@ != "system.auth.ok"@,
        "session.turn.lifecycle"@ != "system.request.error"@,
        "session.turn.lifecycle"@ != "system.subscribe.ok"@,
        "session.turn.lifecycle"@ != "system.pong"@,
        "session.turn.lifecycle"@.len() > 0,
{
    reveal_strlit("session.turn.lifecycle");
    reveal_strlit("system.ready");
    reveal_strlit("system.auth.ok");
    reveal_strlit("system.request.error");
    reveal_strlit("system.subscribe.ok");
    reveal_strlit("system.pong");
    assert("session.turn.lifecycle"@.len() != "system.ready"@.len());
    assert("session.turn.lifecycle"@.len() != "system.auth.ok"@.len());
    assert("session.turn.lifecycle"@.len() != "system.request.error"@.len());
    assert("session.turn.lifecycle"@.len() != "system.subscribe.ok"@.len());
    assert("session.turn.lifecycle"@.len() != "system.pong"@.len());
}

/// Whether a finished turn's `intermediateSummary` carries `hasError: true`.
pub open spec fn summary_flags_error(turn: Json) -> bool {
    json_get(turn, "intermediateSummary"@) matches Some(summary) && json_get(summary, "hasError"@)
        == Some(Json::Bool(true))
}

/// A finished turn is reported as failed exactly when its summary says so:
/// the snapshot's error flag is the boolean `hasError` of
/// `payload.turn.intermediateSummary`, and false when that member is absent
/// or not a boolean. The snapshot that the subscription emits carries the
/// same flag.
pub proof fn law_finalized_error_flag(s: SubscriptionView, envelope: Json, turn: Json)
    requires
        opt_get(json_get(envelope, "payload"@), "turn"@) == Some(turn),
    ensures
        finalized_of(envelope) matches Some(f) && f.has_error == summary_flags_error(turn),
        event_type_of(envelope) == "session.turn.finalized"@ ==> (envelope_step(s, envelope).1 matches ReactionView::Emit(
            WsEventView::TurnFinalized(f),
        ) && f.has_error == summary_flags_error(turn)),
        json_get(turn, "intermediateSummary"@) matches Some(summary) && json_get(summary, "hasError"@)
            == Some(Json::Bool(false)) ==> !finalized_of(envelope)->0.has_error,
        json_get(turn, "intermediateSummary"@) is None ==> !finalized_of(envelope)->0.has_error,
{
    lemma_types_distinct();
}

/// A `session.turn.lifecycle` event of an LLM call sets the turn's round to
/// the one it carries, whatever round the turn had recorded before: the
/// progress emitted and the turn's live state both have it.
pub proof fn law_lifecycle_sets_round(s: SubscriptionView, envelope: Json, payload: Json)
    requires
        event_type_of(envelope) == "session.turn.lifecycle"@,
        json_get(envelope, "payload"@) == Some(payload),
        str_at(payload, "phase"@) == Some("llm_call_started"@),
    ensures
        envelope_step(s, envelope).1 matches ReactionView::Emit(WsEventView::TurnProgress(p))
            && p.llm_round == u64_at(payload, "llmRound"@),
        envelope_step(s, envelope).0.live.contains_key(turn_key(str_at(payload, "turnId"@))),
        envelope_step(s, envelope).0.live[turn_key(str_at(payload, "turnId"@))].llm_round == u64_at(
            payload,
            "llmRound"@,
        ),
{
    lemma_lifecycle_type_distinct();
}

/// An LLM call reported by `session.turn.lifecycle` teaches the session's
/// space: after such an event naming session `sid` in space `sp`, the session
/// is known to be in `sp`, and the finalized event of a turn of `sid` that
/// comes without a space is reported in `sp`.
pub proof fn law_lifecycle_learns_session_space(
    s: SubscriptionView,
    first: Json,
    payload: Json,
    second: Json,
    sid: Seq<char>,
    sp: Seq<char>,
)
    requires
        event_type_of(first) == "session.turn.lifecycle"@,
        json_get(first, "payload"@) == Some(payload),
        str_at(payload, "phase"@) == Some("llm_call_started"@),
        str_at(first, "sessionId"@) == Some(sid),
        str_at(first, "spaceId"@) == Some(sp),
        sid.len() > 0,
        sp.len() > 0,
        event_type_of(second) == "session.turn.finalized"@,
        finalized_of(second) matches Some(f) && f.session_id == Some(sid) && f.space_id is None,
    ensures
        envelope_step(s, first).0.session_space.contains_key(sid),
        envelope_step(s, first).0.session_space[sid] == sp,
        envelope_step(envelope_step(s, first).0, second).1 matches ReactionView::Emit(
            WsEventView::TurnFinalized(f),
        ) && f.space_id == Some(sp),
{
    lemma_lifecycle_type_distinct();
    lemma_types_distinct();
    let s1 = envelope_step(s, first).0;
    assert(s1.session_space == s.session_space.insert(sid, sp));
}

/// With only the account's own turns followed, a finished turn reaches the
/// user only when its user is the account, whatever the space filter: a turn
/// of another user, or of no known user, is not followed.
pub proof fn law_only_my_turns(
    settings: Settings,
    ctx: Option<ListenerContext>,
    user_uuid: Option<Seq<char>>,
)
    requires
        settings.only_my_turns,
    ensures
        turn_followed(settings, ctx, user_uuid) <==> (user_uuid matches Some(u) && ctx matches Some(c)
            && c.account_uuid.deep_view() == Some(u)),
{
}

/// The tray tooltip announces every positive number of finished turns
/// waiting, as `Cohub · <n> 个对话完结待查看`, and names the application when
/// none wait.
pub proof fn law_badge_tooltip(unread: usize)
    ensures
        unread > 0 ==> badge_tooltip_text(unread) == "Cohub · "@ + decimal_text(unread as nat)
            + " 个对话完结待查看"@,
        unread == 0 ==> badge_tooltip_text(unread) == "Cohub Desktop"@,
        unread > 0 ==> badge_tooltip_text(unread) != badge_tooltip_text(0),
{
    reveal_strlit("Cohub · ");
    reveal_strlit("Cohub Desktop");
    if unread > 0 {
        let t = badge_tooltip_text(unread);
        assert(t[6] == "Cohub · "@[6]);
        assert(t[6] != "Cohub Desktop"@[6]);
    }
}

/// A finished turn's snapshot prefers its summary and falls back on the
/// turn and the envelope: the last reply is the summary's
/// `lastMessageText` when it is a non-empty text, else the turn's non-empty
/// `assistantText`; the duration is the summary's `durationMs`, else the
/// turn's; the session is the turn's `sessionId`, else the envelope's.
pub proof fn law_finalized_fallbacks(envelope: Json, turn: Json)
    requires
        opt_get(json_get(envelope, "payload"@), "turn"@) == Some(turn),
    ensures
        finalized_of(envelope) is Some,
        ({
            let f = finalized_of(envelope)->0;
            let summary = json_get(turn, "intermediateSummary"@);
            &&& (as_str_of(opt_get(summary, "lastMessageText"@)) matches Some(t) && t.len() > 0)
                ==> f.last_text == as_str_of(opt_get(summary, "lastMessageText"@))
            &&& !(as_str_of(opt_get(summary, "lastMessageText"@)) matches Some(t) && t.len() > 0)
                ==> (if str_at(turn, "assistantText"@) matches Some(a) && a.len() > 0 {
                f.last_text == str_at(turn, "assistantText"@)
            } else {
                f.last_text is None
            })
            &&& as_u64_of(opt_get(summary, "durationMs"@)) is Some ==> f.duration_ms == as_u64_of(
                opt_get(summary, "durationMs"@),
            )
            &&& as_u64_of(opt_get(summary, "durationMs"@)) is None ==> f.duration_ms == u64_at(
                turn,
                "durationMs"@,
            )
            &&& str_at(turn, "sessionId"@) is Some ==> f.session_id == str_at(turn, "sessionId"@)
            &&& str_at(turn, "sessionId"@) is None ==> f.session_id == str_at(envelope, "sessionId"@)
        }),
{
}

/// An LLM call replaces the provider and model that it names and keeps those
/// a turn already had where it names none.
pub proof fn law_lifecycle_provider_model(s: SubscriptionView, envelope: Json, payload: Json)
    requires
        event_type_of(envelope) == "session.turn.lifecycle"@,
        json_get(envelope, "payload"@) == Some(payload),
        str_at(payload, "phase"@) == Some("llm_call_started"@),
        s.live.contains_key(turn_key(str_at(payload, "turnId"@))),
    ensures
        ({
            let key = turn_key(str_at(payload, "turnId"@));
            let after = envelope_step(s, envelope).0.live[key];
            &&& str_at(payload, "provider"@) is Some ==> after.provider == str_at(payload, "provider"@)
            &&& str_at(payload, "provider"@) is None ==> after.provider == s.live[key].provider
            &&& str_at(payload, "model"@) is Some ==> after.model == str_at(payload, "model"@)
            &&& str_at(payload, "model"@) is None ==> after.model == s.live[key].model
            &&& after.ordinals == s.live[key].ordinals
            &&& after.tool_ids == s.live[key].tool_ids
        }),
{
    lemma_lifecycle_type_distinct();
}

/// With only the account's own spaces followed, an event reaches the user
/// exactly when it names a space that the listener knows, listed with the
/// account's uuid as its creator.
pub proof fn law_only_my_spaces(
    settings: Settings,
    ctx: Option<ListenerContext>,
    space_id: Option<Seq<char>>,
)
    requires
        settings.only_my_spaces,
    ensures
        space_followed(settings, ctx, space_id) <==> (space_id matches Some(sid) && ctx matches Some(c)
            && c.account_uuid is Some && exists|i: int|
            0 <= i < c.spaces@.len() && #[trigger] c.spaces@[i].id@ == sid
                && c.spaces@[i].user_uuid.deep_view() == c.account_uuid.deep_view()),
{
}

/// The tray title, when shown, is the unread count in decimal.
pub proof fn law_badge_title_is_count(unread: usize)
    ensures
        unread > 0 ==> badge_title_text(unread, true) == Some(decimal_text(unread as nat)),
{
}

/// The single-space client and the subscription of every space read an LLM
/// call alike: for a `session.turn.lifecycle` event of phase
/// `llm_call_started`, the round signal and the progress emitted name the
/// same turn and the round that the event carries.
pub proof fn law_signal_round_agrees(
    s: SubscriptionView,
    ss: SignalSubscriptionView,
    envelope: Json,
    payload: Json,
)
    requires
        event_type_of(envelope) == "session.turn.lifecycle"@,
        json_get(envelope, "payload"@) == Some(payload),
        str_at(payload, "phase"@) == Some("llm_call_started"@),
    ensures
        signal_step(ss, envelope).1 matches SignalReactionView::Emit(
            TurnSignalView::LlmRoundStarted { turn_id, llm_round, .. },
        ) && envelope_step(s, envelope).1 matches ReactionView::Emit(WsEventView::TurnProgress(p))
            && turn_id == str_at(payload, "turnId"@) && p.turn_id == turn_id
            && llm_round == u64_at(payload, "llmRound"@) && p.llm_round == llm_round,
        signal_step(ss, envelope).0 == ss,
{
    lemma_lifecycle_type_distinct();
    lemma_types_distinct();
}

/// The single-space client and the subscription of every space report the
/// end of a turn alike: for a `session.turn.finalized` event with
/// `payload.turn`, the end signal and the snapshot name the same turn and
/// status, those of `payload.turn`.
pub proof fn law_signal_finalized_agrees(
    s: SubscriptionView,
    ss: SignalSubscriptionView,
    envelope: Json,
    turn: Json,
)
    requires
        event_type_of(envelope) == "session.turn.finalized"@,
        opt_get(json_get(envelope, "payload"@), "turn"@) == Some(turn),
    ensures
        signal_step(ss, envelope).1 matches SignalReactionView::Emit(
            TurnSignalView::TurnFinalized { turn_id, status, .. },
        ) && envelope_step(s, envelope).1 matches ReactionView::Emit(WsEventView::TurnFinalized(f))
            && turn_id == str_at(turn, "id"@) && f.turn_id == turn_id
            && status == str_at(turn, "status"@) && f.status == status,
{
    lemma_types_distinct();
}

} // verus!
