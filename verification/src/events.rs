//! Events of the realtime gateway, and the per-turn state they accumulate.
//!
//! Live counts follow the web client: `steps` is the number of distinct
//! `messageOrdinal` values seen for a turn, `tools` the number of distinct
//! `tool_use` block ids. Token usage and duration are only known once the turn
//! is finalized.
use std::collections::HashSet;
use vstd::prelude::*;
use crate::json::{
    as_bool_of, as_str_of, as_u64_of, bool_of, get_in, json_get, opt_get, str_at, str_field, str_of,
    text_is, u64_at, u64_field, u64_of, Json,
};
use crate::table::StrTable;

verus! {

broadcast use vstd::std_specs::hash::group_hash_axioms;

/// Progress of a turn that is still streaming.
pub struct TurnProgress {
    pub space_id: Option<String>,
    pub session_id: Option<String>,
    pub turn_id: Option<String>,
    pub llm_round: Option<u64>,
    pub provider: Option<String>,
    pub model: Option<String>,
    pub steps: u64,
    pub tools: u64,
}

pub struct TurnProgressView {
    pub space_id: Option<Seq<char>>,
    pub session_id: Option<Seq<char>>,
    pub turn_id: Option<Seq<char>>,
    pub llm_round: Option<u64>,
    pub provider: Option<Seq<char>>,
    pub model: Option<Seq<char>>,
    pub steps: nat,
    pub tools: nat,
}

impl View for TurnProgress {
    type V = TurnProgressView;

    open spec fn view(&self) -> TurnProgressView {
        TurnProgressView {
            space_id: self.space_id.deep_view(),
            session_id: self.session_id.deep_view(),
            turn_id: self.turn_id.deep_view(),
            llm_round: self.llm_round,
            provider: self.provider.deep_view(),
            model: self.model.deep_view(),
            steps: self.steps as nat,
            tools: self.tools as nat,
        }
    }
}

/// Snapshot of a finished turn (from `session.turn.finalized`, `payload.turn`).
pub struct TurnFinalized {
    pub space_id: Option<String>,
    pub session_id: Option<String>,
    pub turn_id: Option<String>,
    pub sequence: Option<u64>,
    pub status: Option<String>,
    pub provider: Option<String>,
    pub model: Option<String>,
    pub message_count: u64,
    pub tool_call_count: u64,
    pub usage_input: u64,
    pub usage_output: u64,
    pub usage_cache_read: u64,
    pub duration_ms: Option<u64>,
    /// Text of the last reply (`intermediateSummary.lastMessageText`, else `assistantText`).
    pub last_text: Option<String>,
    pub has_error: bool,
    /// The user who started the turn (`turn.userUuid`).
    pub user_uuid: Option<String>,
}

pub struct TurnFinalizedView {
    pub space_id: Option<Seq<char>>,
    pub session_id: Option<Seq<char>>,
    pub turn_id: Option<Seq<char>>,
    pub sequence: Option<u64>,
    pub status: Option<Seq<char>>,
    pub provider: Option<Seq<char>>,
    pub model: Option<Seq<char>>,
    pub message_count: u64,
    pub tool_call_count: u64,
    pub usage_input: u64,
    pub usage_output: u64,
    pub usage_cache_read: u64,
    pub duration_ms: Option<u64>,
    pub last_text: Option<Seq<char>>,
    pub has_error: bool,
    pub user_uuid: Option<Seq<char>>,
}

impl View for TurnFinalized {
    type V = TurnFinalizedView;

    open spec fn view(&self) -> TurnFinalizedView {
        TurnFinalizedView {
            space_id: self.space_id.deep_view(),
            session_id: self.session_id.deep_view(),
            turn_id: self.turn_id.deep_view(),
            sequence: self.sequence,
            status: self.status.deep_view(),
            provider: self.provider.deep_view(),
            model: self.model.deep_view(),
            message_count: self.message_count,
            tool_call_count: self.tool_call_count,
            usage_input: self.usage_input,
            usage_output: self.usage_output,
            usage_cache_read: self.usage_cache_read,
            duration_ms: self.duration_ms,
            last_text: self.last_text.deep_view(),
            has_error: self.has_error,
            user_uuid: self.user_uuid.deep_view(),
        }
    }
}

/// What the subscription hands to the application.
pub enum WsEvent {
    /// The room subscription is established.
    Connected,
    /// Any other event: its type and where it happened.
    Activity { event_type: String, space_id: Option<String>, session_id: Option<String> },
    TurnProgress(TurnProgress),
    TurnFinalized(TurnFinalized),
}

pub enum WsEventView {
    Connected,
    Activity {
        event_type: Seq<char>,
        space_id: Option<Seq<char>>,
        session_id: Option<Seq<char>>,
    },
    TurnProgress(TurnProgressView),
    TurnFinalized(TurnFinalizedView),
}

impl View for WsEvent {
    type V = WsEventView;

    open spec fn view(&self) -> WsEventView {
        match self {
            WsEvent::Connected => WsEventView::Connected,
            WsEvent::Activity { event_type, space_id, session_id } => WsEventView::Activity {
                event_type: event_type@,
                space_id: space_id.deep_view(),
                session_id: session_id.deep_view(),
            },
            WsEvent::TurnProgress(p) => WsEventView::TurnProgress(p@),
            WsEvent::TurnFinalized(f) => WsEventView::TurnFinalized(f@),
        }
    }
}

/// The accumulated state of one streaming turn, as a value.
pub struct TurnLiveView {
    pub space_id: Option<Seq<char>>,
    pub session_id: Option<Seq<char>>,
    pub llm_round: Option<u64>,
    pub provider: Option<Seq<char>>,
    pub model: Option<Seq<char>>,
    /// The `messageOrdinal` values seen.
    pub ordinals: Set<u64>,
    /// The ids of the `tool_use` blocks seen.
    pub tool_ids: Set<Seq<char>>,
}

/// The state of a turn before any event has been folded in.
pub open spec fn fresh_live(space_id: Option<Seq<char>>, session_id: Option<Seq<char>>) -> TurnLiveView {
    TurnLiveView {
        space_id,
        session_id,
        llm_round: None,
        provider: None,
        model: None,
        ordinals: Set::empty(),
        tool_ids: Set::empty(),
    }
}

/// The progress that a turn state reports.
pub open spec fn progress_of(s: TurnLiveView, turn_id: Option<Seq<char>>) -> TurnProgressView {
    TurnProgressView {
        space_id: s.space_id,
        session_id: s.session_id,
        turn_id,
        llm_round: s.llm_round,
        provider: s.provider,
        model: s.model,
        steps: s.ordinals.len(),
        tools: s.tool_ids.len(),
    }
}

/// Takes over the round of an LLM call, and its provider and model where given.
pub open spec fn merged_llm_call(
    s: TurnLiveView,
    llm_round: Option<u64>,
    provider: Option<Seq<char>>,
    model: Option<Seq<char>>,
) -> TurnLiveView {
    TurnLiveView {
        llm_round,
        provider: if provider is Some { provider } else { s.provider },
        model: if model is Some { model } else { s.model },
        ..s
    }
}

/// Fills in where the turn happened, where it is not known yet.
pub open spec fn with_origin(
    s: TurnLiveView,
    space_id: Option<Seq<char>>,
    session_id: Option<Seq<char>>,
) -> TurnLiveView {
    TurnLiveView {
        space_id: if s.space_id is None { space_id } else { s.space_id },
        session_id: if s.session_id is None { session_id } else { s.session_id },
        ..s
    }
}

/// Accumulated state of one streaming turn.
pub struct TurnLiveState {
    space_id: Option<String>,
    session_id: Option<String>,
    llm_round: Option<u64>,
    provider: Option<String>,
    model: Option<String>,
    ordinals: HashSet<u64>,
    tool_ids: Vec<String>,
}

impl View for TurnLiveState {
    type V = TurnLiveView;

    closed spec fn view(&self) -> TurnLiveView {
        TurnLiveView {
            space_id: self.space_id.deep_view(),
            session_id: self.session_id.deep_view(),
            llm_round: self.llm_round,
            provider: self.provider.deep_view(),
            model: self.model.deep_view(),
            ordinals: self.ordinals@,
            tool_ids: self.tool_ids.deep_view().to_set(),
        }
    }
}

impl TurnLiveState {
    #[verifier::type_invariant]
    spec fn inv(self) -> bool {
        &&& self.ordinals@.finite()
        &&& self.tool_ids.deep_view().no_duplicates()
    }

    /// A turn state with nothing folded in yet.
    pub fn new(space_id: Option<String>, session_id: Option<String>) -> (r: Self)
        ensures
            r@ == fresh_live(space_id.deep_view(), session_id.deep_view()),
    {
        let r = TurnLiveState {
            space_id,
            session_id,
            llm_round: None,
            provider: None,
            model: None,
            ordinals: HashSet::new(),
            tool_ids: Vec::new(),
        };
        assert(r.tool_ids.deep_view() =~= Seq::<Seq<char>>::empty());
        assert(r@.tool_ids =~= Set::<Seq<char>>::empty());
        r
    }

    /// The progress this state reports for a turn id.
    pub fn progress(&self, turn_id: Option<String>) -> (r: TurnProgress)
        ensures
            r@ == progress_of(self@, turn_id.deep_view()),
    {
        proof {
            use_type_invariant(&*self);
            self.tool_ids.deep_view().unique_seq_to_set();
        }
        let steps = self.ordinals.len();
        let tools = self.tool_ids.len();
        TurnProgress {
            space_id: self.space_id.clone(),
            session_id: self.session_id.clone(),
            turn_id,
            llm_round: self.llm_round,
            provider: self.provider.clone(),
            model: self.model.clone(),
            steps: steps as u64,
            tools: tools as u64,
        }
    }

    /// Folds in an LLM call: its round always, its provider and model where given.
    pub fn merge_llm_call(&mut self, llm_round: Option<u64>, provider: Option<String>, model: Option<String>)
        ensures
            final(self)@ == merged_llm_call(old(self)@, llm_round, provider.deep_view(), model.deep_view()),
    {
        proof {
            use_type_invariant(&*self);
        }
        self.llm_round = llm_round;
        if provider.is_some() {
            self.provider = provider;
        }
        if model.is_some() {
            self.model = model;
        }
    }

    /// Fills in where the turn happened, where it is not known yet.
    pub fn fill_origin(&mut self, space_id: Option<String>, session_id: Option<String>)
        ensures
            final(self)@ == with_origin(old(self)@, space_id.deep_view(), session_id.deep_view()),
    {
        proof {
            use_type_invariant(&*self);
        }
        if self.space_id.is_none() {
            self.space_id = space_id;
        }
        if self.session_id.is_none() {
            self.session_id = session_id;
        }
    }

    /// Records a `messageOrdinal`.
    pub fn record_ordinal(&mut self, ordinal: u64)
        ensures
            final(self)@ == (TurnLiveView { ordinals: old(self)@.ordinals.insert(ordinal), ..old(self)@ }),
    {
        proof {
            use_type_invariant(&*self);
        }
        let mut ords: HashSet<u64> = HashSet::new();
        std::mem::swap(&mut self.ordinals, &mut ords);
        ords.insert(ordinal);
        std::mem::swap(&mut self.ordinals, &mut ords);
    }

    /// Records the id of a `tool_use` block.
    pub fn record_tool(&mut self, id: String)
        ensures
            final(self)@ == (TurnLiveView { tool_ids: old(self)@.tool_ids.insert(id@), ..old(self)@ }),
    {
        proof {
            use_type_invariant(&*self);
        }
        let mut list: Vec<String> = Vec::new();
        std::mem::swap(&mut self.tool_ids, &mut list);
        let ghost before = list.deep_view();
        let mut i: usize = 0;
        let mut seen = false;
        while i < list.len() && !seen
            invariant
                i <= list@.len(),
                before == list.deep_view(),
                !seen ==> forall|j: int| 0 <= j < i ==> before[j] != id@,
                seen ==> before.contains(id@),
            decreases list@.len() - i,
        {
            if list[i] == id {
                assert(before[i as int] == id@);
                seen = true;
            }
            i = i + 1;
        }
        if seen {
            assert(before.to_set().insert(id@) =~= before.to_set());
        } else {
            list.push(id);
            proof {
                assert(list.deep_view() =~= before.push(id@));
                before.lemma_push_to_set_commute(id@);
                assert forall|a: int, b: int|
                    0 <= a < b < list.deep_view().len() implies list.deep_view()[a]
                    != list.deep_view()[b] by {
                    if b == before.len() {
                        assert(before[a] != id@);
                    }
                }
            }
        }
        std::mem::swap(&mut self.tool_ids, &mut list);
    }
}

/// The ids of the `tool_use` blocks that a list of patch operations carries,
/// added to `ids` (an operation `{o, p, v}` carries one when `v` is an object
/// of type `tool_use` with a string `id`).
pub open spec fn op_tool_id(op: Json) -> Option<Seq<char>> {
    match json_get(op, "v"@) {
        Some(v) => if v is Object && str_at(v, "type"@) == Some("tool_use"@) {
            str_at(v, "id"@)
        } else {
            None
        },
        None => None,
    }
}

pub open spec fn add_tool_ids(ids: Set<Seq<char>>, ops: Seq<Json>) -> Set<Seq<char>>
    decreases ops.len(),
{
    if ops.len() == 0 {
        ids
    } else {
        let next = match op_tool_id(ops[0]) {
            Some(id) => ids.insert(id),
            None => ids,
        };
        add_tool_ids(next, ops.drop_first())
    }
}

/// The map from sessions to spaces after an event that names them: it learns
/// the pair when both are given and non-empty.
pub open spec fn session_update(
    m: Map<Seq<char>, Seq<char>>,
    session_id: Option<Seq<char>>,
    space_id: Option<Seq<char>>,
) -> Map<Seq<char>, Seq<char>> {
    match (session_id, space_id) {
        (Some(a), Some(b)) => if a.len() > 0 && b.len() > 0 {
            m.insert(a, b)
        } else {
            m
        },
        _ => m,
    }
}

/// The space of an event: its own, else the one known for its session.
pub open spec fn resolved_space(
    m: Map<Seq<char>, Seq<char>>,
    space_id: Option<Seq<char>>,
    session_id: Option<Seq<char>>,
) -> Option<Seq<char>> {
    match space_id {
        Some(s) => Some(s),
        None => match session_id {
            Some(k) => if m.contains_key(k) {
                Some(m[k])
            } else {
                None
            },
            None => None,
        },
    }
}

/// Learns which space a session belongs to, when an event names both.
pub fn update_session_space(
    map: &mut StrTable<String>,
    session_id: &Option<String>,
    space_id: &Option<String>,
)
    requires
        old(map).wf(),
    ensures
        final(map).wf(),
        final(map).map() == session_update(old(map).map(), session_id.deep_view(), space_id.deep_view()),
{
    match (session_id, space_id) {
        (Some(sid), Some(spid)) => {
            if !sid.as_str().is_empty() && !spid.as_str().is_empty() {
                map.insert(sid.clone(), spid.clone());
            }
        },
        _ => {},
    }
}

/// The map after learning that each of `sessions`, in order, belongs to `space_id`.
pub open spec fn sessions_in_space(
    m: Map<Seq<char>, Seq<char>>,
    sessions: Seq<Seq<char>>,
    space_id: Seq<char>,
) -> Map<Seq<char>, Seq<char>>
    decreases sessions.len(),
{
    if sessions.len() == 0 {
        m
    } else {
        sessions_in_space(m, sessions.drop_last(), space_id).insert(sessions.last(), space_id)
    }
}

/// Records that each listed session belongs to a space (the sessions of the
/// space, as the API lists them, known before any event arrives).
pub fn record_space_sessions(map: &mut StrTable<String>, space_id: &String, sessions: Vec<String>)
    requires
        old(map).wf(),
    ensures
        final(map).wf(),
        final(map).map() == sessions_in_space(old(map).map(), sessions.deep_view(), space_id@),
{
    let ghost ids = sessions.deep_view();
    let mut i: usize = 0;
    assert(ids.take(0) =~= Seq::<Seq<char>>::empty());
    while i < sessions.len()
        invariant
            i <= sessions@.len(),
            ids == sessions.deep_view(),
            map.wf(),
            map.map() == sessions_in_space(old(map).map(), ids.take(i as int), space_id@),
        decreases sessions@.len() - i,
    {
        proof {
            assert(ids.take(i + 1).drop_last() =~= ids.take(i as int));
            assert(ids.take(i + 1).last() == ids[i as int]);
        }
        map.insert(sessions[i].clone(), space_id.clone());
        i = i + 1;
    }
    assert(ids.take(ids.len() as int) =~= ids);
}

/// The space of an event: `space_id` if given, else the space known for `session_id`.
pub fn resolve_space(
    map: &StrTable<String>,
    space_id: Option<String>,
    session_id: &Option<String>,
) -> (r: Option<String>)
    requires
        map.wf(),
    ensures
        r.deep_view() == resolved_space(map.map(), space_id.deep_view(), session_id.deep_view()),
{
    match space_id {
        Some(s) => Some(s),
        None => match session_id {
            Some(k) => match map.get(k.as_str()) {
                Some(v) => Some(v.clone()),
                None => None,
            },
            None => None,
        },
    }
}

/// What `session.turn.lifecycle` reports: nothing unless its phase is
/// `llm_call_started`; else the turn id and the progress it carries.
pub open spec fn lifecycle_of(envelope: Json) -> Option<(Option<Seq<char>>, TurnProgressView)> {
    match json_get(envelope, "payload"@) {
        None => None,
        Some(payload) => if str_at(payload, "phase"@) != Some("llm_call_started"@) {
            None
        } else {
            let turn_id = str_at(payload, "turnId"@);
            Some(
                (
                    turn_id,
                    TurnProgressView {
                        space_id: str_at(envelope, "spaceId"@),
                        session_id: str_at(envelope, "sessionId"@),
                        turn_id,
                        llm_round: u64_at(payload, "llmRound"@),
                        provider: str_at(payload, "provider"@),
                        model: str_at(payload, "model"@),
                        steps: 0,
                        tools: 0,
                    },
                ),
            )
        },
    }
}

/// Reads a `session.turn.lifecycle` event.
pub fn parse_lifecycle(envelope: &Json) -> (r: Option<(Option<String>, TurnProgress)>)
    ensures
        match r {
            Some((t, p)) => lifecycle_of(*envelope) == Some((t.deep_view(), p@)),
            None => lifecycle_of(*envelope) is None,
        },
{
    let payload = match envelope.get("payload") {
        Some(p) => p,
        None => return None,
    };
    let phase = str_field(payload, "phase");
    if !text_is(&phase, "llm_call_started") {
        return None;
    }
    let turn_id = str_field(payload, "turnId");
    let progress = TurnProgress {
        space_id: str_field(envelope, "spaceId"),
        session_id: str_field(envelope, "sessionId"),
        turn_id: turn_id.clone(),
        llm_round: u64_field(payload, "llmRound"),
        provider: str_field(payload, "provider"),
        model: str_field(payload, "model"),
        steps: 0,
        tools: 0,
    };
    Some((turn_id, progress))
}

/// A turn state after a patch: its `messageOrdinal` recorded, and the ids of
/// the `tool_use` blocks among its `ops`.
pub open spec fn patched(s: TurnLiveView, payload: Json) -> TurnLiveView {
    let s1 = match u64_at(payload, "messageOrdinal"@) {
        Some(o) => TurnLiveView { ordinals: s.ordinals.insert(o), ..s },
        None => s,
    };
    match json_get(payload, "ops"@) {
        Some(Json::Array(ops)) => TurnLiveView { tool_ids: add_tool_ids(s1.tool_ids, ops@), ..s1 },
        _ => s1,
    }
}

/// What `session.turn.patch` does to the live turns, and the progress it
/// reports: nothing without a payload that names its turn; else the turn's
/// state (a fresh one if the turn is new) takes the event's space and session
/// where it has none, records the patch, and reports its progress.
pub open spec fn patch_of(states: Map<Seq<char>, TurnLiveView>, envelope: Json) -> (
    Map<Seq<char>, TurnLiveView>,
    Option<(Option<Seq<char>>, TurnProgressView)>,
) {
    match json_get(envelope, "payload"@) {
        None => (states, None),
        Some(payload) => match str_at(payload, "turnId"@) {
            None => (states, None),
            Some(turn_id) => {
                let space_id = str_at(envelope, "spaceId"@);
                let session_id = str_at(envelope, "sessionId"@);
                let s0 = if states.contains_key(turn_id) {
                    states[turn_id]
                } else {
                    fresh_live(space_id, session_id)
                };
                let s = patched(with_origin(s0, space_id, session_id), payload);
                (states.insert(turn_id, s), Some((Some(turn_id), progress_of(s, Some(turn_id)))))
            },
        },
    }
}

/// An optional (turn id, progress) pair, as a value.
pub open spec fn progress_pair_view(r: Option<(Option<String>, TurnProgress)>) -> Option<
    (Option<Seq<char>>, TurnProgressView),
> {
    match r {
        Some((t, p)) => Some((t.deep_view(), p@)),
        None => None,
    }
}

/// The id of the `tool_use` block that a patch operation carries, if any.
pub fn op_tool_id_of(op: &Json) -> (r: Option<String>)
    ensures
        r.deep_view() == op_tool_id(*op),
{
    match op.get("v") {
        Some(v) => {
            if v.is_object() && text_is(&str_field(v, "type"), "tool_use") {
                str_field(v, "id")
            } else {
                None
            }
        },
        None => None,
    }
}

proof fn lemma_add_tool_ids_step(ids: Set<Seq<char>>, ops: Seq<Json>, i: int)
    requires
        0 <= i < ops.len(),
    ensures
        add_tool_ids(ids, ops.skip(i)) == add_tool_ids(
            match op_tool_id(ops[i]) {
                Some(id) => ids.insert(id),
                None => ids,
            },
            ops.skip(i + 1),
        ),
{
    assert(ops.skip(i).drop_first() =~= ops.skip(i + 1));
    assert(ops.skip(i)[0] == ops[i]);
}

/// Reads a `session.turn.patch` event into the live turn states.
pub fn parse_patch(envelope: &Json, states: &mut StrTable<TurnLiveState>) -> (r: Option<
    (Option<String>, TurnProgress),
>)
    requires
        old(states).wf(),
    ensures
        final(states).wf(),
        (final(states).map(), progress_pair_view(r)) == patch_of(old(states).map(), *envelope),
{
    let payload = match envelope.get("payload") {
        Some(p) => p,
        None => return None,
    };
    let turn_id = match str_field(payload, "turnId") {
        Some(t) => t,
        None => return None,
    };
    let space_id = str_field(envelope, "spaceId");
    let session_id = str_field(envelope, "sessionId");
    let mut state = match states.take(turn_id.as_str()) {
        Some(st) => st,
        None => TurnLiveState::new(space_id.clone(), session_id.clone()),
    };
    state.fill_origin(space_id, session_id);
    match u64_field(payload, "messageOrdinal") {
        Some(o) => state.record_ordinal(o),
        None => {},
    }
    let ghost s1 = state@;
    match payload.get("ops") {
        Some(Json::Array(ops)) => {
            let mut i: usize = 0;
            assert(ops@.skip(0) =~= ops@);
            while i < ops.len()
                invariant
                    i <= ops@.len(),
                    state@ == (TurnLiveView { tool_ids: state@.tool_ids, ..s1 }),
                    add_tool_ids(state@.tool_ids, ops@.skip(i as int)) == add_tool_ids(
                        s1.tool_ids,
                        ops@,
                    ),
                decreases ops@.len() - i,
            {
                proof {
                    lemma_add_tool_ids_step(state@.tool_ids, ops@, i as int);
                }
                match op_tool_id_of(&ops[i]) {
                    Some(id) => state.record_tool(id),
                    None => {},
                }
                i = i + 1;
            }
            assert(ops@.skip(ops@.len() as int) =~= Seq::<Json>::empty());
        },
        _ => {},
    }
    let progress = state.progress(Some(turn_id.clone()));
    states.insert(turn_id.clone(), state);
    Some((Some(turn_id), progress))
}

/// Keeps a text only when it is not empty.
pub open spec fn non_empty(t: Option<Seq<char>>) -> Option<Seq<char>> {
    match t {
        Some(s) => if s.len() > 0 {
            Some(s)
        } else {
            None
        },
        None => None,
    }
}

/// The first of two optional values that is present.
pub open spec fn first_of<T>(a: Option<T>, b: Option<T>) -> Option<T> {
    match a {
        Some(x) => Some(x),
        None => b,
    }
}

/// A count, zero when absent.
pub open spec fn count_or_zero(n: Option<u64>) -> u64 {
    match n {
        Some(x) => x,
        None => 0,
    }
}

/// What `session.turn.finalized` reports: nothing without `payload.turn`;
/// else the snapshot read from the turn and its `intermediateSummary`.
pub open spec fn finalized_of(envelope: Json) -> Option<TurnFinalizedView> {
    match opt_get(json_get(envelope, "payload"@), "turn"@) {
        None => None,
        Some(turn) => {
            let summary = json_get(turn, "intermediateSummary"@);
            let usage = opt_get(summary, "usage"@);
            Some(
                TurnFinalizedView {
                    space_id: str_at(envelope, "spaceId"@),
                    session_id: first_of(str_at(turn, "sessionId"@), str_at(envelope, "sessionId"@)),
                    turn_id: str_at(turn, "id"@),
                    sequence: u64_at(turn, "sequence"@),
                    status: str_at(turn, "status"@),
                    provider: str_at(turn, "provider"@),
                    model: str_at(turn, "model"@),
                    message_count: count_or_zero(as_u64_of(opt_get(summary, "messageCount"@))),
                    tool_call_count: count_or_zero(as_u64_of(opt_get(summary, "toolCallCount"@))),
                    usage_input: count_or_zero(as_u64_of(opt_get(usage, "input"@))),
                    usage_output: count_or_zero(as_u64_of(opt_get(usage, "output"@))),
                    usage_cache_read: count_or_zero(as_u64_of(opt_get(usage, "cacheRead"@))),
                    duration_ms: first_of(
                        as_u64_of(opt_get(summary, "durationMs"@)),
                        u64_at(turn, "durationMs"@),
                    ),
                    last_text: first_of(
                        non_empty(as_str_of(opt_get(summary, "lastMessageText"@))),
                        non_empty(str_at(turn, "assistantText"@)),
                    ),
                    has_error: match as_bool_of(opt_get(summary, "hasError"@)) {
                        Some(b) => b,
                        None => false,
                    },
                    user_uuid: str_at(turn, "userUuid"@),
                },
            )
        },
    }
}

fn non_empty_text(t: Option<String>) -> (r: Option<String>)
    ensures
        r.deep_view() == non_empty(t.deep_view()),
{
    match t {
        Some(s) => if s.as_str().is_empty() {
            None
        } else {
            Some(s)
        },
        None => None,
    }
}

fn or_count(n: Option<u64>) -> (r: u64)
    ensures
        r == count_or_zero(n),
{
    match n {
        Some(x) => x,
        None => 0,
    }
}

/// Reads a `session.turn.finalized` event.
pub fn parse_finalized(envelope: &Json) -> (r: Option<TurnFinalized>)
    ensures
        match r {
            Some(f) => finalized_of(*envelope) == Some(f@),
            None => finalized_of(*envelope) is None,
        },
{
    let turn = match get_in(envelope.get("payload"), "turn") {
        Some(t) => t,
        None => return None,
    };
    let summary = turn.get("intermediateSummary");
    let usage = get_in(summary, "usage");
    let last_text = match non_empty_text(str_of(get_in(summary, "lastMessageText"))) {
        Some(t) => Some(t),
        None => non_empty_text(str_field(turn, "assistantText")),
    };
    let session_id = match str_field(turn, "sessionId") {
        Some(s) => Some(s),
        None => str_field(envelope, "sessionId"),
    };
    let duration_ms = match u64_of(get_in(summary, "durationMs")) {
        Some(d) => Some(d),
        None => u64_field(turn, "durationMs"),
    };
    let has_error = match bool_of(get_in(summary, "hasError")) {
        Some(b) => b,
        None => false,
    };
    Some(
        TurnFinalized {
            space_id: str_field(envelope, "spaceId"),
            session_id,
            turn_id: str_field(turn, "id"),
            sequence: u64_field(turn, "sequence"),
            status: str_field(turn, "status"),
            provider: str_field(turn, "provider"),
            model: str_field(turn, "model"),
            message_count: or_count(u64_of(get_in(summary, "messageCount"))),
            tool_call_count: or_count(u64_of(get_in(summary, "toolCallCount"))),
            usage_input: or_count(u64_of(get_in(usage, "input"))),
            usage_output: or_count(u64_of(get_in(usage, "output"))),
            usage_cache_read: or_count(u64_of(get_in(usage, "cacheRead"))),
            duration_ms,
            last_text,
            has_error,
            user_uuid: str_field(turn, "userUuid"),
        },
    )
}

} // verus!
