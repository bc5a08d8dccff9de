//! The single-space realtime client: it follows one space
//! and reports two signals, the start of each LLM round and the end of a turn.
use vstd::prelude::*;
use crate::errors::{WsError, WsErrorView};
use crate::json::{
    get_in, json_get, parse_json, parsed_json, str_at, str_field, str_of,
    text_is, u64_at, u64_field, Json,
};
use crate::subscription::{event_type_of, request_error_text, subscribe_frame, subscribe_frame_text};
use crate::text::{append_decimal, decimal_text};

verus! {

/// One of the two signals the first client reports.
pub enum TurnSignal {
    /// `session.turn.lifecycle` with phase `llm_call_started`; `llm_round`
    /// grows with each model call, tool round trips included.
    LlmRoundStarted {
        session_id: Option<String>,
        turn_id: Option<String>,
        llm_round: Option<u64>,
        provider: Option<String>,
        model: Option<String>,
    },
    /// `session.turn.finalized`, with `payload.turn.status`.
    TurnFinalized { session_id: Option<String>, turn_id: Option<String>, status: Option<String> },
}

pub enum TurnSignalView {
    LlmRoundStarted {
        session_id: Option<Seq<char>>,
        turn_id: Option<Seq<char>>,
        llm_round: Option<u64>,
        provider: Option<Seq<char>>,
        model: Option<Seq<char>>,
    },
    TurnFinalized {
        session_id: Option<Seq<char>>,
        turn_id: Option<Seq<char>>,
        status: Option<Seq<char>>,
    },
}

impl View for TurnSignal {
    type V = TurnSignalView;

    open spec fn view(&self) -> TurnSignalView {
        match self {
            TurnSignal::LlmRoundStarted { session_id, turn_id, llm_round, provider, model } =>
                TurnSignalView::LlmRoundStarted {
                session_id: session_id.deep_view(),
                turn_id: turn_id.deep_view(),
                llm_round: *llm_round,
                provider: provider.deep_view(),
                model: model.deep_view(),
            },
            TurnSignal::TurnFinalized { session_id, turn_id, status } => TurnSignalView::TurnFinalized {
                session_id: session_id.deep_view(),
                turn_id: turn_id.deep_view(),
                status: status.deep_view(),
            },
        }
    }
}

/// The signal an envelope carries: none without a `type` or a `payload`;
/// a round start for a lifecycle event of phase `llm_call_started`; a turn end
/// for a finalized event that has `payload.turn`; none otherwise.
pub open spec fn signal_of(envelope: Json) -> Option<TurnSignalView> {
    match str_at(envelope, "type"@) {
        None => None,
        Some(t) => {
            let session_id = str_at(envelope, "sessionId"@);
            match json_get(envelope, "payload"@) {
                None => None,
                Some(payload) => if t == "session.turn.lifecycle"@ {
                    if str_at(payload, "phase"@) != Some("llm_call_started"@) {
                        None
                    } else {
                        Some(
                            TurnSignalView::LlmRoundStarted {
                                session_id,
                                turn_id: str_at(payload, "turnId"@),
                                llm_round: u64_at(payload, "llmRound"@),
                                provider: str_at(payload, "provider"@),
                                model: str_at(payload, "model"@),
                            },
                        )
                    }
                } else if t == "session.turn.finalized"@ {
                    match json_get(payload, "turn"@) {
                        None => None,
                        Some(turn) => Some(
                            TurnSignalView::TurnFinalized {
                                session_id,
                                turn_id: str_at(turn, "id"@),
                                status: str_at(turn, "status"@),
                            },
                        ),
                    }
                } else {
                    None
                },
            }
        },
    }
}

/// Reads the signal an envelope carries.
pub fn parse_turn_signal(envelope: &Json) -> (r: Option<TurnSignal>)
    ensures
        match r {
            Some(s) => signal_of(*envelope) == Some(s@),
            None => signal_of(*envelope) is None,
        },
{
    let event_type = match str_field(envelope, "type") {
        Some(t) => t,
        None => return None,
    };
    let session_id = str_field(envelope, "sessionId");
    let payload = match envelope.get("payload") {
        Some(p) => p,
        None => return None,
    };
    let t = Some(event_type);
    if text_is(&t, "session.turn.lifecycle") {
        if !text_is(&str_field(payload, "phase"), "llm_call_started") {
            return None;
        }
        Some(
            TurnSignal::LlmRoundStarted {
                session_id,
                turn_id: str_field(payload, "turnId"),
                llm_round: u64_field(payload, "llmRound"),
                provider: str_field(payload, "provider"),
                model: str_field(payload, "model"),
            },
        )
    } else if text_is(&t, "session.turn.finalized") {
        let turn = match payload.get("turn") {
            Some(x) => x,
            None => return None,
        };
        Some(
            TurnSignal::TurnFinalized {
                session_id,
                turn_id: str_field(turn, "id"),
                status: str_field(turn, "status"),
            },
        )
    } else {
        None
    }
}

/// What the application does with a frame it received.
pub enum SignalReaction {
    Ignore,
    Send(String),
    Emit(TurnSignal),
    Finish,
    Fail(WsError),
}

pub enum SignalReactionView {
    Ignore,
    Send(Seq<char>),
    Emit(TurnSignalView),
    Finish,
    Fail(WsErrorView),
}

impl View for SignalReaction {
    type V = SignalReactionView;

    open spec fn view(&self) -> SignalReactionView {
        match self {
            SignalReaction::Ignore => SignalReactionView::Ignore,
            SignalReaction::Send(t) => SignalReactionView::Send(t@),
            SignalReaction::Emit(s) => SignalReactionView::Emit(s@),
            SignalReaction::Finish => SignalReactionView::Finish,
            SignalReaction::Fail(e) => SignalReactionView::Fail(e@),
        }
    }
}

/// The state of a single-space subscription, as a value.
pub struct SignalSubscriptionView {
    pub authed: bool,
    pub subscribed: bool,
    pub space_id: Seq<char>,
}

/// How the single-space subscription reacts to an envelope.
pub open spec fn signal_step(s: SignalSubscriptionView, envelope: Json) -> (
    SignalSubscriptionView,
    SignalReactionView,
) {
    let t = event_type_of(envelope);
    if t == "system.ready"@ {
        (s, SignalReactionView::Ignore)
    } else if t == "system.auth.ok"@ {
        (
            SignalSubscriptionView { authed: true, ..s },
            SignalReactionView::Send(subscribe_frame_text(seq![s.space_id])),
        )
    } else if t == "system.request.error"@ {
        (s, SignalReactionView::Fail(WsErrorView::Auth(request_error_text(envelope))))
    } else if t == "system.subscribe.ok"@ {
        (SignalSubscriptionView { subscribed: true, ..s }, SignalReactionView::Ignore)
    } else if t == "system.pong"@ {
        (s, SignalReactionView::Ignore)
    } else {
        match signal_of(envelope) {
            Some(sig) => (s, SignalReactionView::Emit(sig)),
            None => (s, SignalReactionView::Ignore),
        }
    }
}

/// How the single-space subscription reacts to a text frame.
pub open spec fn signal_text_step(s: SignalSubscriptionView, text: Seq<char>) -> (
    SignalSubscriptionView,
    SignalReactionView,
) {
    match parsed_json(text) {
        Some(envelope) => signal_step(s, envelope),
        None => (s, SignalReactionView::Ignore),
    }
}

/// A subscription to the room of one space.
pub struct SignalSubscription {
    authed: bool,
    subscribed: bool,
    space_id: String,
}

impl View for SignalSubscription {
    type V = SignalSubscriptionView;

    closed spec fn view(&self) -> SignalSubscriptionView {
        SignalSubscriptionView {
            authed: self.authed,
            subscribed: self.subscribed,
            space_id: self.space_id@,
        }
    }
}

impl SignalSubscription {
    /// A subscription that has not been accepted yet.
    pub fn new(space_id: String) -> (r: Self)
        ensures
            r@ == (SignalSubscriptionView { authed: false, subscribed: false, space_id: space_id@ }),
    {
        SignalSubscription { authed: false, subscribed: false, space_id }
    }

    /// Reacts to the peer closing the connection: an error before the token
    /// was accepted, a normal end after.
    pub fn on_close(&self) -> (r: SignalReaction)
        ensures
            r@ == (if self@.authed {
                SignalReactionView::Finish
            } else {
                SignalReactionView::Fail(WsErrorView::ClosedBeforeAuth)
            }),
    {
        if self.authed {
            SignalReaction::Finish
        } else {
            SignalReaction::Fail(WsError::ClosedBeforeAuth)
        }
    }

    /// Reacts to a text frame.
    pub fn on_text(&mut self, text: &str) -> (r: SignalReaction)
        ensures
            (final(self)@, r@) == signal_text_step(old(self)@, text@),
    {
        match parse_json(text) {
            Some(envelope) => self.on_envelope(&envelope),
            None => SignalReaction::Ignore,
        }
    }

    /// Reacts to an envelope.
    pub fn on_envelope(&mut self, envelope: &Json) -> (r: SignalReaction)
        ensures
            (final(self)@, r@) == signal_step(old(self)@, *envelope),
    {
        let t = match str_field(envelope, "type") {
            Some(t) => Some(t),
            None => Some(String::new()),
        };
        if text_is(&t, "system.ready") {
            SignalReaction::Ignore
        } else if text_is(&t, "system.auth.ok") {
            self.authed = true;
            let rooms = vec![self.space_id.clone()];
            proof {
                assert(rooms.deep_view() =~= seq![self.space_id@]);
            }
            SignalReaction::Send(subscribe_frame(&rooms))
        } else if text_is(&t, "system.request.error") {
            let message = match str_of(get_in(envelope.get("payload"), "message")) {
                Some(m) => m,
                None => String::from_str("auth failed"),
            };
            SignalReaction::Fail(WsError::Auth(message))
        } else if text_is(&t, "system.subscribe.ok") {
            self.subscribed = true;
            SignalReaction::Ignore
        } else if text_is(&t, "system.pong") {
            SignalReaction::Ignore
        } else {
            match parse_turn_signal(envelope) {
                Some(sig) => SignalReaction::Emit(sig),
                None => SignalReaction::Ignore,
            }
        }
    }
}

/// An optional text, or the empty text.
pub open spec fn text_or_empty(t: Option<Seq<char>>) -> Seq<char> {
    match t {
        Some(s) => s,
        None => Seq::empty(),
    }
}

/// The log line of a signal.
pub open spec fn signal_log_text(s: TurnSignalView) -> Seq<char> {
    match s {
        TurnSignalView::LlmRoundStarted { llm_round, provider, model, .. } => "[turn] llmRound="@
            + match llm_round {
            Some(n) => decimal_text(n as nat),
            None => Seq::empty(),
        } + " provider="@ + text_or_empty(provider) + " model="@ + text_or_empty(model),
        TurnSignalView::TurnFinalized { status, .. } => "[turn] ✅ finalized status="@ + text_or_empty(
            status,
        ),
    }
}

fn append_opt(out: &mut String, t: &Option<String>)
    ensures
        final(out)@ == old(out)@ + text_or_empty(t.deep_view()),
{
    match t {
        Some(s) => out.append(s.as_str()),
        None => {
            assert(old(out)@ + Seq::<char>::empty() =~= old(out)@);
        },
    }
}

/// The log line the single-space client writes for a signal.
pub fn signal_log_line(signal: &TurnSignal) -> (r: String)
    ensures
        r@ == signal_log_text(signal@),
{
    match signal {
        TurnSignal::LlmRoundStarted { llm_round, provider, model, .. } => {
            let mut s = String::from_str("[turn] llmRound=");
            let ghost a = s@;
            match llm_round {
                Some(n) => append_decimal(&mut s, *n),
                None => {
                    assert(a + Seq::<char>::empty() =~= a);
                },
            }
            s.append(" provider=");
            append_opt(&mut s, provider);
            s.append(" model=");
            append_opt(&mut s, model);
            s
        },
        TurnSignal::TurnFinalized { status, .. } => {
            let mut s = String::from_str("[turn] ✅ finalized status=");
            append_opt(&mut s, status);
            s
        },
    }
}

} // verus!
