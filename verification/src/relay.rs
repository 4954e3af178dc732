//! The streaming relay: reshapes each backend fragment into the gateway's
//! outward chunk shape, serializes it, and decides the session's lifecycle.
//! The relay never reorders, batches or drops a fragment, and every run ends
//! in exactly one release of the session writer.

use vstd::prelude::*;
use vstd::string::StringExecFns;

use crate::apitype::{ChatCompletionChunkChoice, ChatCompletionChunkResponse};
use crate::json::{chunk_json, choice_json, dec_chars, encode_chunk, join_comma, json_str};

verus! {

/// Choices as the relay forwards them: log probabilities cleared, everything
/// else carried through.
pub open spec fn scrub_choices(s: Seq<ChatCompletionChunkChoice>) -> Seq<ChatCompletionChunkChoice> {
    s.map_values(
        |ch: ChatCompletionChunkChoice|
            (ChatCompletionChunkChoice {
                index: ch.index,
                delta: ch.delta,
                logprobs: None,
                finish_reason: ch.finish_reason,
            }),
    )
}

/// Reshapes one backend fragment for the wire: identifier, deltas, timestamp
/// and object tag are carried through; the request's model name is attached,
/// since the backend may omit it; fingerprint and log probabilities are
/// cleared.
pub fn reshape_chunk(chunk: ChatCompletionChunkResponse, model: &str) -> (r:
    ChatCompletionChunkResponse)
    ensures
        r.id == chunk.id,
        r.choices@ == scrub_choices(chunk.choices@),
        r.created == chunk.created,
        r.model matches Some(m) && m@ == model@,
        r.system_fingerprint is None,
        r.object == chunk.object,
{
    let ghost orig = chunk.choices@;
    let mut rest = chunk.choices;
    let mut choices: Vec<ChatCompletionChunkChoice> = Vec::new();
    while rest.len() > 0
        invariant
            choices@.len() + rest@.len() == orig.len(),
            rest@ =~= orig.skip(choices@.len() as int),
            forall|k: int| 0 <= k < choices@.len() ==> choices@[k] == scrub_choices(orig)[k],
        decreases rest@.len(),
    {
        let ghost k = choices@.len() as int;
        let mut ch = rest.remove(0);
        proof {
            assert(ch == orig[k]);
            assert(rest@ =~= orig.skip(k + 1));
        }
        ch.logprobs = None;
        choices.push(ch);
        proof {
            assert(choices@[k] == scrub_choices(orig)[k]);
        }
    }
    proof {
        assert(choices@ =~= scrub_choices(orig));
    }
    ChatCompletionChunkResponse {
        id: chunk.id,
        choices,
        created: chunk.created,
        model: Some(String::from_str(model)),
        system_fingerprint: None,
        object: chunk.object,
    }
}

/// The exact wire text the relay pushes for one backend fragment.
pub open spec fn wire_payload_spec(c: ChatCompletionChunkResponse, model: Seq<char>) -> Seq<char> {
    "{\"id\":"@ + json_str(c.id@) + ",\"choices\":["@ + join_comma(
        scrub_choices(c.choices@).map_values(|ch: ChatCompletionChunkChoice| choice_json(ch)),
    ) + "],\"created\":"@ + dec_chars(c.created as nat) + ",\"model\":"@ + json_str(model)
        + ",\"system_fingerprint\":"@ + "null"@ + ",\"object\":"@ + json_str(c.object@) + "}"@
}

/// Reshapes one fragment and serializes it to its wire text.
pub fn wire_payload(chunk: ChatCompletionChunkResponse, model: &str) -> (r: String)
    ensures
        r@ == wire_payload_spec(chunk, model@),
{
    let ghost orig = chunk;
    let rc = reshape_chunk(chunk, model);
    let s = encode_chunk(&rc);
    proof {
        assert(chunk_json(rc) =~= wire_payload_spec(orig, model@));
    }
    s
}

/// The relay's lifecycle states.
#[derive(Clone, Copy, Debug, PartialEq, Eq, Structural)]
pub enum RelayState {
    /// The outbound request is being built.
    Init,
    /// The backend call is in flight.
    Requesting,
    /// Fragments are arriving.
    Streaming,
    /// The session is over; the writer has been released.
    Terminated,
}

/// What the driving task reports to the relay.
#[derive(Clone, Debug, PartialEq)]
pub enum RelayEvent {
    /// The session task has started.
    Launched,
    /// The backend accepted the streaming call.
    CallAccepted,
    /// The backend call failed: network error, bad status or malformed reply.
    CallFailed,
    /// One incremental fragment arrived.
    Fragment(ChatCompletionChunkResponse),
    /// The backend closed the stream normally.
    StreamEnded,
    /// The stream broke mid-flight.
    StreamFailed,
    /// The last push was refused; fatal for this session, never retried.
    PushFailed,
}

/// What the relay asks the driving task to do next.
#[derive(Clone, Debug, PartialEq)]
pub enum RelayAction {
    /// Issue the backend streaming call.
    IssueCall,
    /// Push this serialized fragment through the session writer.
    Push(String),
    /// Release the session writer, which sends the terminal marker.
    Finish,
    /// Nothing to do.
    Idle,
}

/// The shape of an action in specifications, payloads as character sequences.
pub enum ActionModel {
    IssueCall,
    Push(Seq<char>),
    Finish,
    Idle,
}

/// The relay's transition relation, in specification form.
pub open spec fn step_model(state: RelayState, event: RelayEvent, model: Seq<char>) -> (
    RelayState,
    ActionModel,
) {
    match (state, event) {
        (RelayState::Init, RelayEvent::Launched) => (
            RelayState::Requesting,
            ActionModel::IssueCall,
        ),
        (RelayState::Requesting, RelayEvent::CallAccepted) => (
            RelayState::Streaming,
            ActionModel::Idle,
        ),
        (RelayState::Requesting, RelayEvent::CallFailed) => (
            RelayState::Terminated,
            ActionModel::Finish,
        ),
        (RelayState::Streaming, RelayEvent::Fragment(c)) => (
            RelayState::Streaming,
            ActionModel::Push(wire_payload_spec(c, model)),
        ),
        (RelayState::Streaming, RelayEvent::StreamEnded) => (
            RelayState::Terminated,
            ActionModel::Finish,
        ),
        (RelayState::Streaming, RelayEvent::StreamFailed) => (
            RelayState::Terminated,
            ActionModel::Finish,
        ),
        (RelayState::Streaming, RelayEvent::PushFailed) => (
            RelayState::Terminated,
            ActionModel::Finish,
        ),
        (s, _) => (s, ActionModel::Idle),
    }
}

/// An executable action has the shape its model prescribes.
pub open spec fn action_matches(a: RelayAction, m: ActionModel) -> bool {
    match (a, m) {
        (RelayAction::IssueCall, ActionModel::IssueCall) => true,
        (RelayAction::Push(s), ActionModel::Push(v)) => s@ == v,
        (RelayAction::Finish, ActionModel::Finish) => true,
        (RelayAction::Idle, ActionModel::Idle) => true,
        _ => false,
    }
}

/// One transition of the streaming relay: from a state and an observed event
/// to the next state and the action the driving task must perform.
pub fn relay_step(state: RelayState, event: RelayEvent, model: &str) -> (r: (
    RelayState,
    RelayAction,
))
    ensures
        r.0 == step_model(state, event, model@).0,
        action_matches(r.1, step_model(state, event, model@).1),
{
    match (state, event) {
        (RelayState::Init, RelayEvent::Launched) => (
            RelayState::Requesting,
            RelayAction::IssueCall,
        ),
        (RelayState::Requesting, RelayEvent::CallAccepted) => (
            RelayState::Streaming,
            RelayAction::Idle,
        ),
        (RelayState::Requesting, RelayEvent::CallFailed) => (
            RelayState::Terminated,
            RelayAction::Finish,
        ),
        (RelayState::Streaming, RelayEvent::Fragment(c)) => {
            let payload = wire_payload(c, model);
            (RelayState::Streaming, RelayAction::Push(payload))
        },
        (RelayState::Streaming, RelayEvent::StreamEnded) => (
            RelayState::Terminated,
            RelayAction::Finish,
        ),
        (RelayState::Streaming, RelayEvent::StreamFailed) => (
            RelayState::Terminated,
            RelayAction::Finish,
        ),
        (RelayState::Streaming, RelayEvent::PushFailed) => (
            RelayState::Terminated,
            RelayAction::Finish,
        ),
        (s, _) => (s, RelayAction::Idle),
    }
}

/// The actions a run of the machine emits for a sequence of events.
pub open spec fn relay_trace(state: RelayState, events: Seq<RelayEvent>, model: Seq<char>) -> Seq<
    ActionModel,
>
    decreases events.len(),
{
    if events.len() == 0 {
        Seq::empty()
    } else {
        seq![step_model(state, events[0], model).1] + relay_trace(
            step_model(state, events[0], model).0,
            events.drop_first(),
            model,
        )
    }
}

/// The events that end a stream: normal close, a broken stream, or a refused
/// push.
pub open spec fn is_terminal_event(e: RelayEvent) -> bool {
    e is StreamEnded || e is StreamFailed || e is PushFailed
}

/// Law: a relay that receives fragments `f1 … fn` and then any terminal event
/// emits exactly `n` pushes — the reshaped fragments, in arrival order — and
/// then exactly one release of the writer. A mid-stream failure merely
/// truncates the fragment list; the single release still follows.
pub proof fn lemma_relay_order(
    frags: Seq<ChatCompletionChunkResponse>,
    terminal: RelayEvent,
    model: Seq<char>,
)
    requires
        is_terminal_event(terminal),
    ensures
        ({
            let evs = frags.map_values(
                |c: ChatCompletionChunkResponse| RelayEvent::Fragment(c),
            ).push(terminal);
            let acts = relay_trace(RelayState::Streaming, evs, model);
            &&& acts.len() == frags.len() + 1
            &&& forall|i: int|
                0 <= i < frags.len() ==> acts[i] == ActionModel::Push(
                    wire_payload_spec(frags[i], model),
                )
            &&& acts.last() == ActionModel::Finish
        }),
    decreases frags.len(),
{
    let evs = frags.map_values(|c: ChatCompletionChunkResponse| RelayEvent::Fragment(c)).push(
        terminal,
    );
    let acts = relay_trace(RelayState::Streaming, evs, model);
    if frags.len() == 0 {
        assert(evs =~= seq![terminal]);
        assert(step_model(RelayState::Streaming, terminal, model) == (
            RelayState::Terminated,
            ActionModel::Finish,
        ));
        assert(evs.drop_first() =~= Seq::<RelayEvent>::empty());
        assert(relay_trace(RelayState::Terminated, evs.drop_first(), model) =~= Seq::<
            ActionModel,
        >::empty());
        assert(acts =~= seq![ActionModel::Finish]);
    } else {
        lemma_relay_order(frags.drop_first(), terminal, model);
        let evs2 = frags.drop_first().map_values(
            |c: ChatCompletionChunkResponse| RelayEvent::Fragment(c),
        ).push(terminal);
        assert(evs[0] == RelayEvent::Fragment(frags[0]));
        assert(evs.drop_first() =~= evs2);
        assert(step_model(RelayState::Streaming, evs[0], model) == (
            RelayState::Streaming,
            ActionModel::Push(wire_payload_spec(frags[0], model)),
        ));
        let tail = relay_trace(RelayState::Streaming, evs2, model);
        assert(acts =~= seq![ActionModel::Push(wire_payload_spec(frags[0], model))] + tail);
        assert forall|i: int| 0 <= i < frags.len() implies acts[i] == ActionModel::Push(
            wire_payload_spec(frags[i], model),
        ) by {
            if i > 0 {
                assert(acts[i] == tail[i - 1]);
                assert(tail[i - 1] == ActionModel::Push(
                    wire_payload_spec(frags.drop_first()[i - 1], model),
                ));
            }
        }
    }
}

/// Law: a failed backend call still ends the session cleanly — the run is
/// one issued call followed by exactly one release of the writer, and no
/// data push.
pub proof fn lemma_relay_failed_call(model: Seq<char>)
    ensures
        relay_trace(
            RelayState::Init,
            seq![RelayEvent::Launched, RelayEvent::CallFailed],
            model,
        ) =~= seq![ActionModel::IssueCall, ActionModel::Finish],
{
    let evs = seq![RelayEvent::Launched, RelayEvent::CallFailed];
    assert(step_model(RelayState::Init, evs[0], model) == (
        RelayState::Requesting,
        ActionModel::IssueCall,
    ));
    let evs2 = evs.drop_first();
    assert(evs2 =~= seq![RelayEvent::CallFailed]);
    assert(step_model(RelayState::Requesting, evs2[0], model) == (
        RelayState::Terminated,
        ActionModel::Finish,
    ));
    assert(evs2.drop_first() =~= Seq::<RelayEvent>::empty());
    assert(relay_trace(RelayState::Terminated, evs2.drop_first(), model) =~= Seq::<
        ActionModel,
    >::empty());
    assert(relay_trace(RelayState::Requesting, evs2, model) =~= seq![ActionModel::Finish]);
}

} // verus!
