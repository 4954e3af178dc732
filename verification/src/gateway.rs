//! Endpoint-level decisions: which models are served, how a chat request is
//! planned, and the model-listing response.

use vstd::prelude::*;
use vstd::string::StringExecFns;

use crate::apitype::{ChatCompletionParameters, ChatMessage, ListModelResponse, Model};
use crate::strutil::str_eq;

verus! {

/// The models this gateway serves.
pub open spec fn model_supported(m: Seq<char>) -> bool {
    m == "programmer"@ || m == "sysadmin"@
}

/// True exactly when the named model is in the gateway's fixed allow-list.
pub fn is_model_supported(model: &str) -> (r: bool)
    ensures
        r == model_supported(model@),
{
    str_eq(model, "programmer") || str_eq(model, "sysadmin")
}

/// The message list with everything but role, content and participant name
/// scrubbed: the gateway never forwards caller-supplied tool state.
pub open spec fn scrubbed(orig: Seq<ChatMessage>, r: Seq<ChatMessage>) -> bool {
    &&& r.len() == orig.len()
    &&& forall|i: int|
        0 <= i < r.len() ==> {
            &&& (#[trigger] r[i]).role == orig[i].role
            &&& r[i].content == orig[i].content
            &&& r[i].name == orig[i].name
            &&& r[i].tool_calls is None
            &&& r[i].tool_call_id is None
        }
}

/// Keeps each message's role, content and name, and drops tool state.
pub fn prepare_messages(msgs: Vec<ChatMessage>) -> (r: Vec<ChatMessage>)
    ensures
        scrubbed(msgs@, r@),
{
    let ghost orig = msgs@;
    let mut rest = msgs;
    let mut out: Vec<ChatMessage> = Vec::new();
    while rest.len() > 0
        invariant
            out@.len() + rest@.len() == orig.len(),
            rest@ =~= orig.skip(out@.len() as int),
            scrubbed(orig.take(out@.len() as int), out@),
        decreases rest@.len(),
    {
        let m = rest.remove(0);
        let ghost k = out@.len() as int;
        out.push(
            ChatMessage {
                role: m.role,
                content: m.content,
                tool_calls: None,
                name: m.name,
                tool_call_id: None,
            },
        );
        proof {
            assert(m == orig[k]);
            assert(rest@ =~= orig.skip(k + 1));
            assert(orig.take(k + 1) =~= orig.take(k).push(orig[k]));
        }
    }
    proof {
        assert(orig.take(orig.len() as int) =~= orig);
    }
    out
}

/// What the gateway decides to do with one chat request.
pub enum ChatPlan {
    /// The named model is not served; reject before creating any session.
    Reject,
    /// Stream: register a session and relay fragments through it.
    Stream(Vec<ChatMessage>),
    /// Answer with a single complete response.
    Complete(Vec<ChatMessage>),
}

/// Decides a chat request: unsupported models are rejected synchronously, and
/// a supported request is planned as streaming exactly when it asked to be.
pub fn plan_chat_request(params: ChatCompletionParameters) -> (r: ChatPlan)
    ensures
        r is Reject <==> !model_supported(params.model@),
        r matches ChatPlan::Stream(m) ==> params.stream == Some(true) && scrubbed(
            params.messages@,
            m@,
        ),
        r matches ChatPlan::Complete(m) ==> params.stream != Some(true) && scrubbed(
            params.messages@,
            m@,
        ),
{
    if !is_model_supported(params.model.as_str()) {
        return ChatPlan::Reject;
    }
    let streaming = matches!(params.stream, Some(true));
    let msgs = prepare_messages(params.messages);
    if streaming {
        ChatPlan::Stream(msgs)
    } else {
        ChatPlan::Complete(msgs)
    }
}

/// The model-listing response: the backend's object tag over the gateway's
/// own fixed model list.
pub fn models_response(backend_object: String) -> (r: ListModelResponse)
    ensures
        r.object == backend_object,
        r.data@.len() == 2,
        r.data@[0].id@ == "programmer"@,
        r.data@[0].object@ == "model"@,
        r.data@[0].created == 0,
        r.data@[0].owned_by is None,
        r.data@[1].id@ == "sysadmin"@,
        r.data@[1].object@ == "model"@,
        r.data@[1].created == 0,
        r.data@[1].owned_by is None,
{
    let mut data: Vec<Model> = Vec::new();
    data.push(
        Model {
            id: String::from_str("programmer"),
            created: 0,
            object: String::from_str("model"),
            owned_by: None,
        },
    );
    data.push(
        Model {
            id: String::from_str("sysadmin"),
            created: 0,
            object: String::from_str("model"),
            owned_by: None,
        },
    );
    ListModelResponse { object: backend_object, data }
}

} // verus!
