//! Prompt assembly for the generation backend: the gateway owns the system
//! instruction; caller-supplied system messages are stripped.

use vstd::prelude::*;
use vstd::string::StringExecFns;

use crate::apitype::{ChatCompletionParameters, ChatMessage, ChatMessageContent, Role};
use crate::strutil::str_eq;

verus! {

/// The system instruction served for the `programmer` model.
pub open spec fn programmer_prompt() -> Seq<char> {
    "You are top notch software engineer in the world, you can give recommendation and best practice in programming and will give concise and optimized code example when needed. And always response in Bahasa Indonesia."@
}

/// The system instruction served for the `sysadmin` model.
pub open spec fn sysadmin_prompt() -> Seq<char> {
    "You are top notch sysadmin in the world, you can give recommendation and best practice in system administration and devops, and will give concise and optimized code example when needed. And always response in Bahasa Indonesia."@
}

/// The system instruction served for unrecognized model names.
pub open spec fn assistant_prompt() -> Seq<char> {
    "You are a helpful assistant."@
}

/// The system instruction chosen for a model name.
pub open spec fn system_prompt_for(m: Seq<char>) -> Seq<char> {
    if m == "programmer"@ {
        programmer_prompt()
    } else if m == "sysadmin"@ {
        sysadmin_prompt()
    } else {
        assistant_prompt()
    }
}

/// Selects the role-appropriate system instruction by model name, with a
/// default for unrecognized names.
pub fn system_prompt_from_model(model: &str) -> (r: ChatMessageContent)
    ensures
        r matches ChatMessageContent::Text(t) && t@ == system_prompt_for(model@),
{
    if str_eq(model, "programmer") {
        ChatMessageContent::Text(
            String::from_str(
                "You are top notch software engineer in the world, you can give recommendation and best practice in programming and will give concise and optimized code example when needed. And always response in Bahasa Indonesia.",
            ),
        )
    } else if str_eq(model, "sysadmin") {
        ChatMessageContent::Text(
            String::from_str(
                "You are top notch sysadmin in the world, you can give recommendation and best practice in system administration and devops, and will give concise and optimized code example when needed. And always response in Bahasa Indonesia.",
            ),
        )
    } else {
        ChatMessageContent::Text(String::from_str("You are a helpful assistant."))
    }
}

/// Not a system message: the predicate that keeps a caller message.
pub open spec fn keeps_role(m: ChatMessage) -> bool {
    m.role != Role::System
}

/// Builds the outbound request: the gateway's system instruction first, then
/// the caller's messages with system-role ones stripped, addressed to the
/// backend's own model name.
pub fn build_prompt(chat_messages: Vec<ChatMessage>, model: &str, backend_model: String) -> (r:
    ChatCompletionParameters)
    ensures
        r.model == backend_model,
        r.messages@.len() >= 1,
        r.messages@[0].role == Role::System,
        r.messages@[0].content matches ChatMessageContent::Text(t) && t@ == system_prompt_for(
            model@,
        ),
        r.messages@[0].tool_calls is None,
        r.messages@[0].name is None,
        r.messages@[0].tool_call_id is None,
        r.messages@.drop_first() == chat_messages@.filter(|m: ChatMessage| keeps_role(m)),
        r.logprobs is None,
        r.top_logprobs is None,
        r.max_tokens is None,
        r.n is None,
        r.seed is None,
        r.stop is None,
        r.stream is None,
        r.user is None,
{
    let ghost orig = chat_messages@;
    let mut messages: Vec<ChatMessage> = Vec::new();
    messages.push(
        ChatMessage {
            role: Role::System,
            content: system_prompt_from_model(model),
            tool_calls: None,
            name: None,
            tool_call_id: None,
        },
    );
    let mut rest = chat_messages;
    while rest.len() > 0
        invariant
            messages@.len() >= 1,
            messages@[0].role == Role::System,
            messages@[0].content matches ChatMessageContent::Text(t) && t@ == system_prompt_for(
                model@,
            ),
            messages@[0].tool_calls is None,
            messages@[0].name is None,
            messages@[0].tool_call_id is None,
            rest@.len() <= orig.len(),
            rest@ =~= orig.skip(orig.len() - rest@.len()),
            messages@.drop_first() == orig.take(orig.len() - rest@.len()).filter(
                |m: ChatMessage| keeps_role(m),
            ),
        decreases rest@.len(),
    {
        let ghost k = orig.len() - rest@.len();
        let m = rest.remove(0);
        proof {
            assert(m == orig[k]);
            assert(rest@ =~= orig.skip(k + 1));
            assert(orig.take(k + 1).drop_last() =~= orig.take(k));
            assert(orig.take(k + 1).last() == orig[k]);
            reveal(Seq::filter);
        }
        if m.role != Role::System {
            messages.push(m);
            proof {
                assert(messages@.drop_first() =~= orig.take(k).filter(
                    |mm: ChatMessage| keeps_role(mm),
                ).push(orig[k]));
            }
        }
    }
    proof {
        assert(orig.take(orig.len() as int) =~= orig);
    }
    ChatCompletionParameters {
        messages,
        model: backend_model,
        logprobs: None,
        top_logprobs: None,
        max_tokens: None,
        n: None,
        seed: None,
        stop: None,
        stream: None,
        user: None,
    }
}

} // verus!
