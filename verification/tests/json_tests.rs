use restoai::apitype::{
    ChatCompletionChunkChoice, ChatCompletionChunkResponse, DeltaChatMessage, DeltaFunction,
    DeltaToolCall, FinishReason, Role,
};
use restoai::json::encode_chunk;

fn chunk_with(choices: Vec<ChatCompletionChunkChoice>) -> ChatCompletionChunkResponse {
    ChatCompletionChunkResponse {
        id: "c1".to_string(),
        choices,
        created: 123,
        model: None,
        system_fingerprint: None,
        object: "chat.completion.chunk".to_string(),
    }
}

#[test]
fn encode_chunk_basic() {
    let chunk = chunk_with(vec![ChatCompletionChunkChoice {
        index: Some(0),
        delta: DeltaChatMessage {
            role: Some(Role::Assistant),
            content: Some("Hi".to_string()),
            tool_calls: None,
        },
        logprobs: None,
        finish_reason: None,
    }]);
    assert_eq!(
        encode_chunk(&chunk),
        "{\"id\":\"c1\",\"choices\":[{\"index\":0,\"delta\":{\"role\":\"assistant\",\
         \"content\":\"Hi\"},\"logprobs\":null,\"finish_reason\":null}],\"created\":123,\
         \"system_fingerprint\":null,\"object\":\"chat.completion.chunk\"}"
    );
}

#[test]
fn encode_chunk_includes_model_when_present() {
    let mut chunk = chunk_with(vec![]);
    chunk.model = Some("programmer".to_string());
    chunk.system_fingerprint = Some("fp".to_string());
    assert_eq!(
        encode_chunk(&chunk),
        "{\"id\":\"c1\",\"choices\":[],\"created\":123,\"model\":\"programmer\",\
         \"system_fingerprint\":\"fp\",\"object\":\"chat.completion.chunk\"}"
    );
}

#[test]
fn encode_chunk_escapes_strings() {
    let chunk = chunk_with(vec![ChatCompletionChunkChoice {
        index: None,
        delta: DeltaChatMessage {
            role: None,
            content: Some("a\"b\\c\nd\u{1}e\tf".to_string()),
            tool_calls: None,
        },
        logprobs: None,
        finish_reason: Some(FinishReason::StopSequenceReached),
    }]);
    assert_eq!(
        encode_chunk(&chunk),
        "{\"id\":\"c1\",\"choices\":[{\"index\":null,\"delta\":\
         {\"content\":\"a\\\"b\\\\c\\nd\\u0001e\\tf\"},\"logprobs\":null,\
         \"finish_reason\":\"stop\"}],\"created\":123,\"system_fingerprint\":null,\
         \"object\":\"chat.completion.chunk\"}"
    );
}

#[test]
fn encode_chunk_writes_tool_calls() {
    let chunk = chunk_with(vec![ChatCompletionChunkChoice {
        index: Some(2),
        delta: DeltaChatMessage {
            role: None,
            content: None,
            tool_calls: Some(vec![DeltaToolCall {
                index: Some(1),
                id: Some("t1".to_string()),
                kind: Some("function".to_string()),
                function: DeltaFunction {
                    name: Some("f".to_string()),
                    arguments: Some("{\"x\":1}".to_string()),
                },
            }]),
        },
        logprobs: None,
        finish_reason: Some(FinishReason::ToolCalls),
    }]);
    assert_eq!(
        encode_chunk(&chunk),
        "{\"id\":\"c1\",\"choices\":[{\"index\":2,\"delta\":{\"tool_calls\":\
         [{\"index\":1,\"id\":\"t1\",\"type\":\"function\",\"function\":\
         {\"name\":\"f\",\"arguments\":\"{\\\"x\\\":1}\"}}]},\"logprobs\":null,\
         \"finish_reason\":\"tool_calls\"}],\"created\":123,\"system_fingerprint\":null,\
         \"object\":\"chat.completion.chunk\"}"
    );
}

#[test]
fn encode_chunk_empty_delta_and_partial_function() {
    let chunk = chunk_with(vec![
        ChatCompletionChunkChoice {
            index: None,
            delta: DeltaChatMessage { role: None, content: None, tool_calls: None },
            logprobs: None,
            finish_reason: Some(FinishReason::TokenLimitReached),
        },
        ChatCompletionChunkChoice {
            index: Some(1),
            delta: DeltaChatMessage {
                role: None,
                content: None,
                tool_calls: Some(vec![DeltaToolCall {
                    index: None,
                    id: None,
                    kind: None,
                    function: DeltaFunction {
                        name: None,
                        arguments: Some("x".to_string()),
                    },
                }]),
            },
            logprobs: Some(FinishReason::ContentFilterFlagged),
            finish_reason: None,
        },
    ]);
    assert_eq!(
        encode_chunk(&chunk),
        "{\"id\":\"c1\",\"choices\":[{\"index\":null,\"delta\":{},\"logprobs\":null,\
         \"finish_reason\":\"length\"},{\"index\":1,\"delta\":{\"tool_calls\":\
         [{\"function\":{\"arguments\":\"x\"}}]},\"logprobs\":\"content_filter\",\
         \"finish_reason\":null}],\"created\":123,\"system_fingerprint\":null,\
         \"object\":\"chat.completion.chunk\"}"
    );
}

#[test]
fn encoded_chunk_parses_as_json() {
    let chunk = chunk_with(vec![ChatCompletionChunkChoice {
        index: Some(0),
        delta: DeltaChatMessage {
            role: Some(Role::User),
            content: Some("line1\nline2 \"quoted\"".to_string()),
            tool_calls: None,
        },
        logprobs: None,
        finish_reason: None,
    }]);
    let text = encode_chunk(&chunk);
    let value: serde_json::Value = serde_json::from_str(&text).unwrap();
    assert_eq!(value["id"], serde_json::Value::String("c1".to_string()));
    assert_eq!(
        value["choices"][0]["delta"]["content"],
        serde_json::Value::String("line1\nline2 \"quoted\"".to_string())
    );
    assert_eq!(value["created"], serde_json::Value::from(123u32));
}
