use restoai::apitype::{
    ChatCompletionChunkChoice, ChatCompletionChunkResponse, DeltaChatMessage, Role,
};
use restoai::event::{done_sentinel, frame_event, WireEvent};
use restoai::gateway::{plan_chat_request, ChatPlan};
use restoai::apitype::{ChatCompletionParameters, ChatMessage, ChatMessageContent};
use restoai::registry::Registry;
use restoai::relay::{relay_step, wire_payload, RelayAction, RelayEvent, RelayState};
use restoai::writer::SessionWriter;
use tokio::sync::mpsc::error::TryRecvError;

fn fragment(text: &str) -> ChatCompletionChunkResponse {
    ChatCompletionChunkResponse {
        id: "c1".to_string(),
        choices: vec![ChatCompletionChunkChoice {
            index: Some(0),
            delta: DeltaChatMessage {
                role: Some(Role::Assistant),
                content: Some(text.to_string()),
                tool_calls: None,
            },
            logprobs: None,
            finish_reason: None,
        }],
        created: 7,
        model: None,
        system_fingerprint: None,
        object: "chat.completion.chunk".to_string(),
    }
}

fn expected_payload(text: &str) -> String {
    format!(
        "{{\"id\":\"c1\",\"choices\":[{{\"index\":0,\"delta\":{{\"role\":\"assistant\",\
         \"content\":\"{}\"}},\"logprobs\":null,\"finish_reason\":null}}],\"created\":7,\
         \"model\":\"programmer\",\"system_fingerprint\":null,\
         \"object\":\"chat.completion.chunk\"}}",
        text
    )
}

#[test]
fn relay_pushes_fragments_in_order_then_finishes_once() {
    let model = "programmer";
    let (state, action) = relay_step(RelayState::Init, RelayEvent::Launched, model);
    assert_eq!(state, RelayState::Requesting);
    assert!(matches!(action, RelayAction::IssueCall));
    let (state, action) = relay_step(state, RelayEvent::CallAccepted, model);
    assert_eq!(state, RelayState::Streaming);
    assert!(matches!(action, RelayAction::Idle));
    let mut pushed = Vec::new();
    let mut state = state;
    for text in ["f1", "f2", "f3"] {
        let (next, action) = relay_step(state, RelayEvent::Fragment(fragment(text)), model);
        state = next;
        assert_eq!(state, RelayState::Streaming);
        match action {
            RelayAction::Push(payload) => pushed.push(payload),
            other => panic!("expected a push, got {:?}", other),
        }
    }
    assert_eq!(
        pushed,
        vec![expected_payload("f1"), expected_payload("f2"), expected_payload("f3")]
    );
    let (state, action) = relay_step(state, RelayEvent::StreamEnded, model);
    assert_eq!(state, RelayState::Terminated);
    assert!(matches!(action, RelayAction::Finish));
    // A terminated relay stays terminated and idle.
    let (state, action) = relay_step(state, RelayEvent::StreamEnded, model);
    assert_eq!(state, RelayState::Terminated);
    assert!(matches!(action, RelayAction::Idle));
}

#[test]
fn relay_failure_truncates_but_still_finishes_exactly_once() {
    let model = "programmer";
    let mut finishes = 0;
    let mut pushes = 0;
    let mut state = RelayState::Streaming;
    let events = vec![
        RelayEvent::Fragment(fragment("f1")),
        RelayEvent::PushFailed,
        RelayEvent::Fragment(fragment("f2")),
        RelayEvent::StreamEnded,
    ];
    for ev in events {
        let (next, action) = relay_step(state, ev, model);
        state = next;
        match action {
            RelayAction::Push(_) => pushes += 1,
            RelayAction::Finish => finishes += 1,
            _ => {}
        }
    }
    assert_eq!(pushes, 1);
    assert_eq!(finishes, 1);
    assert_eq!(state, RelayState::Terminated);
}

#[test]
fn relay_failed_call_finishes_without_data() {
    let model = "programmer";
    let (state, action) = relay_step(RelayState::Init, RelayEvent::Launched, model);
    assert!(matches!(action, RelayAction::IssueCall));
    let (state, action) = relay_step(state, RelayEvent::CallFailed, model);
    assert_eq!(state, RelayState::Terminated);
    assert!(matches!(action, RelayAction::Finish));
}

#[test]
fn wire_payload_attaches_model_and_drops_fingerprint() {
    let mut chunk = fragment("Halo");
    chunk.system_fingerprint = Some("fp-x".to_string());
    let payload = wire_payload(chunk, "programmer");
    assert_eq!(payload, expected_payload("Halo"));
}

#[test]
fn streaming_request_end_to_end_produces_sse_frames() {
    // The request: a supported model asking to stream.
    let params = ChatCompletionParameters {
        messages: vec![ChatMessage {
            role: Role::User,
            content: ChatMessageContent::Text("hi".to_string()),
            tool_calls: None,
            name: None,
            tool_call_id: None,
        }],
        model: "programmer".to_string(),
        logprobs: None,
        top_logprobs: None,
        max_tokens: None,
        n: None,
        seed: None,
        stop: None,
        stream: Some(true),
        user: None,
    };
    let plan = plan_chat_request(params);
    let msgs = match plan {
        ChatPlan::Stream(msgs) => msgs,
        _ => panic!("expected a streaming plan"),
    };
    assert_eq!(msgs.len(), 1);

    // The session: one registered slot, one writer bound to it.
    let mut reg = Registry::new();
    let (id, mut rx) = reg.register().unwrap();
    let writer = SessionWriter::new(id);

    // The relay run: two fragments, then a normal end of stream.
    let model = "programmer";
    let mut state = RelayState::Streaming;
    for text in ["Ha", "lo"] {
        let (next, action) = relay_step(state, RelayEvent::Fragment(fragment(text)), model);
        state = next;
        match action {
            RelayAction::Push(payload) => {
                writer.write(&reg, &payload).unwrap();
            },
            other => panic!("expected a push, got {:?}", other),
        }
    }
    let (_state, action) = relay_step(state, RelayEvent::StreamEnded, model);
    assert!(matches!(action, RelayAction::Finish));
    writer.close(&reg);

    // The HTTP layer drains the channel into exact wire frames.
    assert_eq!(rx.try_recv(), Ok(WireEvent::Connected));
    let mut frames = Vec::new();
    loop {
        match rx.try_recv() {
            Ok(WireEvent::Done) => {
                frames.push(done_sentinel());
                break;
            },
            Ok(ev) => frames.push(frame_event(&ev)),
            Err(TryRecvError::Empty) => break,
            Err(e) => panic!("unexpected receive error: {:?}", e),
        }
    }
    assert_eq!(
        frames,
        vec![
            format!("data: {}\n\n", expected_payload("Ha")),
            format!("data: {}\n\n", expected_payload("lo")),
            "data: [DONE]\n\n".to_string(),
        ]
    );
    assert!(frames[0].contains("\"model\":\"programmer\""));
}
