//! The gateway's wire data model: chat messages, completion responses, and the
//! incremental chunk shapes used while streaming.

use vstd::prelude::*;

verus! {

/// The role of a chat participant.
#[derive(Clone, Copy, Debug, PartialEq, Eq, Structural)]
pub enum Role {
    System,
    User,
    Assistant,
    Tool,
}

/// Why the backend stopped generating tokens.
#[derive(Clone, Copy, Debug, PartialEq, Eq, Structural)]
pub enum FinishReason {
    StopSequenceReached,
    TokenLimitReached,
    ContentFilterFlagged,
    ToolCalls,
}

/// One served model, as listed to clients.
#[derive(Clone, Debug, PartialEq)]
pub struct Model {
    /// The model identifier, which can be referenced in the API endpoints.
    pub id: String,
    /// The Unix timestamp (in seconds) when the model was created.
    pub created: u32,
    /// The object type, which is always "model".
    pub object: String,
    /// The organization that owns the model.
    pub owned_by: Option<String>,
}

/// The response of the model-listing endpoint.
#[derive(Clone, Debug, PartialEq)]
pub struct ListModelResponse {
    /// The object type, which is always "list".
    pub object: String,
    /// A list of model objects.
    pub data: Vec<Model>,
}

pub type ModelList = ListModelResponse;

/// Token accounting for one completion.
#[derive(Clone, Copy, Debug, PartialEq)]
pub struct ChatCompletionUsage {
    /// The number of generated tokens.
    pub completion_tokens: Option<u32>,
    /// The number of tokens in the prompt.
    pub prompt_tokens: u32,
    /// The total number of tokens in the dialogue so far.
    pub total_tokens: u32,
}

/// The detail level requested for an image.
#[derive(Clone, Copy, Debug, PartialEq, Eq, Structural)]
pub enum ImageUrlDetail {
    Auto,
    High,
    Low,
}

/// A reference to image data.
#[derive(Clone, Debug, PartialEq)]
pub struct ImageUrlType {
    /// Either a URL of the image or the base64 encoded image data.
    pub url: String,
    /// Specifies the detail level of the image.
    pub detail: Option<ImageUrlDetail>,
}

/// One image content part.
#[derive(Clone, Debug, PartialEq)]
pub struct ImageUrl {
    /// The type of the content part.
    pub kind: String,
    /// The text content.
    pub text: Option<String>,
    /// The image URL.
    pub image_url: ImageUrlType,
}

/// One part of a multi-part message content.
#[derive(Clone, Debug, PartialEq)]
pub enum ChatMessageContentInner {
    Text { text: String },
    ImageUrl(Vec<ImageUrl>),
    Empty,
}

/// The content of a chat message.
#[derive(Clone, Debug, PartialEq)]
pub enum ChatMessageContent {
    Text(String),
    Multi(Vec<ChatMessageContentInner>),
    ImageUrl(Vec<ImageUrl>),
    Empty,
}

/// A function invocation requested by the model.
#[derive(Clone, Debug, PartialEq)]
pub struct Function {
    /// The name of the function to call.
    pub name: String,
    /// The arguments to call the function with, in JSON form.
    pub arguments: String,
}

/// One tool call generated by the model.
#[derive(Clone, Debug, PartialEq)]
pub struct ToolCall {
    /// The ID of the tool call.
    pub id: String,
    /// The type of the tool; only functions are supported.
    pub kind: String,
    /// The function that the model called.
    pub function: Function,
}

/// One message of a conversation.
#[derive(Clone, Debug, PartialEq)]
pub struct ChatMessage {
    /// The role of the author of this message.
    pub role: Role,
    /// The content of the message.
    pub content: ChatMessageContent,
    /// The tool calls generated by the model.
    pub tool_calls: Option<Vec<ToolCall>>,
    /// An optional name for the participant.
    pub name: Option<String>,
    /// When responding to a tool call: the id of that call.
    pub tool_call_id: Option<String>,
}

/// One generated alternative of a completion.
#[derive(Clone, Debug, PartialEq)]
pub struct ChatCompletionChoice {
    /// The generated message.
    pub message: ChatMessage,
    /// If present, the reason that generation terminated at this choice.
    pub finish_reason: Option<String>,
    /// The index of this choice.
    pub index: u32,
}

/// A complete, non-streamed completion response.
#[derive(Clone, Debug, PartialEq)]
pub struct ChatCompletionResponse {
    /// A unique identifier for the chat completion.
    pub id: String,
    /// The generated choices.
    pub choices: Vec<ChatCompletionChoice>,
    /// The Unix timestamp (in seconds) of when the completion was created.
    pub created: u32,
    /// The model used for the chat completion.
    pub model: String,
    /// The backend configuration fingerprint.
    pub system_fingerprint: Option<String>,
    /// The object type, which is always chat.completion.
    pub object: String,
    /// Usage statistics for the completion request.
    pub usage: Option<ChatCompletionUsage>,
}

/// A complete completion in its reduced shape, without addressing data.
#[derive(Clone, Debug, PartialEq)]
pub struct ChatCompletion {
    pub id: String,
    pub choices: Vec<ChatCompletionChoice>,
    pub created: u32,
    pub object: String,
    pub usage: Option<ChatCompletionUsage>,
}

impl Default for ChatCompletion {
    /// The empty completion.
    fn default() -> (r: Self)
        ensures
            r.id@.len() == 0,
            r.choices@.len() == 0,
            r.created == 0,
            r.object@.len() == 0,
            r.usage is None,
    {
        ChatCompletion {
            id: String::new(),
            choices: Vec::new(),
            created: 0,
            object: String::new(),
            usage: None,
        }
    }
}

/// An incremental update to one choice while streaming.
#[derive(Clone, Debug, PartialEq)]
pub struct DeltaChatMessage {
    /// The role of the author of this message.
    pub role: Option<Role>,
    /// The contents of the chunk message.
    pub content: Option<String>,
    /// The tool calls generated by the model.
    pub tool_calls: Option<Vec<DeltaToolCall>>,
}

/// An incremental tool-call update.
#[derive(Clone, Debug, PartialEq)]
pub struct DeltaToolCall {
    /// The index of the tool call in the list of tool calls.
    pub index: Option<u32>,
    /// The ID of the tool call.
    pub id: Option<String>,
    /// The type of the tool; only functions are supported.
    pub kind: Option<String>,
    /// The function that the model called.
    pub function: DeltaFunction,
}

/// An incremental function-call update.
#[derive(Clone, Debug, PartialEq)]
pub struct DeltaFunction {
    /// The name of the function to call.
    pub name: Option<String>,
    /// The arguments to call the function with, in JSON form.
    pub arguments: Option<String>,
}

/// One choice inside a streamed chunk.
#[derive(Clone, Debug, PartialEq)]
pub struct ChatCompletionChunkChoice {
    /// The index of the choice in the list of choices.
    pub index: Option<u32>,
    /// A chat completion delta generated by streamed model responses.
    pub delta: DeltaChatMessage,
    /// Log probability information for the choice.
    pub logprobs: Option<FinishReason>,
    /// The reason the model stopped generating tokens.
    pub finish_reason: Option<FinishReason>,
}

/// One streamed fragment of a completion. Fragments of one request share the
/// same `id` and `created` values.
#[derive(Clone, Debug, PartialEq)]
pub struct ChatCompletionChunkResponse {
    /// A unique identifier for the chat completion; each chunk has the same ID.
    pub id: String,
    /// The incremental choices of this chunk.
    pub choices: Vec<ChatCompletionChunkChoice>,
    /// The Unix timestamp (in seconds) of creation; each chunk has the same one.
    pub created: u32,
    /// The model that generates the completion.
    pub model: Option<String>,
    /// The backend configuration fingerprint.
    pub system_fingerprint: Option<String>,
    /// The object type, which is always chat.completion.chunk.
    pub object: String,
}

/// Stop sequences for generation.
#[derive(Clone, Debug, PartialEq)]
pub enum StopToken {
    One(String),
    Many(Vec<String>),
}

/// A chat completion request.
#[derive(Clone, Debug, PartialEq)]
pub struct ChatCompletionParameters {
    /// A list of messages comprising the conversation so far.
    pub messages: Vec<ChatMessage>,
    /// ID of the model to use.
    pub model: String,
    /// Whether to return log probabilities of the output tokens.
    pub logprobs: Option<bool>,
    /// The number of most likely tokens to return at each token position.
    pub top_logprobs: Option<u32>,
    /// The maximum number of tokens to generate in the chat completion.
    pub max_tokens: Option<u32>,
    /// How many chat completion choices to generate for each input message.
    pub n: Option<u32>,
    /// A best-effort determinism seed.
    pub seed: Option<u32>,
    /// Sequences where the API stops generating further tokens.
    pub stop: Option<StopToken>,
    /// Whether partial messages are streamed back as they become available.
    pub stream: Option<bool>,
    /// A unique identifier representing the end-user.
    pub user: Option<String>,
}

/// Collapses a multi-part content to the single part that its first element
/// carries; other contents pass through unchanged.
pub fn normalize_content(c: ChatMessageContent) -> (r: ChatMessageContent)
    ensures
        match c {
            ChatMessageContent::Text(t) => r == ChatMessageContent::Text(t),
            ChatMessageContent::ImageUrl(u) => r == ChatMessageContent::ImageUrl(u),
            ChatMessageContent::Empty => r == ChatMessageContent::Empty,
            ChatMessageContent::Multi(parts) => {
                if parts@.len() == 0 {
                    r == ChatMessageContent::Empty
                } else {
                    match parts@[0] {
                        ChatMessageContentInner::Text { text } => r == ChatMessageContent::Text(
                            text,
                        ),
                        ChatMessageContentInner::ImageUrl(urls) => r
                            == ChatMessageContent::ImageUrl(urls),
                        ChatMessageContentInner::Empty => r == ChatMessageContent::Empty,
                    }
                }
            },
        },
{
    match c {
        ChatMessageContent::Multi(mut parts) => {
            if parts.len() == 0 {
                ChatMessageContent::Empty
            } else {
                match parts.remove(0) {
                    ChatMessageContentInner::Text { text } => ChatMessageContent::Text(text),
                    ChatMessageContentInner::ImageUrl(urls) => ChatMessageContent::ImageUrl(urls),
                    ChatMessageContentInner::Empty => ChatMessageContent::Empty,
                }
            }
        },
        other => other,
    }
}

} // verus!
