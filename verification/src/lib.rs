//! A client library for the DeepSeek chat completion API: the request and reply types,
//! the completion presets, the reading of streamed replies, and the decisions that each
//! completion call takes between sending a request and handing back a reply.

pub mod events;
pub mod json;
pub mod model;
pub mod session;
pub mod stream;
pub mod text;

pub use events::stream_payloads;
pub use json::JsonValue;
pub use model::{
    get_response_text, ChatResponses, ChatResponsesStream, ChoiceObject, ChoiceObjectChunk,
    ChoiceObjectMessage, FunctionalCallObject, FunctionalCallObjectSingle, LogprobsContent,
    LogprobsObject, Message, RequestChat, ResponseFormatType, TopLogprobsObject, Usage,
};
pub use session::{
    chat_DeepSeek_LLM, chat_DeepSeek_LLM_stream, chat_completion, chat_completion_stream,
    chat_completion_sync, chat_deepSeek_LLM_synchornous, code_completion, code_completion_stream,
    code_completion_sync, llm_function_call, llm_function_call_stream, llm_function_call_sync,
    ApiError, ChatSession, NextStep, PostRequest, ReplyEvent, ReplyHandling, Transport,
    CHAT_COMPLETION_API_URL, DEEPSEEK_MODEL_CHAT, DEEPSEEK_MODEL_CODER,
};
pub use stream::{merge_stream_chunks, stream_chunk_is_complete};
