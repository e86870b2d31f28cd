use vstd::prelude::*;

use crate::events::stream_payloads;
use crate::events::stream_payloads_spec;
use crate::model::{has_default_settings, FunctionalCallObject, Message, RequestChat};

verus! {

broadcast use vstd::string::group_string_axioms;

/// Where chat completion requests are posted.
pub const CHAT_COMPLETION_API_URL: &'static str = "https://api.deepseek.com/chat/completions";

/// The general chat model.
pub const DEEPSEEK_MODEL_CHAT: &'static str = "deepseek-chat";

/// The code model.
pub const DEEPSEEK_MODEL_CODER: &'static str = "deepseek-coder";

/// The header that gives the body's media type.
pub const CONTENT_TYPE_HEADER: &'static str = "Content-Type";

/// The media type of a request body.
pub const JSON_MEDIA_TYPE: &'static str = "application/json";

/// The header that carries the API key.
pub const AUTHORIZATION_HEADER: &'static str = "Authorization";

/// What stands before the API key in the authorization header.
pub const BEARER_PREFIX: &'static str = "Bearer ";

/// What opens the message of a request that could not be built.
pub const REQUEST_ERROR_PREFIX: &'static str = "Request ";

/// The message of a failed connection.
pub const CONNECT_ERROR_MESSAGE: &'static str = "Can't connect to API";

/// What opens the message of a reply body that could not be read.
pub const RESPONSE_ERROR_PREFIX: &'static str = "Result response ";

/// What opens the message of a reply body that is not a reply.
pub const PARSE_ERROR_PREFIX: &'static str = "Parse error ";

/// How a session talks to the API.
#[derive(Debug)]
pub enum Transport {
    /// An asynchronous request whose raw response is handed back as it is.
    Stream,
    /// A blocking request whose body is read as one JSON reply.
    Blocking,
    /// An asynchronous request whose body is read as one JSON reply, or as a stream of
    /// events where the request asks for streaming.
    Async,
}

/// What a completion function keeps between calls: the request it sends, the key it
/// sends it with, and how.
#[derive(Debug)]
pub struct ChatSession {
    pub params: RequestChat,
    pub api_key: String,
    pub transport: Transport,
}

/// A POST request to send: its address and headers; its body is the session's request
/// in JSON.
#[derive(Debug)]
pub struct PostRequest {
    pub url: String,
    pub headers: Vec<(String, String)>,
}

/// What is done with the response to a request.
#[derive(Clone, Copy, Debug)]
pub enum ReplyHandling {
    /// The response itself is the result.
    RawResponse,
    /// The body of a blocking request is one JSON reply.
    BlockingJson,
    /// The body of an asynchronous request is one JSON reply.
    Json,
    /// The body of an asynchronous request is a stream of events, merged into one reply.
    EventStream,
}

/// What happened to a request once sent.
#[derive(Debug)]
pub enum ReplyEvent {
    /// The request could not be built; the text describes why.
    RequestRejected(String),
    /// No response came.
    ConnectFailed,
    /// A response came, but its body could not be read; the text describes why.
    BodyUnreadable(String),
    /// A response came with this body.
    Body(String),
}

/// Why a completion failed.
#[derive(Debug)]
pub enum ApiError {
    Request(String),
    Connect,
    Response(String),
    Parse(String),
}

/// What to do next with a reply.
#[derive(Debug)]
pub enum NextStep {
    /// Fail with this error.
    Fail(ApiError),
    /// Decode this body as one JSON reply; where it is none, fail with `ApiError::Parse`.
    DecodeJson(String),
    /// Decode each of these event payloads that is an event, and merge the events.
    DecodeEvents(Vec<String>),
}

/// `r` is the request a preset sends before its first call: no messages, `model`,
/// streaming as `stream` says, `tools` as given, and every other field at its default.
pub open spec fn is_preset(
    r: RequestChat,
    model: Seq<char>,
    stream: bool,
    tools: Option<Vec<FunctionalCallObject>>,
) -> bool {
    &&& r.messages@.len() == 0
    &&& r.model@ == model
    &&& r.stream == stream
    &&& r.tools == tools
    &&& has_default_settings((RequestChat { stream: false, tools: None, ..r }))
}

/// The session `s` once a call has put `messages` in its request: nothing else changes.
pub open spec fn session_after(s: ChatSession, messages: Vec<Message>) -> ChatSession {
    ChatSession { params: RequestChat { messages: messages, ..s.params }, ..s }
}

/// Calls do not pile up: a session that has sent `first` and then `second` is the session
/// that has sent `second` only.
pub proof fn lemma_latest_messages_win(s: ChatSession, first: Vec<Message>, second: Vec<Message>)
    ensures
        session_after(session_after(s, first), second) == session_after(s, second),
{
}

/// A call changes only the messages of the session's request: the transport, the key and
/// every other field of the request stay as they were.
pub proof fn lemma_call_changes_only_messages(s: ChatSession, messages: Vec<Message>)
    ensures
        session_after(s, messages).transport == s.transport,
        session_after(s, messages).api_key == s.api_key,
        session_after(s, messages).params.messages == messages,
        session_after(s, messages).params.model == s.params.model,
        session_after(s, messages).params.frequency_penalty_bits == s.params.frequency_penalty_bits,
        session_after(s, messages).params.max_tokens == s.params.max_tokens,
        session_after(s, messages).params.presence_penalty_bits == s.params.presence_penalty_bits,
        session_after(s, messages).params.response_format == s.params.response_format,
        session_after(s, messages).params.stop == s.params.stop,
        session_after(s, messages).params.stream == s.params.stream,
        session_after(s, messages).params.stream_options == s.params.stream_options,
        session_after(s, messages).params.temperature_bits == s.params.temperature_bits,
        session_after(s, messages).params.top_p_bits == s.params.top_p_bits,
        session_after(s, messages).params.tools == s.params.tools,
        session_after(s, messages).params.tool_choice == s.params.tool_choice,
        session_after(s, messages).params.logprobs == s.params.logprobs,
        session_after(s, messages).params.top_logprobs == s.params.top_logprobs,
{
}

/// The message that describes an error.
pub open spec fn error_message(e: ApiError) -> Seq<char> {
    match e {
        ApiError::Request(detail) => REQUEST_ERROR_PREFIX@ + detail@,
        ApiError::Connect => CONNECT_ERROR_MESSAGE@,
        ApiError::Response(detail) => RESPONSE_ERROR_PREFIX@ + detail@,
        ApiError::Parse(detail) => PARSE_ERROR_PREFIX@ + detail@,
    }
}

impl ApiError {
    /// The message that describes this error.
    pub fn message(&self) -> (res: String)
        ensures
            res@ == error_message(*self),
    {
        match self {
            ApiError::Request(detail) => REQUEST_ERROR_PREFIX.to_owned().concat(detail.as_str()),
            ApiError::Connect => CONNECT_ERROR_MESSAGE.to_owned(),
            ApiError::Response(detail) => RESPONSE_ERROR_PREFIX.to_owned().concat(
                detail.as_str(),
            ),
            ApiError::Parse(detail) => PARSE_ERROR_PREFIX.to_owned().concat(detail.as_str()),
        }
    }
}

/// The session of a completion function that sends `params` and hands back the raw
/// response, for the caller to read as a stream.
#[allow(non_snake_case)]
pub fn chat_DeepSeek_LLM_stream(params: RequestChat, api_key: &str) -> (res: ChatSession)
    ensures
        res.params == params,
        res.api_key@ == api_key@,
        res.transport is Stream,
{
    ChatSession { params, api_key: api_key.to_owned(), transport: Transport::Stream }
}

/// The session of a blocking completion function that sends `params` and reads the
/// body as one JSON reply.
#[allow(non_snake_case)]
pub fn chat_deepSeek_LLM_synchornous(params: RequestChat, api_key: &str) -> (res: ChatSession)
    ensures
        res.params == params,
        res.api_key@ == api_key@,
        res.transport is Blocking,
{
    ChatSession { params, api_key: api_key.to_owned(), transport: Transport::Blocking }
}

/// The session of an asynchronous completion function that sends `params` and reads
/// the body as one JSON reply, or as a stream of events where `params` asks for one.
#[allow(non_snake_case)]
pub fn chat_DeepSeek_LLM(params: RequestChat, api_key: &str) -> (res: ChatSession)
    ensures
        res.params == params,
        res.api_key@ == api_key@,
        res.transport is Async,
{
    ChatSession { params, api_key: api_key.to_owned(), transport: Transport::Async }
}

/// The request of a preset: no messages yet, `model`, every other field at its default.
fn preset_request(model: &str) -> (res: RequestChat)
    ensures
        res.messages@.len() == 0,
        res.model@ == model@,
        has_default_settings(res),
{
    RequestChat::new(Vec::new(), model.to_owned())
}

/// The asynchronous chat session: `deepseek-chat`, one JSON reply per call.
pub fn chat_completion(api_key: &str) -> (res: ChatSession)
    ensures
        is_preset(res.params, DEEPSEEK_MODEL_CHAT@, false, None),
        res.api_key@ == api_key@,
        res.transport is Async,
{
    let params = preset_request(DEEPSEEK_MODEL_CHAT);
    chat_DeepSeek_LLM(params, api_key)
}

/// The asynchronous code session: `deepseek-coder`, streamed, its events merged into one
/// reply per call.
pub fn code_completion(api_key: &str) -> (res: ChatSession)
    ensures
        is_preset(res.params, DEEPSEEK_MODEL_CODER@, true, None),
        res.api_key@ == api_key@,
        res.transport is Async,
{
    let mut params = preset_request(DEEPSEEK_MODEL_CODER);
    params.stream = true;
    chat_DeepSeek_LLM(params, api_key)
}

/// The asynchronous function-calling session: `deepseek-coder` offered `tools`, one JSON
/// reply per call.
pub fn llm_function_call(api_key: &str, tools: Vec<FunctionalCallObject>) -> (res: ChatSession)
    ensures
        is_preset(res.params, DEEPSEEK_MODEL_CODER@, false, Some(tools)),
        res.api_key@ == api_key@,
        res.transport is Async,
{
    let mut params = preset_request(DEEPSEEK_MODEL_CODER);
    params.tools = Some(tools);
    chat_DeepSeek_LLM(params, api_key)
}

/// The streaming chat session: `deepseek-chat`, streamed, the raw response per call.
pub fn chat_completion_stream(api_key: &str) -> (res: ChatSession)
    ensures
        is_preset(res.params, DEEPSEEK_MODEL_CHAT@, true, None),
        res.api_key@ == api_key@,
        res.transport is Stream,
{
    let mut params = preset_request(DEEPSEEK_MODEL_CHAT);
    params.stream = true;
    chat_DeepSeek_LLM_stream(params, api_key)
}

/// The streaming code session: `deepseek-coder`, streamed, the raw response per call.
pub fn code_completion_stream(api_key: &str) -> (res: ChatSession)
    ensures
        is_preset(res.params, DEEPSEEK_MODEL_CODER@, true, None),
        res.api_key@ == api_key@,
        res.transport is Stream,
{
    let mut params = preset_request(DEEPSEEK_MODEL_CODER);
    params.stream = true;
    chat_DeepSeek_LLM_stream(params, api_key)
}

/// The streaming function-calling session: `deepseek-coder` offered `tools`, streamed,
/// the raw response per call.
pub fn llm_function_call_stream(api_key: &str, tools: Vec<FunctionalCallObject>) -> (res:
    ChatSession)
    ensures
        is_preset(res.params, DEEPSEEK_MODEL_CODER@, true, Some(tools)),
        res.api_key@ == api_key@,
        res.transport is Stream,
{
    let mut params = preset_request(DEEPSEEK_MODEL_CODER);
    params.stream = true;
    params.tools = Some(tools);
    chat_DeepSeek_LLM_stream(params, api_key)
}

/// The blocking chat session: `deepseek-chat`, one JSON reply per call.
pub fn chat_completion_sync(api_key: &str) -> (res: ChatSession)
    ensures
        is_preset(res.params, DEEPSEEK_MODEL_CHAT@, false, None),
        res.api_key@ == api_key@,
        res.transport is Blocking,
{
    let params = preset_request(DEEPSEEK_MODEL_CHAT);
    chat_deepSeek_LLM_synchornous(params, api_key)
}

/// The blocking code session: `deepseek-coder`, one JSON reply per call.
pub fn code_completion_sync(api_key: &str) -> (res: ChatSession)
    ensures
        is_preset(res.params, DEEPSEEK_MODEL_CODER@, false, None),
        res.api_key@ == api_key@,
        res.transport is Blocking,
{
    let params = preset_request(DEEPSEEK_MODEL_CODER);
    chat_deepSeek_LLM_synchornous(params, api_key)
}

/// The blocking function-calling session: `deepseek-coder` offered `tools`, one JSON reply
/// per call.
pub fn llm_function_call_sync(api_key: &str, tools: Vec<FunctionalCallObject>) -> (res:
    ChatSession)
    ensures
        is_preset(res.params, DEEPSEEK_MODEL_CODER@, false, Some(tools)),
        res.api_key@ == api_key@,
        res.transport is Blocking,
{
    let mut params = preset_request(DEEPSEEK_MODEL_CODER);
    params.tools = Some(tools);
    chat_deepSeek_LLM_synchornous(params, api_key)
}

impl ChatSession {
    /// Takes `messages` as the conversation to send, in place of the previous one, and
    /// gives the request that carries it: a POST to the API with a JSON body and the key
    /// as bearer token.
    pub fn prepare_request(&mut self, messages: Vec<Message>) -> (req: PostRequest)
        ensures
            *final(self) == session_after(*old(self), messages),
            final(self).transport == old(self).transport,
            final(self).api_key == old(self).api_key,
            final(self).params.messages == messages,
            final(self).params.model == old(self).params.model,
            final(self).params.stream == old(self).params.stream,
            final(self).params.tools == old(self).params.tools,
            req.url@ == CHAT_COMPLETION_API_URL@,
            req.headers@.len() == 2,
            req.headers@[0].0@ == CONTENT_TYPE_HEADER@,
            req.headers@[0].1@ == JSON_MEDIA_TYPE@,
            req.headers@[1].0@ == AUTHORIZATION_HEADER@,
            req.headers@[1].1@ == BEARER_PREFIX@ + old(self).api_key@,
    {
        self.params.messages = messages;
        let mut headers: Vec<(String, String)> = Vec::new();
        headers.push((CONTENT_TYPE_HEADER.to_owned(), JSON_MEDIA_TYPE.to_owned()));
        let bearer = BEARER_PREFIX.to_owned().concat(self.api_key.as_str());
        headers.push((AUTHORIZATION_HEADER.to_owned(), bearer));
        PostRequest { url: CHAT_COMPLETION_API_URL.to_owned(), headers }
    }

    /// What is done with the response: handed back by a streaming session, read as events
    /// by an asynchronous session whose request asks for streaming, else read as JSON.
    pub fn reply_handling(&self) -> (res: ReplyHandling)
        ensures
            match self.transport {
                Transport::Stream => res is RawResponse,
                Transport::Blocking => res is BlockingJson,
                Transport::Async => if self.params.stream {
                    res is EventStream
                } else {
                    res is Json
                },
            },
    {
        match self.transport {
            Transport::Stream => ReplyHandling::RawResponse,
            Transport::Blocking => ReplyHandling::BlockingJson,
            Transport::Async => if self.params.stream {
                ReplyHandling::EventStream
            } else {
                ReplyHandling::Json
            },
        }
    }
}

impl ReplyHandling {
    /// The step that follows a reply event. A request that could not be built, or did
    /// not connect, fails (a blocking request reports both as a failed connection); an
    /// unreadable body fails; a body is decoded as JSON, or split into event payloads.
    pub fn on_reply(&self, event: ReplyEvent) -> (res: NextStep)
        requires
            !(*self is RawResponse),
            *self is BlockingJson ==> !(event is BodyUnreadable),
        ensures
            match event {
                ReplyEvent::RequestRejected(detail) => if *self is BlockingJson {
                    res == NextStep::Fail(ApiError::Connect)
                } else {
                    res == NextStep::Fail(ApiError::Request(detail))
                },
                ReplyEvent::ConnectFailed => res == NextStep::Fail(ApiError::Connect),
                ReplyEvent::BodyUnreadable(detail) => res == NextStep::Fail(
                    ApiError::Response(detail),
                ),
                ReplyEvent::Body(body) => if *self is EventStream {
                    res is DecodeEvents && res->DecodeEvents_0@.map_values(|p: String| p@)
                        == stream_payloads_spec(body@)
                } else {
                    res == NextStep::DecodeJson(body)
                },
            },
    {
        match event {
            ReplyEvent::RequestRejected(detail) => match self {
                ReplyHandling::BlockingJson => NextStep::Fail(ApiError::Connect),
                _ => NextStep::Fail(ApiError::Request(detail)),
            },
            ReplyEvent::ConnectFailed => NextStep::Fail(ApiError::Connect),
            ReplyEvent::BodyUnreadable(detail) => NextStep::Fail(ApiError::Response(detail)),
            ReplyEvent::Body(body) => match self {
                ReplyHandling::EventStream => NextStep::DecodeEvents(
                    stream_payloads(body.as_str()),
                ),
                _ => NextStep::DecodeJson(body),
            },
        }
    }
}

} // verus!
