use deepseek_api_client::{
    chat_DeepSeek_LLM, chat_DeepSeek_LLM_stream, chat_completion, chat_completion_stream,
    chat_completion_sync, chat_deepSeek_LLM_synchornous, code_completion, code_completion_stream,
    code_completion_sync, llm_function_call, llm_function_call_stream, llm_function_call_sync,
    ApiError, ChatSession, FunctionalCallObject, JsonValue, Message, NextStep, ReplyEvent,
    ReplyHandling, RequestChat, Transport, CHAT_COMPLETION_API_URL, DEEPSEEK_MODEL_CHAT,
    DEEPSEEK_MODEL_CODER,
};

fn messages() -> Vec<Message> {
    vec![
        Message { role: "system".to_owned(), content: "You are a helpful assistant".to_owned() },
        Message { role: "user".to_owned(), content: "Write Hello world in rust".to_owned() },
    ]
}

fn weather_tool() -> FunctionalCallObject {
    FunctionalCallObject::new("get_weather", "Get weather", JsonValue::Object(vec![]))
}

fn assert_defaults_but(r: &RequestChat, stream: bool, tools: bool) {
    assert!(r.messages.is_empty());
    assert_eq!(r.stream, stream);
    assert_eq!(r.tools.is_some(), tools);
    assert_eq!(r.max_tokens, 2048);
    assert_eq!(r.temperature_bits, 1.0f32.to_bits());
    assert_eq!(r.tool_choice, "none");
}

#[test]
fn presets() {
    let key = "sk-test";
    let s = chat_completion(key);
    assert_eq!(s.params.model, DEEPSEEK_MODEL_CHAT);
    assert_defaults_but(&s.params, false, false);
    assert!(matches!(s.transport, Transport::Async));
    assert_eq!(s.api_key, key);

    let s = code_completion(key);
    assert_eq!(s.params.model, DEEPSEEK_MODEL_CODER);
    assert_defaults_but(&s.params, true, false);
    assert!(matches!(s.transport, Transport::Async));

    let s = llm_function_call(key, vec![weather_tool()]);
    assert_eq!(s.params.model, "deepseek-coder");
    assert_defaults_but(&s.params, false, true);
    assert_eq!(s.params.tools.as_ref().unwrap()[0].function.name, "get_weather");
    assert!(matches!(s.transport, Transport::Async));

    let s = chat_completion_stream(key);
    assert_eq!(s.params.model, "deepseek-chat");
    assert_defaults_but(&s.params, true, false);
    assert!(matches!(s.transport, Transport::Stream));

    let s = code_completion_stream(key);
    assert_eq!(s.params.model, "deepseek-coder");
    assert_defaults_but(&s.params, true, false);
    assert!(matches!(s.transport, Transport::Stream));

    let s = llm_function_call_stream(key, vec![weather_tool()]);
    assert_eq!(s.params.model, "deepseek-coder");
    assert_defaults_but(&s.params, true, true);
    assert!(matches!(s.transport, Transport::Stream));

    let s = chat_completion_sync(key);
    assert_eq!(s.params.model, "deepseek-chat");
    assert_defaults_but(&s.params, false, false);
    assert!(matches!(s.transport, Transport::Blocking));

    let s = code_completion_sync(key);
    assert_eq!(s.params.model, "deepseek-coder");
    assert_defaults_but(&s.params, false, false);
    assert!(matches!(s.transport, Transport::Blocking));

    let s = llm_function_call_sync(key, vec![weather_tool()]);
    assert_eq!(s.params.model, "deepseek-coder");
    assert_defaults_but(&s.params, false, true);
    assert!(matches!(s.transport, Transport::Blocking));
}

#[test]
fn sessions_keep_their_request() {
    let s = chat_DeepSeek_LLM(RequestChat::new(messages(), "m".to_owned()), "k");
    assert!(matches!(s.transport, Transport::Async));
    assert_eq!(s.params.messages.len(), 2);
    assert_eq!(s.params.model, "m");
    let s = chat_DeepSeek_LLM_stream(RequestChat::new(vec![], "m".to_owned()), "k");
    assert!(matches!(s.transport, Transport::Stream));
    let s = chat_deepSeek_LLM_synchornous(RequestChat::new(vec![], "m".to_owned()), "k");
    assert!(matches!(s.transport, Transport::Blocking));
    assert_eq!(s.api_key, "k");
}

#[test]
fn request_carries_key_and_latest_messages() {
    let mut s = chat_completion("sk-abc");
    let first = s.prepare_request(messages());
    assert_eq!(first.url, CHAT_COMPLETION_API_URL);
    assert_eq!(first.url, "https://api.deepseek.com/chat/completions");
    assert_eq!(
        first.headers,
        vec![
            ("Content-Type".to_owned(), "application/json".to_owned()),
            ("Authorization".to_owned(), "Bearer sk-abc".to_owned()),
        ]
    );
    assert_eq!(s.params.messages.len(), 2);
    let second = s.prepare_request(vec![Message { role: "user".to_owned(), content: "again".to_owned() }]);
    assert_eq!(second.headers, first.headers);
    assert_eq!(s.params.messages.len(), 1);
    assert_eq!(s.params.messages[0].content, "again");
    assert_eq!(s.params.model, "deepseek-chat");
    assert!(!s.params.stream);
}

#[test]
fn reply_handling_by_transport() {
    assert!(matches!(chat_completion_stream("k").reply_handling(), ReplyHandling::RawResponse));
    assert!(matches!(chat_completion_sync("k").reply_handling(), ReplyHandling::BlockingJson));
    assert!(matches!(chat_completion("k").reply_handling(), ReplyHandling::Json));
    assert!(matches!(code_completion("k").reply_handling(), ReplyHandling::EventStream));
    let mut streamed_sync = chat_completion_sync("k");
    streamed_sync.params.stream = true;
    assert!(matches!(streamed_sync.reply_handling(), ReplyHandling::BlockingJson));
}

fn fail_message(step: NextStep) -> String {
    match step {
        NextStep::Fail(e) => e.message(),
        other => panic!("expected a failure, got {:?}", other),
    }
}

#[test]
fn replies_of_an_async_session() {
    let s: ChatSession = chat_completion("k");
    let s = s.reply_handling();
    assert_eq!(fail_message(s.on_reply(ReplyEvent::RequestRejected("Err(bad)".to_owned()))), "Request Err(bad)");
    assert_eq!(fail_message(s.on_reply(ReplyEvent::ConnectFailed)), "Can't connect to API");
    assert_eq!(fail_message(s.on_reply(ReplyEvent::BodyUnreadable("Err(x)".to_owned()))), "Result response Err(x)");
    match s.on_reply(ReplyEvent::Body("{}".to_owned())) {
        NextStep::DecodeJson(b) => assert_eq!(b, "{}"),
        other => panic!("unexpected {:?}", other),
    }
    let c = code_completion("k").reply_handling();
    match c.on_reply(ReplyEvent::Body("data: {}\n\ndata: [DONE]\n\n".to_owned())) {
        NextStep::DecodeEvents(ps) => assert_eq!(ps, vec!["{}", "[DONE]", ""]),
        other => panic!("unexpected {:?}", other),
    }
}

#[test]
fn replies_of_a_blocking_session() {
    let s = chat_completion_sync("k").reply_handling();
    assert_eq!(fail_message(s.on_reply(ReplyEvent::RequestRejected("x".to_owned()))), "Can't connect to API");
    assert_eq!(fail_message(s.on_reply(ReplyEvent::ConnectFailed)), "Can't connect to API");
    match s.on_reply(ReplyEvent::Body("data: x".to_owned())) {
        NextStep::DecodeJson(b) => assert_eq!(b, "data: x"),
        other => panic!("unexpected {:?}", other),
    }
}

#[test]
fn error_messages() {
    assert_eq!(ApiError::Parse("Err(eof)".to_owned()).message(), "Parse error Err(eof)");
    assert_eq!(ApiError::Connect.message(), "Can't connect to API");
    assert_eq!(ApiError::Request("r".to_owned()).message(), "Request r");
    assert_eq!(ApiError::Response("s".to_owned()).message(), "Result response s");
}
