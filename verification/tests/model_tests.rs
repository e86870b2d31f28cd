use deepseek_api_client::json::member_get;
use deepseek_api_client::model::{DEFAULT_MAX_TOKENS, FLOAT_ONE_BITS, FLOAT_ZERO_BITS};
use deepseek_api_client::{
    get_response_text, ChatResponses, ChoiceObject, ChoiceObjectMessage, FunctionalCallObject,
    JsonValue, Message, RequestChat,
};

fn text(s: &str) -> JsonValue {
    JsonValue::String(s.to_owned())
}

fn object(members: Vec<(&str, JsonValue)>) -> JsonValue {
    JsonValue::Object(members.into_iter().map(|(k, v)| (k.to_owned(), v)).collect())
}

fn choice(index: i32, content: Option<&str>) -> ChoiceObject {
    ChoiceObject {
        finish_reason: Some("stop".to_owned()),
        index,
        logprobs: None,
        message: ChoiceObjectMessage {
            role: "assistant".to_owned(),
            content: content.map(|c| c.to_owned()),
        },
    }
}

fn reply(choices: Vec<ChoiceObject>) -> ChatResponses {
    ChatResponses {
        id: "r-1".to_owned(),
        object: "chat.completion".to_owned(),
        created: 1_700_000_000,
        model: "deepseek-chat".to_owned(),
        system_fingerprint: "fp".to_owned(),
        choices,
        usage: None,
    }
}

#[test]
fn response_text_of_first_choice() {
    let d = reply(vec![choice(0, Some("Hello, world")), choice(1, Some("Hi"))]);
    assert_eq!(get_response_text(&d, 0), Some("Hello, world".to_owned()));
    assert_eq!(get_response_text(&d, 1), Some("Hi".to_owned()));
}

#[test]
fn response_text_past_the_last_choice() {
    let d = reply(vec![choice(0, Some("Hello"))]);
    assert_eq!(get_response_text(&d, 1), None);
    assert_eq!(get_response_text(&reply(vec![]), 0), None);
}

#[test]
fn response_text_of_a_choice_without_content() {
    let d = reply(vec![choice(0, None)]);
    assert_eq!(get_response_text(&d, 0), None);
}

#[test]
fn function_tool_holds_its_schema() {
    let schema = object(vec![
        ("type", text("object")),
        ("required", JsonValue::Array(vec![text("location")])),
        (
            "properties",
            object(vec![(
                "location",
                object(vec![
                    ("type", text("string")),
                    ("description", text("The city and state, e.g. San Francisco, CA")),
                ]),
            )]),
        ),
    ]);
    let t = FunctionalCallObject::new(
        "get_weather",
        "Get weather of an location, the user shoud supply a location first",
        schema,
    );
    assert_eq!(t.tool_type, "function");
    assert_eq!(t.function.name, "get_weather");
    assert_eq!(
        t.function.description,
        "Get weather of an location, the user shoud supply a location first"
    );
    assert_eq!(t.function.parameters.get("type").and_then(|v| v.as_str()), Some("object"));
    assert!(t.function.parameters.get("properties").and_then(|v| v.get("location")).is_some());
}

#[test]
fn request_defaults() {
    let messages = vec![Message { role: "user".to_owned(), content: "hi".to_owned() }];
    let r = RequestChat::new(messages, "deepseek-chat".to_owned());
    assert_eq!(r.messages.len(), 1);
    assert_eq!(r.messages[0].content, "hi");
    assert_eq!(r.model, "deepseek-chat");
    assert_eq!(r.frequency_penalty_bits, 0.0f32.to_bits());
    assert_eq!(r.presence_penalty_bits, 0.0f32.to_bits());
    assert_eq!(r.temperature_bits, 1.0f32.to_bits());
    assert_eq!(r.top_p_bits, 1.0f32.to_bits());
    assert_eq!(FLOAT_ZERO_BITS, 0.0f32.to_bits());
    assert_eq!(FLOAT_ONE_BITS, 1.0f32.to_bits());
    assert_eq!(r.max_tokens, 2048);
    assert_eq!(DEFAULT_MAX_TOKENS, 2048);
    assert_eq!(r.response_format.format_type, "text");
    assert_eq!(r.stop, None);
    assert!(!r.stream);
    assert_eq!(r.stream_options, None);
    assert!(r.tools.is_none());
    assert_eq!(r.tool_choice, "none");
    assert!(!r.logprobs);
    assert_eq!(r.top_logprobs, None);
}

#[test]
fn json_lookups() {
    let v = object(vec![("role", text("assistant")), ("content", JsonValue::Null)]);
    assert!(v.as_object().is_some());
    assert!(matches!(v.get("content"), Some(JsonValue::Null)));
    assert_eq!(v.get("role").and_then(|r| r.as_str()), Some("assistant"));
    assert!(v.get("missing").is_none());
    assert!(text("x").as_object().is_none());
    assert!(text("x").get("role").is_none());
    assert_eq!(JsonValue::Number("3".to_owned()).as_str(), None);
}

#[test]
fn member_lookup_takes_the_first_match() {
    let members = vec![
        ("k".to_owned(), text("first")),
        ("k".to_owned(), text("second")),
    ];
    assert_eq!(member_get(&members, "k").and_then(|v| v.as_str()), Some("first"));
    assert!(member_get(&members, "K").is_none());
}
