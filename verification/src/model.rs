use vstd::prelude::*;

use crate::json::JsonValue;

verus! {

/// One message of a conversation: who speaks (`system`, `user`, `assistant`) and what.
#[derive(Clone, Debug)]
pub struct Message {
    pub role: String,
    pub content: String,
}

/// A function that the model may call, as the API describes tools.
#[derive(Debug)]
pub struct FunctionalCallObject {
    /// The kind of tool; always `function`.
    pub tool_type: String,
    pub function: FunctionalCallObjectSingle,
}

/// The name, description and JSON-schema parameters of a callable function.
#[derive(Debug)]
pub struct FunctionalCallObjectSingle {
    pub name: String,
    pub description: String,
    pub parameters: JsonValue,
}

/// The log probability of one token. The probability is a 32-bit float, held here by
/// its IEEE 754 bit pattern.
#[derive(Debug)]
pub struct LogprobsObject {
    pub token: String,
    pub logprob_bits: u32,
    pub bytes: Option<Vec<i32>>,
}

/// The log probability of one token together with the most likely alternatives.
#[derive(Debug)]
pub struct TopLogprobsObject {
    pub token: String,
    pub logprob_bits: u32,
    pub bytes: Option<Vec<i32>>,
    pub top_logprobs: Vec<LogprobsObject>,
}

/// The log probabilities of a choice's tokens.
#[derive(Debug)]
pub struct LogprobsContent {
    pub content: Option<Vec<TopLogprobsObject>>,
}

/// The message of a choice; its content is absent for a reply made only of tool calls.
#[derive(Clone, Debug)]
pub struct ChoiceObjectMessage {
    pub role: String,
    pub content: Option<String>,
}

/// One reply that the model offers.
#[derive(Debug)]
pub struct ChoiceObject {
    pub finish_reason: Option<String>,
    pub index: i32,
    pub logprobs: Option<LogprobsContent>,
    pub message: ChoiceObjectMessage,
}

/// Token counts of a request.
#[derive(Debug)]
pub struct Usage {
    pub completion_tokens: i32,
    pub prompt_tokens: i32,
    pub total_tokens: i32,
}

/// The format that the reply is asked in (`text` or `json_object`).
#[derive(Debug)]
pub struct ResponseFormatType {
    pub format_type: String,
}

/// The body of a chat completion request. Its sampling parameters are 32-bit floats,
/// held here by their IEEE 754 bit patterns.
#[derive(Debug)]
pub struct RequestChat {
    pub messages: Vec<Message>,
    pub model: String,
    pub frequency_penalty_bits: u32,
    pub max_tokens: usize,
    pub presence_penalty_bits: u32,
    pub response_format: ResponseFormatType,
    pub stop: Option<String>,
    pub stream: bool,
    pub stream_options: Option<String>,
    pub temperature_bits: u32,
    pub top_p_bits: u32,
    pub tools: Option<Vec<FunctionalCallObject>>,
    pub tool_choice: String,
    pub logprobs: bool,
    pub top_logprobs: Option<i32>,
}

/// A complete chat completion reply.
#[derive(Debug)]
pub struct ChatResponses {
    pub id: String,
    pub object: String,
    pub created: i64,
    pub model: String,
    pub system_fingerprint: String,
    pub choices: Vec<ChoiceObject>,
    pub usage: Option<Usage>,
}

/// One event of a streamed chat completion reply.
#[derive(Debug)]
pub struct ChatResponsesStream {
    pub id: String,
    pub object: String,
    pub created: i64,
    pub model: String,
    pub system_fingerprint: String,
    pub choices: Vec<ChoiceObjectChunk>,
    pub usage: Option<Usage>,
}

/// One choice of a streamed event: `delta` holds the part of the message that it adds.
#[derive(Debug)]
pub struct ChoiceObjectChunk {
    pub finish_reason: Option<String>,
    pub index: i32,
    pub logprobs: Option<LogprobsContent>,
    pub delta: JsonValue,
}

/// The bit pattern of the 32-bit float 0.0.
pub const FLOAT_ZERO_BITS: u32 = 0x0000_0000u32;

/// The bit pattern of the 32-bit float 1.0.
pub const FLOAT_ONE_BITS: u32 = 0x3f80_0000u32;

/// The number of tokens that a reply may take unless the request says otherwise.
pub const DEFAULT_MAX_TOKENS: usize = 2048usize;

pub open spec fn text_literal() -> Seq<char> {
    seq!['t', 'e', 'x', 't']
}

pub open spec fn none_literal() -> Seq<char> {
    seq!['n', 'o', 'n', 'e']
}

pub open spec fn function_literal() -> Seq<char> {
    seq!['f', 'u', 'n', 'c', 't', 'i', 'o', 'n']
}

/// Every field of `r` but the messages and the model has its default value.
pub open spec fn has_default_settings(r: RequestChat) -> bool {
    &&& r.frequency_penalty_bits == FLOAT_ZERO_BITS
    &&& r.max_tokens == DEFAULT_MAX_TOKENS
    &&& r.presence_penalty_bits == FLOAT_ZERO_BITS
    &&& r.response_format.format_type@ == text_literal()
    &&& r.stop is None
    &&& !r.stream
    &&& r.stream_options is None
    &&& r.temperature_bits == FLOAT_ONE_BITS
    &&& r.top_p_bits == FLOAT_ONE_BITS
    &&& r.tools is None
    &&& r.tool_choice@ == none_literal()
    &&& !r.logprobs
    &&& r.top_logprobs is None
}

impl FunctionalCallObject {
    /// A function tool with the given name, description and parameter schema.
    pub fn new(fname: &str, fdesc: &str, parameters: JsonValue) -> (res: Self)
        ensures
            res.tool_type@ == function_literal(),
            res.function.name@ == fname@,
            res.function.description@ == fdesc@,
            res.function.parameters == parameters,
    {
        let tool_type = "function".to_owned();
        proof {
            reveal_strlit("function");
        }
        FunctionalCallObject {
            tool_type,
            function: FunctionalCallObjectSingle {
                name: fname.to_owned(),
                description: fdesc.to_owned(),
                parameters,
            },
        }
    }
}

impl RequestChat {
    /// A request for `model` on `messages`, every other field at its default:
    /// no penalties, at most 2048 tokens, text replies, no stop word, no streaming,
    /// temperature and top-p 1, no tools (`tool_choice` is `none`), no log probabilities.
    pub fn new(messages: Vec<Message>, model: String) -> (res: Self)
        ensures
            res.messages == messages,
            res.model == model,
            has_default_settings(res),
    {
        let format_type = "text".to_owned();
        let tool_choice = "none".to_owned();
        proof {
            reveal_strlit("text");
            reveal_strlit("none");
        }
        let res = RequestChat {
            messages,
            model,
            frequency_penalty_bits: FLOAT_ZERO_BITS,
            max_tokens: DEFAULT_MAX_TOKENS,
            presence_penalty_bits: FLOAT_ZERO_BITS,
            response_format: ResponseFormatType { format_type },
            stop: None,
            stream: false,
            stream_options: None,
            temperature_bits: FLOAT_ONE_BITS,
            top_p_bits: FLOAT_ONE_BITS,
            tools: None,
            tool_choice,
            logprobs: false,
            top_logprobs: None,
        };
        assert(res.response_format.format_type@ == text_literal());
        assert(res.tool_choice@ == none_literal());
        assert(res.max_tokens == DEFAULT_MAX_TOKENS);
        res
    }
}

/// The content of the choice at `ind`; `None` where there is no such choice or it has no content.
pub open spec fn response_text(d: ChatResponses, ind: int) -> Option<String> {
    if 0 <= ind < d.choices@.len() {
        d.choices@[ind].message.content
    } else {
        None
    }
}

/// The text of a reply's `ind`-th choice is that choice's message content whenever `ind`
/// is below the number of choices, and `None` past them.
pub proof fn lemma_response_text_is_choice_content(d: ChatResponses, ind: int)
    ensures
        0 <= ind < d.choices@.len() ==> response_text(d, ind) == d.choices@[ind].message.content,
        ind >= d.choices@.len() ==> response_text(d, ind) is None,
{
}

/// The text of a choice depends on the choices alone: replies that differ in their id,
/// object, creation time, model, fingerprint or usage give the same text.
pub proof fn lemma_response_text_ignores_other_fields(d1: ChatResponses, d2: ChatResponses, ind: int)
    requires
        d1.choices@ == d2.choices@,
    ensures
        response_text(d1, ind) == response_text(d2, ind),
{
}

/// The text content of the `ind`-th choice of a reply.
pub fn get_response_text(d: &ChatResponses, ind: usize) -> (res: Option<String>)
    ensures
        res == response_text(*d, ind as int),
{
    if ind < d.choices.len() {
        match &d.choices[ind].message.content {
            Some(text) => Some(text.clone()),
            None => None,
        }
    } else {
        None
    }
}

} // verus!
