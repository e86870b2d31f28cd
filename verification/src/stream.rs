use vstd::prelude::*;

use crate::json::{lookup, member_get, JsonValue};
use crate::model::{response_text, ChatResponses, ChatResponsesStream, ChoiceObject, ChoiceObjectMessage};

verus! {

broadcast use vstd::string::group_string_axioms;

/// The key under which a streamed delta carries its text.
pub open spec fn content_key() -> Seq<char> {
    seq!['c', 'o', 'n', 't', 'e', 'n', 't']
}

/// The role of a reassembled streamed message.
pub open spec fn assistant_literal() -> Seq<char> {
    seq!['a', 's', 's', 'i', 's', 't', 'a', 'n', 't']
}

/// An event can be merged when its first choice has a delta that is an object with
/// a `content` member.
pub open spec fn chunk_is_complete(c: ChatResponsesStream) -> bool {
    &&& c.choices@.len() > 0
    &&& c.choices@[0].delta is Object
    &&& lookup(c.choices@[0].delta, content_key()) is Some
}

/// The text that an event adds: its first choice's `content` where that is a string,
/// and nothing where it is another kind of value.
pub open spec fn chunk_text(c: ChatResponsesStream) -> Seq<char> {
    match lookup(c.choices@[0].delta, content_key()) {
        Some(JsonValue::String(t)) => t@,
        _ => Seq::empty(),
    }
}

/// The text of a stream: the texts of its events, in order.
pub open spec fn streamed_text(chunks: Seq<ChatResponsesStream>) -> Seq<char>
    decreases chunks.len(),
{
    if chunks.len() == 0 {
        Seq::empty()
    } else {
        streamed_text(chunks.drop_last()) + chunk_text(chunks.last())
    }
}

/// `res` is the reply that the events `chunks` make together: nothing but empty fields
/// where there is no event; else the fields of the first event and one choice, at the
/// first event's index, whose message holds the whole text of the stream.
pub open spec fn is_merged_reply(chunks: Seq<ChatResponsesStream>, res: ChatResponses) -> bool {
    &&& res.usage is None
    &&& if chunks.len() == 0 {
        &&& res.id@.len() == 0
        &&& res.object@.len() == 0
        &&& res.created == 0
        &&& res.model@.len() == 0
        &&& res.system_fingerprint@.len() == 0
        &&& res.choices@.len() == 0
    } else {
        &&& res.id == chunks[0].id
        &&& res.object == chunks[0].object
        &&& res.created == chunks[0].created
        &&& res.model == chunks[0].model
        &&& res.system_fingerprint == chunks[0].system_fingerprint
        &&& res.choices@.len() == 1
        &&& res.choices@[0].finish_reason is None
        &&& res.choices@[0].index == chunks[0].choices@[0].index
        &&& res.choices@[0].logprobs is None
        &&& res.choices@[0].message.role@ == assistant_literal()
        &&& res.choices@[0].message.content is Some
        &&& res.choices@[0].message.content->0@ == streamed_text(chunks)
    }
}

/// The text of a stream made of two parts is the text of the first part followed by the
/// text of the second.
pub proof fn lemma_streamed_text_concat(a: Seq<ChatResponsesStream>, b: Seq<ChatResponsesStream>)
    ensures
        streamed_text(a + b) == streamed_text(a) + streamed_text(b),
    decreases b.len(),
{
    if b.len() == 0 {
        assert(a + b =~= a);
        assert(streamed_text(a) + Seq::<char>::empty() =~= streamed_text(a));
    } else {
        lemma_streamed_text_concat(a, b.drop_last());
        assert((a + b).drop_last() =~= a + b.drop_last());
        assert((a + b).last() == b.last());
        assert(streamed_text(a + b) =~= streamed_text(a) + streamed_text(b));
    }
}

/// The first choice of a merged reply holds the whole text of the stream, and a merged
/// empty stream has no text.
pub proof fn lemma_merged_reply_text(chunks: Seq<ChatResponsesStream>, merged: ChatResponses)
    requires
        is_merged_reply(chunks, merged),
    ensures
        chunks.len() == 0 ==> response_text(merged, 0) is None,
        chunks.len() > 0 ==> response_text(merged, 0) is Some && response_text(
            merged,
            0,
        )->0@ == streamed_text(chunks),
{
}

/// Merging a stream read in two parts: the whole reply has the fields of the first part's
/// reply, and its text is the first part's text followed by the second part's.
pub proof fn lemma_merge_in_parts(
    a: Seq<ChatResponsesStream>,
    b: Seq<ChatResponsesStream>,
    merged_a: ChatResponses,
    merged_b: ChatResponses,
    merged: ChatResponses,
)
    requires
        a.len() > 0,
        b.len() > 0,
        is_merged_reply(a, merged_a),
        is_merged_reply(b, merged_b),
        is_merged_reply(a + b, merged),
    ensures
        merged.id == merged_a.id,
        merged.object == merged_a.object,
        merged.created == merged_a.created,
        merged.model == merged_a.model,
        merged.system_fingerprint == merged_a.system_fingerprint,
        merged.choices@[0].index == merged_a.choices@[0].index,
        response_text(merged, 0)->0@ == response_text(merged_a, 0)->0@ + response_text(
            merged_b,
            0,
        )->0@,
{
    lemma_streamed_text_concat(a, b);
    assert((a + b)[0] == a[0]);
}

/// Merging one event: the reply's text is the string value of the event's `content`
/// member, character for character, and empty where that member is not a string.
pub proof fn lemma_merge_one_event(c: ChatResponsesStream, merged: ChatResponses)
    requires
        chunk_is_complete(c),
        is_merged_reply(seq![c], merged),
    ensures
        merged.choices@.len() == 1,
        merged.choices@[0].index == c.choices@[0].index,
        merged.id == c.id,
        merged.model == c.model,
        match lookup(c.choices@[0].delta, content_key()) {
            Some(JsonValue::String(t)) => merged.choices@[0].message.content->0@ == t@,
            _ => merged.choices@[0].message.content->0@ == Seq::<char>::empty(),
        },
{
    assert(seq![c].drop_last() =~= Seq::<ChatResponsesStream>::empty());
    assert(streamed_text(Seq::<ChatResponsesStream>::empty()) == Seq::<char>::empty());
    assert(seq![c].last() == c);
    assert(streamed_text(seq![c]) =~= chunk_text(c));
}

/// Merging two events whose `content` members are the strings `first` and `second`:
/// the reply's text is `first` followed by `second`, each unchanged.
pub proof fn lemma_merge_two_texts(
    c1: ChatResponsesStream,
    c2: ChatResponsesStream,
    first: String,
    second: String,
    merged: ChatResponses,
)
    requires
        c1.choices@.len() > 0,
        c2.choices@.len() > 0,
        lookup(c1.choices@[0].delta, content_key()) == Some(JsonValue::String(first)),
        lookup(c2.choices@[0].delta, content_key()) == Some(JsonValue::String(second)),
        is_merged_reply(seq![c1, c2], merged),
    ensures
        merged.choices@[0].message.content->0@ == first@ + second@,
        merged.id == c1.id,
        merged.choices@[0].index == c1.choices@[0].index,
{
    let chunks = seq![c1, c2];
    assert(chunks.drop_last() =~= seq![c1]);
    assert(seq![c1].drop_last() =~= Seq::<ChatResponsesStream>::empty());
    assert(streamed_text(Seq::<ChatResponsesStream>::empty()) == Seq::<char>::empty());
    assert(seq![c1].last() == c1);
    assert(chunks.last() == c2);
    assert(streamed_text(seq![c1]) =~= chunk_text(c1));
    assert(streamed_text(chunks) =~= first@ + second@);
}

/// An event is merged when, and only when, it has a first choice whose delta is an object
/// with a `content` member: no other field of the event or of that choice matters.
pub proof fn lemma_complete_exactly_with_content(c: ChatResponsesStream)
    ensures
        c.choices@.len() == 0 ==> !chunk_is_complete(c),
        c.choices@.len() > 0 ==> (chunk_is_complete(c) <==> lookup(
            c.choices@[0].delta,
            content_key(),
        ) is Some),
{
}

/// Whether an event can be merged does not depend on its first choice's finish reason,
/// index or log probabilities, nor on the event's other fields or later choices.
pub proof fn lemma_complete_ignores_other_fields(c: ChatResponsesStream, d: ChatResponsesStream)
    requires
        c.choices@.len() == d.choices@.len(),
        c.choices@.len() > 0 ==> c.choices@[0].delta == d.choices@[0].delta,
    ensures
        chunk_is_complete(c) == chunk_is_complete(d),
{
}

/// Whether an event can be merged (see `chunk_is_complete`).
pub fn stream_chunk_is_complete(c: &ChatResponsesStream) -> (res: bool)
    ensures
        res == chunk_is_complete(*c),
{
    if c.choices.len() == 0 {
        return false;
    }
    proof {
        reveal_strlit("content");
        assert("content"@ =~= content_key());
    }
    match c.choices[0].delta.as_object() {
        Some(members) => member_get(members, "content").is_some(),
        None => false,
    }
}

/// The text that a complete event adds.
fn delta_text(c: &ChatResponsesStream) -> (res: &str)
    requires
        chunk_is_complete(*c),
    ensures
        res@ == chunk_text(*c),
{
    proof {
        reveal_strlit("content");
        assert("content"@ =~= content_key());
    }
    let members = c.choices[0].delta.as_object().unwrap();
    let value = member_get(members, "content").unwrap();
    proof {
        reveal_strlit("");
        assert(""@ =~= Seq::<char>::empty());
    }
    value.as_str().unwrap_or("")
}

/// Merges the events of a streamed reply into one reply: the first event gives the
/// reply's fields and its choice's index, every event adds its delta's text to the
/// message of that one choice.
pub fn merge_stream_chunks(chunks: &Vec<ChatResponsesStream>) -> (res: ChatResponses)
    requires
        forall|k: int| 0 <= k < chunks@.len() ==> chunk_is_complete(#[trigger] chunks@[k]),
    ensures
        is_merged_reply(chunks@, res),
{
    if chunks.len() == 0 {
        return ChatResponses {
            id: String::new(),
            object: String::new(),
            created: 0,
            model: String::new(),
            system_fingerprint: String::new(),
            choices: Vec::new(),
            usage: None,
        };
    }
    let mut text = String::new();
    let mut k: usize = 0;
    while k < chunks.len()
        invariant
            0 <= k <= chunks@.len(),
            forall|j: int| 0 <= j < chunks@.len() ==> chunk_is_complete(#[trigger] chunks@[j]),
            text@ == streamed_text(chunks@.take(k as int)),
        decreases chunks@.len() - k,
    {
        let piece = delta_text(&chunks[k]);
        text.append(piece);
        proof {
            assert(chunks@.take(k + 1).drop_last() =~= chunks@.take(k as int));
        }
        k = k + 1;
    }
    proof {
        assert(chunks@.take(chunks@.len() as int) =~= chunks@);
    }
    let first = &chunks[0];
    let role = "assistant".to_owned();
    proof {
        reveal_strlit("assistant");
    }
    let message = ChoiceObjectMessage { role, content: Some(text) };
    let choice = ChoiceObject {
        finish_reason: None,
        index: first.choices[0].index,
        logprobs: None,
        message,
    };
    let mut choices: Vec<ChoiceObject> = Vec::new();
    choices.push(choice);
    let res = ChatResponses {
        id: first.id.clone(),
        object: first.object.clone(),
        created: first.created,
        model: first.model.clone(),
        system_fingerprint: first.system_fingerprint.clone(),
        choices,
        usage: None,
    };
    assert(res.choices@[0].message.role@ == assistant_literal());
    res
}

} // verus!
