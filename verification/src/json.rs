use vstd::prelude::*;

use crate::text::str_equal;

verus! {

/// A JSON value held as plain values: a number keeps its decimal text and an
/// object keeps its members in order, each key once.
#[derive(Debug)]
pub enum JsonValue {
    Null,
    Bool(bool),
    Number(String),
    String(String),
    Array(Vec<JsonValue>),
    Object(Vec<(String, JsonValue)>),
}

/// The value of the first member of `members` whose key is `key`.
pub open spec fn member_value(members: Seq<(String, JsonValue)>, key: Seq<char>) -> Option<
    JsonValue,
>
    decreases members.len(),
{
    if members.len() == 0 {
        None
    } else if members[0].0@ == key {
        Some(members[0].1)
    } else {
        member_value(members.drop_first(), key)
    }
}

/// What `value.get(key)` gives: the member `key` of an object, nothing for any other value.
pub open spec fn lookup(value: JsonValue, key: Seq<char>) -> Option<JsonValue> {
    match value {
        JsonValue::Object(members) => member_value(members@, key),
        _ => None,
    }
}

/// Looking a key up is the same as looking it up past the members before the `k`-th.
proof fn lemma_member_value_suffix(members: Seq<(String, JsonValue)>, key: Seq<char>, k: int)
    requires
        0 <= k <= members.len(),
        forall|j: int| 0 <= j < k ==> members[j].0@ != key,
    ensures
        member_value(members, key) == member_value(members.skip(k), key),
    decreases k,
{
    if k > 0 {
        lemma_member_value_suffix(members.drop_first(), key, k - 1);
        assert(members.drop_first().skip(k - 1) =~= members.skip(k));
    } else {
        assert(members.skip(0) =~= members);
    }
}

/// The value of the member `key` of the object `members`, as `serde_json::Map::get` finds it.
pub fn member_get<'a>(members: &'a Vec<(String, JsonValue)>, key: &str) -> (res: Option<
    &'a JsonValue,
>)
    ensures
        match res {
            Some(v) => member_value(members@, key@) == Some(*v),
            None => member_value(members@, key@) is None,
        },
{
    let mut i: usize = 0;
    while i < members.len()
        invariant
            0 <= i <= members.len(),
            forall|j: int| 0 <= j < i ==> members@[j].0@ != key@,
        decreases members.len() - i,
    {
        if str_equal(members[i].0.as_str(), key) {
            proof {
                lemma_member_value_suffix(members@, key@, i as int);
            }
            return Some(&members[i].1);
        }
        i = i + 1;
    }
    proof {
        lemma_member_value_suffix(members@, key@, i as int);
    }
    None
}

impl JsonValue {
    /// The members of an object; `None` for any other kind of value.
    pub fn as_object(&self) -> (res: Option<&Vec<(String, JsonValue)>>)
        ensures
            match *self {
                JsonValue::Object(m) => res == Some(&m),
                _ => res is None,
            },
    {
        match self {
            JsonValue::Object(m) => Some(m),
            _ => None,
        }
    }

    /// The member `key` of an object; `None` for a missing key or for any other kind of value.
    pub fn get(&self, key: &str) -> (res: Option<&JsonValue>)
        ensures
            match res {
                Some(v) => lookup(*self, key@) == Some(*v),
                None => lookup(*self, key@) is None,
            },
    {
        match self {
            JsonValue::Object(m) => member_get(m, key),
            _ => None,
        }
    }

    /// The text of a string value; `None` for any other kind of value.
    pub fn as_str(&self) -> (res: Option<&str>)
        ensures
            match *self {
                JsonValue::String(t) => res is Some && res->0@ == t@,
                _ => res is None,
            },
    {
        match self {
            JsonValue::String(t) => Some(t.as_str()),
            _ => None,
        }
    }
}

} // verus!
