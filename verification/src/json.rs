//! A plain model of JSON values, as the model registry stores a model's
//! capabilities (numbers are kept as their text).

use vstd::prelude::*;

verus! {

/// A JSON value. Numbers are held as their decimal text, and an object as
/// its members in order.
#[derive(Debug)]
pub enum JsonValue {
    Null,
    Bool(bool),
    Number(String),
    String(String),
    Array(Vec<JsonValue>),
    Object(Vec<(String, JsonValue)>),
}

/// The value of the first member named `key` among `members` (a JSON object
/// holds each name once).
pub open spec fn member_spec(members: Seq<(String, JsonValue)>, key: Seq<char>) -> Option<JsonValue>
    decreases members.len(),
{
    if members.len() == 0 {
        None
    } else if members[0].0@ == key {
        Some(members[0].1)
    } else {
        member_spec(members.drop_first(), key)
    }
}

/// `value.get(key)`: the member `key` of an object, `None` for a value that
/// is no object or has no such member.
pub open spec fn get_spec(value: JsonValue, key: Seq<char>) -> Option<JsonValue> {
    match value {
        JsonValue::Object(members) => member_spec(members@, key),
        _ => None,
    }
}

/// `value.as_str()`: the text of a JSON string, `None` for any other value.
pub open spec fn as_str_spec(value: Option<JsonValue>) -> Option<Seq<char>> {
    match value {
        Some(JsonValue::String(s)) => Some(s@),
        _ => None,
    }
}

fn member<'a>(members: &'a Vec<(String, JsonValue)>, key: &String) -> (res: Option<&'a JsonValue>)
    ensures
        match member_spec(members@, key@) {
            Some(v) => res matches Some(r) && *r == v,
            None => res is None,
        },
{
    let n = members.len();
    let mut i: usize = 0;
    assert(members@.skip(0) =~= members@);
    while i < n
        invariant
            n == members@.len(),
            i <= n,
            member_spec(members@, key@) == member_spec(members@.skip(i as int), key@),
        decreases n - i,
    {
        let ghost rest = members@.skip(i as int);
        assert(rest.drop_first() =~= members@.skip(i + 1));
        if members[i].0 == *key {
            return Some(&members[i].1);
        }
        i = i + 1;
    }
    assert(members@.skip(n as int) =~= Seq::<(String, JsonValue)>::empty());
    None
}

/// Whether no member among `members` is named `key`.
pub open spec fn no_member_named(members: Seq<(String, JsonValue)>, key: Seq<char>) -> bool {
    forall|i: int| 0 <= i < members.len() ==> (#[trigger] members[i]).0@ != key
}

/// Looking a name up among an object's members finds the first member of
/// that name, and finds nothing exactly when no member has that name.
pub proof fn lemma_member_is_first_named(members: Seq<(String, JsonValue)>, key: Seq<char>)
    ensures
        member_spec(members, key) is None <==> no_member_named(members, key),
        member_spec(members, key) matches Some(v) ==> exists|i: int|
            0 <= i < members.len() && (#[trigger] members[i]).0@ == key && members[i].1 == v
                && no_member_named(members.take(i), key),
    decreases members.len(),
{
    if members.len() > 0 {
        let rest = members.drop_first();
        lemma_member_is_first_named(rest, key);
        if members[0].0@ == key {
            assert(members.take(0) =~= Seq::<(String, JsonValue)>::empty());
        } else {
            assert forall|i: int| 0 <= i < rest.len() implies #[trigger] members[i + 1] == rest[i] by {}
            if no_member_named(rest, key) {
                assert forall|i: int| 0 <= i < members.len() implies (#[trigger] members[i]).0@ != key by {
                    if i > 0 {
                        assert(members[i] == rest[i - 1]);
                    }
                }
            } else {
                let j = choose|j: int| 0 <= j < rest.len() && (#[trigger] rest[j]).0@ == key;
                assert(members[j + 1] == rest[j]);
            }
            if member_spec(members, key) is Some {
                let v = member_spec(members, key).unwrap();
                let i = choose|i: int|
                    0 <= i < rest.len() && (#[trigger] rest[i]).0@ == key && rest[i].1 == v
                        && no_member_named(rest.take(i), key);
                assert(members[i + 1] == rest[i]);
                assert forall|j: int| 0 <= j < members.take(i + 1).len() implies (#[trigger] members.take(
                    i + 1,
                )[j]).0@ != key by {
                    if j > 0 {
                        assert(members.take(i + 1)[j] == rest.take(i)[j - 1]);
                    }
                }
            }
        }
    }
}

/// `get` finds a member by its name wherever it stands among any number of
/// other members: in an object whose members are `before`, then one member
/// named `key` with value `value`, then `after`, where no member of `before`
/// is named `key`, `get(key)` gives `value`.
pub proof fn lemma_get_finds_named_member(
    members: Vec<(String, JsonValue)>,
    before: Seq<(String, JsonValue)>,
    name: String,
    value: JsonValue,
    after: Seq<(String, JsonValue)>,
    key: Seq<char>,
)
    requires
        members@ == before + seq![(name, value)] + after,
        name@ == key,
        no_member_named(before, key),
    ensures
        get_spec(JsonValue::Object(members), key) == Some(value),
{
    let ms = members@;
    lemma_member_is_first_named(ms, key);
    assert(ms[before.len() as int] == (name, value));
    assert(!no_member_named(ms, key));
    let v = member_spec(ms, key).unwrap();
    let i = choose|i: int|
        0 <= i < ms.len() && (#[trigger] ms[i]).0@ == key && ms[i].1 == v && no_member_named(ms.take(i), key);
    if i < before.len() {
        assert(ms[i] == before[i]);
    } else if i > before.len() {
        assert(ms.take(i)[before.len() as int] == ms[before.len() as int]);
    }
}

impl JsonValue {
    /// The member `key` of an object (`serde_json::Value::get` with a name).
    pub fn get(&self, key: &str) -> (res: Option<&JsonValue>)
        ensures
            match get_spec(*self, key@) {
                Some(v) => res matches Some(r) && *r == v,
                None => res is None,
            },
            match *self {
                JsonValue::Object(members) => {
                    &&& (res is None <==> no_member_named(members@, key@))
                    &&& (res matches Some(r) ==> exists|i: int|
                        0 <= i < members@.len() && (#[trigger] members@[i]).0@ == key@ && members@[i].1 == *r
                            && no_member_named(members@.take(i), key@))
                },
                _ => res is None,
            },
    {

        match self {
            JsonValue::Object(members) => {
                proof {
                    lemma_member_is_first_named(members@, key@);
                }
                let k = key.to_owned();
                member(members, &k)
            },
            _ => None,
        }
    }

    /// The text of a JSON string (`serde_json::Value::as_str`).
    pub fn as_str(&self) -> (res: Option<&str>)
        ensures
            match *self {
                JsonValue::String(s) => res matches Some(r) && r@ == s@,
                _ => res is None,
            },
    {
        match self {
            JsonValue::String(s) => Some(s.as_str()),
            _ => None,
        }
    }
}

} // verus!
