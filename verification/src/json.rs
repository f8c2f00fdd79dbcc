use vstd::prelude::*;

verus! {

/// A JSON document as the listing logic reads it.
///
/// A number is kept as what reading it as an unsigned 64-bit integer gives:
/// `Some(n)` for a non-negative integer that fits, `None` for any other number.
/// An object keeps its members in order; a key is looked up at its first
/// occurrence (documents read from a JSON map hold each key once).
#[derive(Debug, PartialEq, Eq)]
pub enum JsonValue {
    Null,
    Bool(bool),
    Number(Option<u64>),
    Str(String),
    Array(Vec<JsonValue>),
    Object(Vec<(String, JsonValue)>),
}

/// The value of the first member named `key`.
pub open spec fn lookup(members: Seq<(String, JsonValue)>, key: Seq<char>) -> Option<JsonValue>
    decreases members.len(),
{
    if members.len() == 0 {
        None
    } else if members[0].0@ == key {
        Some(members[0].1)
    } else {
        lookup(members.drop_first(), key)
    }
}

/// Lookup finds a key wherever it stands: the value of its first occurrence,
/// at any position, and nothing where no member carries it.
pub proof fn law_lookup_finds_first(members: Seq<(String, JsonValue)>, key: Seq<char>)
    ensures
        forall|i: int|
            0 <= i < members.len() && (#[trigger] members[i]).0@ == key && (forall|j: int|
                0 <= j < i ==> members[j].0@ != key) ==> lookup(members, key) == Some(members[i].1),
        (forall|j: int| 0 <= j < members.len() ==> members[j].0@ != key) ==> lookup(members, key)
            is None,
    decreases members.len(),
{
    if members.len() > 0 {
        let rest = members.drop_first();
        law_lookup_finds_first(rest, key);
        assert forall|i: int|
            0 <= i < members.len() && (#[trigger] members[i]).0@ == key && (forall|j: int|
                0 <= j < i ==> members[j].0@ != key) implies lookup(members, key) == Some(
            members[i].1,
        ) by {
            if i > 0 {
                assert(members[0].0@ != key);
                assert(rest[i - 1] == members[i]);
                assert forall|j: int| 0 <= j < i - 1 implies rest[j].0@ != key by {
                    assert(rest[j] == members[j + 1]);
                }
            }
        }
        if forall|j: int| 0 <= j < members.len() ==> members[j].0@ != key {
            assert(members[0].0@ != key);
            assert forall|j: int| 0 <= j < rest.len() implies rest[j].0@ != key by {
                assert(rest[j] == members[j + 1]);
            }
        }
    }
}

/// The string stored under `key`, or the empty string where there is none.
pub open spec fn str_member(members: Seq<(String, JsonValue)>, key: Seq<char>) -> Seq<char> {
    match lookup(members, key) {
        Some(JsonValue::Str(s)) => s@,
        _ => Seq::empty(),
    }
}

/// The unsigned integer stored under `key`, or zero where there is none.
pub open spec fn u64_member(members: Seq<(String, JsonValue)>, key: Seq<char>) -> u64 {
    match lookup(members, key) {
        Some(JsonValue::Number(Some(n))) => n,
        _ => 0,
    }
}

/// Finds the first member named `key`.
pub fn find_member<'a>(members: &'a Vec<(String, JsonValue)>, key: &String) -> (r: Option<
    &'a JsonValue,
>)
    ensures
        match r {
            Some(v) => lookup(members@, key@) == Some(*v),
            None => lookup(members@, key@) is None,
        },
{
    let n = members.len();
    let mut i: usize = 0;
    assert(members@.skip(0) =~= members@);
    while i < n
        invariant
            n == members@.len(),
            i <= n,
            lookup(members@, key@) == lookup(members@.skip(i as int), key@),
        decreases n - i,
    {
        assert(members@.skip(i as int).drop_first() =~= members@.skip(i + 1));
        if members[i].0 == *key {
            return Some(&members[i].1);
        }
        i = i + 1;
    }
    None
}

impl JsonValue {
    /// The member named `key` where this value is an object.
    pub fn get(&self, key: &String) -> (r: Option<&JsonValue>)
        ensures
            match self {
                JsonValue::Object(m) => match r {
                    Some(v) => lookup(m@, key@) == Some(*v),
                    None => lookup(m@, key@) is None,
                },
                _ => r is None,
            },
    {
        match self {
            JsonValue::Object(m) => find_member(m, key),
            _ => None,
        }
    }

    /// The text where this value is a string.
    pub fn as_str(&self) -> (r: Option<&String>)
        ensures
            match self {
                JsonValue::Str(s) => r == Some(s),
                _ => r is None,
            },
    {
        match self {
            JsonValue::Str(s) => Some(s),
            _ => None,
        }
    }

    /// The number where this value is a non-negative integer that fits in 64 bits.
    pub fn as_u64(&self) -> (r: Option<u64>)
        ensures
            match self {
                JsonValue::Number(n) => r == *n,
                _ => r is None,
            },
    {
        match self {
            JsonValue::Number(n) => *n,
            _ => None,
        }
    }

    /// The members where this value is an object.
    pub fn as_object(&self) -> (r: Option<&Vec<(String, JsonValue)>>)
        ensures
            match self {
                JsonValue::Object(m) => r == Some(m),
                _ => r is None,
            },
    {
        match self {
            JsonValue::Object(m) => Some(m),
            _ => None,
        }
    }

    /// The elements where this value is an array.
    pub fn as_array(&self) -> (r: Option<&Vec<JsonValue>>)
        ensures
            match self {
                JsonValue::Array(a) => r == Some(a),
                _ => r is None,
            },
    {
        match self {
            JsonValue::Array(a) => Some(a),
            _ => None,
        }
    }
}

/// The string stored under `key` in an object's members, or an empty string.
pub fn str_field(members: &Vec<(String, JsonValue)>, key: &String) -> (r: String)
    ensures
        r@ == str_member(members@, key@),
{
    match find_member(members, key) {
        Some(JsonValue::Str(s)) => s.clone(),
        _ => String::new(),
    }
}

/// The unsigned integer stored under `key` in an object's members, or zero.
pub fn u64_field(members: &Vec<(String, JsonValue)>, key: &String) -> (r: u64)
    ensures
        r == u64_member(members@, key@),
{
    match find_member(members, key) {
        Some(JsonValue::Number(Some(n))) => *n,
        _ => 0,
    }
}


#[verifier::external_type_specification]
#[verifier::external_body]
pub struct ExValue(serde_json::Value);

/// Turns a value parsed by `serde_json` into a [`JsonValue`], variant by
/// variant; a number becomes what `serde_json::Number::as_u64` gives.
#[verifier::external_body]
fn json_value_of(v: serde_json::Value) -> JsonValue {
    match v {
        serde_json::Value::Null => JsonValue::Null,
        serde_json::Value::Bool(b) => JsonValue::Bool(b),
        serde_json::Value::Number(n) => JsonValue::Number(n.as_u64()),
        serde_json::Value::String(t) => JsonValue::Str(t),
        serde_json::Value::Array(a) => JsonValue::Array(a.into_iter().map(json_value_of).collect()),
        serde_json::Value::Object(m) => JsonValue::Object(m.into_iter().map(|(k, x)| (k, json_value_of(x))).collect()),
    }
}

/// The members of the JSON object that `serde_json::from_slice` reads from a
/// body into a `serde_json::Map` (keys in sorted order), or `None` where the
/// body is not a JSON object.
pub uninterp spec fn json_members(body: Seq<u8>) -> Option<Seq<(String, JsonValue)>>;

/// `serde_json::from_slice` into a `serde_json::Map`: the members of the JSON
/// object in `body`, named by [`json_members`].
#[verifier::external_body]
fn parse_json_object(body: &[u8]) -> (r: Option<Vec<(String, JsonValue)>>)
    ensures
        match r {
            Some(m) => json_members(body@) == Some(m@),
            None => json_members(body@) is None,
        },
{
    serde_json::from_slice::<serde_json::Map<String, serde_json::Value>>(body).ok().map(
        |m| m.into_iter().map(|(k, x)| (k, json_value_of(x))).collect(),
    )
}


/// Why a response body could not be read.
#[derive(Debug, PartialEq, Eq)]
pub enum DecodeError {
    /// The body is not a JSON object.
    NotAnObject,
}

/// Reads the JSON object of a response body into its members.
pub fn decode_object(body: &[u8]) -> (r: Result<Vec<(String, JsonValue)>, DecodeError>)
    ensures
        match r {
            Ok(m) => json_members(body@) == Some(m@),
            Err(e) => e == DecodeError::NotAnObject && json_members(body@) is None,
        },
{
    match parse_json_object(body) {
        Some(m) => Ok(m),
        None => Err(DecodeError::NotAnObject),
    }
}

} // verus!
