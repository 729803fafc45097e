//! JSON values as the gateway emits them.

use vstd::prelude::*;

verus! {

/// A JSON value. Numbers are unsigned integers: every quantity that may not
/// fit in one travels as a decimal string.
#[derive(Debug, PartialEq, Eq)]
pub enum Json {
    Null,
    Bool(bool),
    Number(u64),
    Text(String),
    Array(Vec<Json>),
    Object(Vec<(String, Json)>),
}

/// The mathematical value of a [`Json`]: strings are sequences of characters,
/// arrays are sequences, and objects are sequences of members in the order in
/// which they were written.
pub enum JsonValue {
    Null,
    Bool(bool),
    Number(u64),
    Text(Seq<char>),
    Array(Seq<JsonValue>),
    Object(Seq<(Seq<char>, JsonValue)>),
}

/// The value of `json`.
pub open spec fn value_of(json: Json) -> JsonValue
    decreases json,
{
    match json {
        Json::Null => JsonValue::Null,
        Json::Bool(b) => JsonValue::Bool(b),
        Json::Number(n) => JsonValue::Number(n),
        Json::Text(s) => JsonValue::Text(s@),
        Json::Array(items) => JsonValue::Array(
            Seq::new(
                items@.len(),
                |i: int|
                    if 0 <= i < items@.len() {
                        value_of(items@[i])
                    } else {
                        JsonValue::Null
                    },
            ),
        ),
        Json::Object(members) => JsonValue::Object(
            Seq::new(
                members@.len(),
                |i: int|
                    if 0 <= i < members@.len() {
                        (members@[i].0@, value_of(members@[i].1))
                    } else {
                        (Seq::empty(), JsonValue::Null)
                    },
            ),
        ),
    }
}

impl View for Json {
    type V = JsonValue;

    open spec fn view(&self) -> JsonValue {
        value_of(*self)
    }
}

/// The values of a sequence of [`Json`], in order.
pub open spec fn values_of(items: Seq<Json>) -> Seq<JsonValue> {
    Seq::new(items.len(), |i: int| items[i]@)
}

/// The members of an object, each key with its value, in order.
pub open spec fn members_of(members: Seq<(String, Json)>) -> Seq<(Seq<char>, JsonValue)> {
    Seq::new(members.len(), |i: int| (members[i].0@, members[i].1@))
}

impl Json {
    /// JSON `null`.
    pub fn null() -> (json: Json)
        ensures
            json@ == JsonValue::Null,
    {
        Json::Null
    }

    /// JSON `true` or `false`.
    pub fn boolean(b: bool) -> (json: Json)
        ensures
            json@ == JsonValue::Bool(b),
    {
        Json::Bool(b)
    }

    /// The JSON number `n`.
    pub fn number(n: u64) -> (json: Json)
        ensures
            json@ == JsonValue::Number(n),
    {
        Json::Number(n)
    }

    /// The JSON string `s`.
    pub fn text(s: String) -> (json: Json)
        ensures
            json@ == JsonValue::Text(s@),
    {
        Json::Text(s)
    }

    /// The JSON string of the characters of `s`.
    pub fn literal(s: &str) -> (json: Json)
        ensures
            json@ == JsonValue::Text(s@),
    {
        Json::Text(s.to_owned())
    }

    /// The JSON array of `items`, in order.
    pub fn array(items: Vec<Json>) -> (json: Json)
        ensures
            json@ == JsonValue::Array(values_of(items@)),
    {
        let json = Json::Array(items);
        assert(json@->Array_0 =~= values_of(items@));
        json
    }

    /// The JSON object of `members`, in order.
    pub fn object(members: Vec<(String, Json)>) -> (json: Json)
        ensures
            json@ == JsonValue::Object(members_of(members@)),
    {
        let json = Json::Object(members);
        assert(json@->Object_0 =~= members_of(members@));
        json
    }

    /// The JSON object with the one member `key`.
    pub fn object1(key: &str, value: Json) -> (json: Json)
        ensures
            json@ == JsonValue::Object(seq![(key@, value@)]),
    {
        let mut members = members();
        put(&mut members, key, value);
        Json::object(members)
    }
}

/// The members of the object without members.
pub open spec fn no_members() -> Seq<(Seq<char>, JsonValue)> {
    Seq::empty()
}

/// The items of the array without items.
pub open spec fn no_values() -> Seq<JsonValue> {
    Seq::empty()
}

/// Members to [`put`] to: none yet.
pub fn members() -> (members: Vec<(String, Json)>)
    ensures
        members@.len() == 0,
        members_of(members@) == no_members(),
{
    let members: Vec<(String, Json)> = Vec::new();
    assert(members_of(members@) =~= no_members());
    members
}

/// Items to [`push_item`] to: none yet.
pub fn items() -> (items: Vec<Json>)
    ensures
        items@.len() == 0,
        values_of(items@) == no_values(),
{
    let items: Vec<Json> = Vec::new();
    assert(values_of(items@) =~= no_values());
    items
}

/// Appends the member `key` with `value` to the members of an object.
pub fn put(members: &mut Vec<(String, Json)>, key: &str, value: Json)
    ensures
        members_of(final(members)@) == members_of(old(members)@).push((key@, value@)),
        final(members)@.len() == old(members)@.len() + 1,
{
    members.push((key.to_owned(), value));
    assert(members_of(members@) =~= members_of(old(members)@).push((key@, value@)));
}

/// Appends `item` to the items of an array.
pub fn push_item(items: &mut Vec<Json>, item: Json)
    ensures
        values_of(final(items)@) == values_of(old(items)@).push(item@),
        final(items)@.len() == old(items)@.len() + 1,
{
    items.push(item);
    assert(values_of(items@) =~= values_of(old(items)@).push(item@));
}

} // verus!
