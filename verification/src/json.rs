//! JSON values as the frames carry them, and the passage between such values
//! and text, which `serde_json` does.

use vstd::prelude::*;

use crate::text::same_text;

verus! {

/// `serde_json::Value`, the tree that `serde_json` reads a text into and
/// writes a text from. Nothing inside it is seen here.
#[verifier::external_type_specification]
#[verifier::external_body]
pub struct ExValue(serde_json::Value);

/// `serde_json::Number`, carried as it is where a number does not fit `i64`.
/// Nothing inside it is seen here.
#[verifier::external_type_specification]
#[verifier::external_body]
pub struct ExNumber(serde_json::Number);

/// `serde_json::Error`, what `serde_json::from_str` gives for a text that is
/// not JSON. Nothing inside it is seen here.
#[verifier::external_type_specification]
#[verifier::external_body]
pub struct ExError(serde_json::Error);

/// A JSON value. A number that fits `i64` is an `Integer`; any other number
/// is carried as `serde_json` holds it.
#[derive(Debug, PartialEq)]
pub enum Json {
    Null,
    Bool(bool),
    Integer(i64),
    Number(serde_json::Number),
    String(String),
    Array(Vec<Json>),
    Object(Vec<(String, Json)>),
}

/// The mathematical value of a [`Json`]: text as sequences of characters,
/// arrays and objects as sequences.
pub enum JsonValue {
    Null,
    Bool(bool),
    Integer(int),
    Number(serde_json::Number),
    String(Seq<char>),
    Array(Seq<JsonValue>),
    Object(Seq<(Seq<char>, JsonValue)>),
}

impl View for Json {
    type V = JsonValue;

    open spec fn view(&self) -> JsonValue
        decreases self,
    {
        match self {
            Json::Null => JsonValue::Null,
            Json::Bool(b) => JsonValue::Bool(*b),
            Json::Integer(i) => JsonValue::Integer(*i as int),
            Json::Number(n) => JsonValue::Number(*n),
            Json::String(s) => JsonValue::String(s@),
            Json::Array(items) => JsonValue::Array(
                Seq::new(
                    items@.len(),
                    |i: int|
                        if 0 <= i < items@.len() {
                            items@[i]@
                        } else {
                            JsonValue::Null
                        },
                ),
            ),
            Json::Object(members) => JsonValue::Object(
                Seq::new(
                    members@.len(),
                    |i: int|
                        (
                            members@[i].0@,
                            if 0 <= i < members@.len() {
                                members@[i].1@
                            } else {
                                JsonValue::Null
                            },
                        ),
                ),
            ),
        }
    }
}

/// What `serde_json::from_str` reads from a text, as a [`JsonValue`]; `None`
/// where it rejects the text.
pub uninterp spec fn json_of_text(text: Seq<char>) -> Option<JsonValue>;

/// The [`JsonValue`] that a `serde_json::Value` holds.
pub uninterp spec fn tree_of(value: serde_json::Value) -> JsonValue;

/// The compact text that `serde_json` writes for a `serde_json::Value`.
pub uninterp spec fn text_of(value: serde_json::Value) -> Seq<char>;

/// The compact text that `serde_json` writes for a [`JsonValue`].
pub uninterp spec fn json_text(json: JsonValue) -> Seq<char>;

/// Calls `serde_json::from_str` for a `serde_json::Value`. The contract names
/// the outcome: it succeeds exactly where `json_of_text` is `Some`, and the
/// value it gives then holds that tree.
#[verifier::external_body]
fn read_value(text: &str) -> (read: Result<serde_json::Value, serde_json::Error>)
    ensures
        read is Ok <==> json_of_text(text@) is Some,
        read matches Ok(value) ==> json_of_text(text@) == Some(tree_of(value)),
{
    serde_json::from_str::<serde_json::Value>(text)
}

/// Moves a `serde_json::Value` into a [`Json`], variant by variant; a number
/// becomes an `Integer` where `serde_json::Number::as_i64` gives one. The
/// contract says only that the result is what `tree_of` names.
#[verifier::external_body]
fn lift(value: serde_json::Value) -> (json: Json)
    ensures
        json@ == tree_of(value),
{
    match value {
        serde_json::Value::Null => Json::Null,
        serde_json::Value::Bool(b) => Json::Bool(b),
        serde_json::Value::Number(n) => n.as_i64().map_or(Json::Number(n), Json::Integer),
        serde_json::Value::String(s) => Json::String(s),
        serde_json::Value::Array(a) => Json::Array(a.into_iter().map(lift).collect()),
        serde_json::Value::Object(m) => Json::Object(
            m.into_iter().map(|(k, v)| (k, lift(v))).collect(),
        ),
    }
}

/// Moves a [`Json`] into a `serde_json::Value`, variant by variant; an
/// `Integer` goes through `serde_json::Number::from`, and the members of an
/// object go into a `serde_json::Map`. The contract says only that the text
/// written for the result depends on the view of the argument alone, and
/// gives that text the name `json_text`.
#[verifier::external_body]
fn lower(json: Json) -> (value: serde_json::Value)
    ensures
        text_of(value) == json_text(json@),
{
    match json {
        Json::Null => serde_json::Value::Null,
        Json::Bool(b) => serde_json::Value::Bool(b),
        Json::Integer(i) => serde_json::Value::Number(serde_json::Number::from(i)),
        Json::Number(n) => serde_json::Value::Number(n),
        Json::String(s) => serde_json::Value::String(s),
        Json::Array(a) => serde_json::Value::Array(a.into_iter().map(lower).collect()),
        Json::Object(m) => serde_json::Value::Object(
            m.into_iter().map(|(k, v)| (k, lower(v))).collect(),
        ),
    }
}

/// Writes a `serde_json::Value` as compact text, through its `Display`. The
/// contract names the text.
#[verifier::external_body]
fn write_value(value: &serde_json::Value) -> (text: String)
    ensures
        text@ == text_of(*value),
{
    value.to_string()
}

/// Calls `serde_json::Number::clone`, which copies the number as it is.
#[verifier::external_body]
fn copy_number(number: &serde_json::Number) -> (copy: serde_json::Number)
    ensures
        copy == *number,
{
    number.clone()
}

/// The view of an optional [`Json`].
pub open spec fn option_view(json: Option<Json>) -> Option<JsonValue> {
    match json {
        Some(j) => Some(j@),
        None => None,
    }
}

impl Json {
    /// Reads a JSON text. `None` where the text is not JSON.
    pub fn from_text(text: &str) -> (json: Option<Json>)
        ensures
            option_view(json) == json_of_text(text@),
    {
        match read_value(text) {
            Ok(value) => Some(lift(value)),
            Err(_) => None,
        }
    }

    /// Writes the value as compact JSON text.
    pub fn to_text(&self) -> (text: String)
        ensures
            text@ == json_text(self@),
    {
        self.clone().into_text()
    }

    /// Writes the value as compact JSON text, and gives the value up.
    pub fn into_text(self) -> (text: String)
        ensures
            text@ == json_text(self@),
    {
        let value = lower(self);
        write_value(&value)
    }
}

/// The views of the items of an array, in order.
pub open spec fn items_view(items: Seq<Json>) -> Seq<JsonValue> {
    Seq::new(items.len(), |i: int| items[i]@)
}

/// The views of the members of an object, in order.
pub open spec fn members_view(members: Seq<(String, Json)>) -> Seq<(Seq<char>, JsonValue)> {
    Seq::new(members.len(), |i: int| (members[i].0@, members[i].1@))
}

/// The view of an array is made of the views of its items.
pub proof fn lemma_array_view(items: Vec<Json>)
    ensures
        Json::Array(items)@ == JsonValue::Array(items_view(items@)),
{
    assert(Json::Array(items)@->Array_0 =~= items_view(items@));
}

/// The view of an object is made of the views of its members.
pub proof fn lemma_object_view(members: Vec<(String, Json)>)
    ensures
        Json::Object(members)@ == JsonValue::Object(members_view(members@)),
{
    assert(Json::Object(members)@->Object_0 =~= members_view(members@));
}

/// The value that an object holds under a name: that of the last member of
/// that name, as a later member replaces an earlier one when the object is
/// written.
pub open spec fn member(members: Seq<(Seq<char>, JsonValue)>, name: Seq<char>) -> Option<JsonValue>
    decreases members.len(),
{
    if members.len() == 0 {
        None
    } else if members.last().0 == name {
        Some(members.last().1)
    } else {
        member(members.drop_last(), name)
    }
}

/// Looks a name up among the members of an object.
pub fn find_member<'a>(members: &'a Vec<(String, Json)>, name: &str) -> (found: Option<&'a Json>)
    ensures
        match found {
            Some(json) => member(members_view(members@), name@) == Some(json@),
            None => member(members_view(members@), name@) is None,
        },
{
    let ghost all = members_view(members@);
    let mut found: Option<&'a Json> = None;
    let mut i: usize = 0;
    while i < members.len()
        invariant
            i <= members.len(),
            all == members_view(members@),
            match found {
                Some(json) => member(all.take(i as int), name@) == Some(json@),
                None => member(all.take(i as int), name@) is None,
            },
        decreases members.len() - i,
    {
        proof {
            let next = all.take(i as int + 1);
            assert(next.drop_last() =~= all.take(i as int));
            assert(next.last() == all[i as int]);
        }
        if same_text(members[i].0.as_str(), name) {
            found = Some(&members[i].1);
        }
        i = i + 1;
    }
    proof {
        assert(all.take(i as int) =~= all);
    }
    found
}

impl Clone for Json {
    /// A deep copy: the copy has the view of the value that was copied.
    fn clone(&self) -> (copy: Self)
        ensures
            copy@ == self@,
        decreases self,
    {
        match self {
            Json::Null => Json::Null,
            Json::Bool(b) => Json::Bool(*b),
            Json::Integer(i) => Json::Integer(*i),
            Json::Number(n) => Json::Number(copy_number(n)),
            Json::String(s) => Json::String(s.clone()),
            Json::Array(items) => {
                assert(self->Array_0 == *items);
                let copies = copy_items(items);
                proof {
                    lemma_array_view(copies);
                    lemma_array_view(*items);
                }
                Json::Array(copies)
            },
            Json::Object(members) => {
                assert(self->Object_0 == *members);
                let copies = copy_members(members);
                proof {
                    lemma_object_view(copies);
                    lemma_object_view(*members);
                }
                Json::Object(copies)
            },
        }
    }
}

/// A deep copy of the items of an array.
pub fn copy_items(items: &Vec<Json>) -> (copies: Vec<Json>)
    ensures
        items_view(copies@) == items_view(items@),
    decreases items,
{
    let mut copies: Vec<Json> = Vec::new();
    let mut i: usize = 0;
    while i < items.len()
        invariant
            i <= items.len(),
            copies@.len() == i,
            forall|k: int| 0 <= k < i ==> (#[trigger] copies@[k])@ == items@[k]@,
        decreases items.len() - i,
    {
        proof {
            vstd::std_specs::vec::axiom_vec_index_decreases(*items, i as int);
        }
        let copy = items[i].clone();
        copies.push(copy);
        i = i + 1;
    }
    assert(items_view(copies@) =~= items_view(items@));
    copies
}

/// A deep copy of the members of an object.
pub fn copy_members(members: &Vec<(String, Json)>) -> (copies: Vec<(String, Json)>)
    ensures
        members_view(copies@) == members_view(members@),
    decreases members,
{
    let mut copies: Vec<(String, Json)> = Vec::new();
    let mut i: usize = 0;
    while i < members.len()
        invariant
            i <= members.len(),
            copies@.len() == i,
            forall|k: int|
                0 <= k < i ==> (#[trigger] copies@[k]).0@ == members@[k].0@ && copies@[k].1@
                    == members@[k].1@,
        decreases members.len() - i,
    {
        proof {
            vstd::std_specs::vec::axiom_vec_index_decreases(*members, i as int);
            assert(decreases_to!(members@[i as int] => members@[i as int].1));
        }
        let name = members[i].0.clone();
        let copy = members[i].1.clone();
        copies.push((name, copy));
        i = i + 1;
    }
    assert(members_view(copies@) =~= members_view(members@));
    copies
}

} // verus!
