//! JSON documents as the agent sends and receives them.

use vstd::prelude::*;
use crate::text::{decimal_u64, parse_decimal, same_text};

verus! {

/// A JSON document.
///
/// A number is kept as decimal text, such as `8069` or `0.25`, since it may
/// be whole or not and the caller knows which it expects. The members of an
/// object are kept in a list; a lookup takes the first member of the name
/// asked for.
#[derive(Debug, PartialEq, Eq)]
pub enum Json {
    Null,
    Bool(bool),
    Number(String),
    Text(String),
    Array(Vec<Json>),
    Object(Vec<Member>),
}

/// One `name: value` pair of a JSON object.
#[derive(Debug, PartialEq, Eq)]
pub struct Member {
    pub name: String,
    pub value: Json,
}

/// The mathematical content of a [`Json`] document.
pub enum JsonValue {
    Null,
    Bool(bool),
    Number(Seq<char>),
    Text(Seq<char>),
    Array(Seq<JsonValue>),
    Object(Seq<(Seq<char>, JsonValue)>),
}

/// The content of a document, node by node.
pub open spec fn content(json: Json) -> JsonValue
    decreases json,
{
    match json {
        Json::Null => JsonValue::Null,
        Json::Bool(flag) => JsonValue::Bool(flag),
        Json::Number(digits) => JsonValue::Number(digits@),
        Json::Text(text) => JsonValue::Text(text@),
        Json::Array(items) => JsonValue::Array(
            Seq::new(
                items@.len(),
                |i: int|
                    if 0 <= i < items@.len() {
                        content(items@[i])
                    } else {
                        JsonValue::Null
                    },
            ),
        ),
        Json::Object(members) => JsonValue::Object(
            Seq::new(
                members@.len(),
                |i: int|
                    if 0 <= i < members@.len() {
                        (members@[i].name@, content(members@[i].value))
                    } else {
                        (Seq::empty(), JsonValue::Null)
                    },
            ),
        ),
    }
}

impl View for Json {
    type V = JsonValue;

    open spec fn view(&self) -> JsonValue {
        content(*self)
    }
}

/// The value of the first pair of a list that has the given name.
pub open spec fn first_named(members: Seq<(Seq<char>, JsonValue)>, name: Seq<char>) -> Option<
    JsonValue,
>
    decreases members.len(),
{
    if members.len() == 0 {
        None
    } else if members[0].0 == name {
        Some(members[0].1)
    } else {
        first_named(members.drop_first(), name)
    }
}

/// A pair is the first of its name where no pair before it has that name.
pub proof fn lemma_first_named(members: Seq<(Seq<char>, JsonValue)>, at: int)
    requires
        0 <= at < members.len(),
        forall|k: int| 0 <= k < at ==> (#[trigger] members[k]).0 != members[at].0,
    ensures
        first_named(members, members[at].0) == Some(members[at].1),
    decreases at,
{
    if at > 0 {
        lemma_first_named(members.drop_first(), at - 1);
    }
}

/// Whether no two pairs of a list have the same name.
pub open spec fn distinct_names(members: Seq<(Seq<char>, JsonValue)>) -> bool {
    forall|i: int, j: int|
        0 <= i < j < members.len() ==> (#[trigger] members[i]).0 != (#[trigger] members[j]).0
}

/// Whether a document holds all that a pattern holds.
///
/// - An object holds an object where its names are distinct and it has, for
///   each member of the pattern, a member of that name that holds it; in any
///   order, and whatever further members it has.
/// - An array holds an array of the same length, item for item.
/// - Any other document holds itself alone.
pub open spec fn holds(json: JsonValue, pattern: JsonValue) -> bool
    decreases pattern,
{
    match pattern {
        JsonValue::Object(wanted) => match json {
            JsonValue::Object(members) => distinct_names(members) && forall|i: int|
                0 <= i < wanted.len() ==> exists|k: int|
                    0 <= k < members.len() && (#[trigger] members[k]).0 == (
                    #[trigger] wanted[i]).0 && holds(members[k].1, wanted[i].1),
            _ => false,
        },
        JsonValue::Array(wanted) => match json {
            JsonValue::Array(items) => items.len() == wanted.len() && forall|i: int|
                0 <= i < wanted.len() ==> holds(#[trigger] items[i], wanted[i]),
            _ => false,
        },
        _ => json == pattern,
    }
}

/// A document that holds an object has each member of that object under its
/// name, as a document that holds it.
pub proof fn lemma_held_member(json: JsonValue, pattern: JsonValue, at: int)
    requires
        holds(json, pattern),
        pattern is Object,
        0 <= at < pattern->Object_0.len(),
    ensures
        json.member(pattern->Object_0[at].0) is Some,
        holds(json.member(pattern->Object_0[at].0).unwrap(), pattern->Object_0[at].1),
{
    let wanted = pattern->Object_0;
    let members = json->Object_0;
    let k = choose|k: int|
        0 <= k < members.len() && (#[trigger] members[k]).0 == (#[trigger] wanted[at]).0 && holds(
            members[k].1,
            wanted[at].1,
        );
    lemma_first_named(members, k);
}

impl JsonValue {
    /// The member of an object that has the given name, the first where
    /// several have it; `None` where there is none, or no object.
    pub open spec fn member(self, name: Seq<char>) -> Option<JsonValue> {
        match self {
            JsonValue::Object(members) => first_named(members, name),
            _ => None,
        }
    }

    /// The text of the named member, where that member is a string.
    pub open spec fn text_member(self, name: Seq<char>) -> Option<Seq<char>> {
        match self.member(name) {
            Some(JsonValue::Text(text)) => Some(text),
            _ => None,
        }
    }

    /// The value of the named member, where that member is `true` or `false`.
    pub open spec fn flag_member(self, name: Seq<char>) -> Option<bool> {
        match self.member(name) {
            Some(JsonValue::Bool(flag)) => Some(flag),
            _ => None,
        }
    }

    /// The decimal text of the named member, where that member is a number.
    pub open spec fn number_member(self, name: Seq<char>) -> Option<Seq<char>> {
        match self.member(name) {
            Some(JsonValue::Number(digits)) => Some(digits),
            _ => None,
        }
    }

    /// The value of the named member, where that member is a number written
    /// with digits alone that fits in 64 bits.
    pub open spec fn count_member(self, name: Seq<char>) -> Option<u64> {
        match self.number_member(name) {
            Some(digits) => decimal_u64(digits),
            None => None,
        }
    }
}

/// The document that `serde_json` reads from a text; `None` for a text that
/// it rejects.
pub uninterp spec fn parsed_json(text: Seq<char>) -> Option<JsonValue>;

/// `serde_json::Error`, carried through unread.
#[verifier::external_type_specification]
#[verifier::external_body]
pub struct ExJsonError(serde_json::Error);

/// `serde_json::Value`, carried through unread.
#[verifier::external_type_specification]
#[verifier::external_body]
pub struct ExJsonTree(serde_json::Value);

/// Calls `serde_json::from_str` for a `serde_json::Value` and copies the tree
/// that comes back into a [`Json`].
///
/// Trusted: that the call fails exactly on the texts for which
/// [`parsed_json`] is `None`, and that the same text always gives the same
/// document.
#[verifier::external_body]
fn read_document(text: &str) -> (r: Result<Json, serde_json::Error>)
    ensures
        r is Ok <==> parsed_json(text@) is Some,
        r matches Ok(json) ==> parsed_json(text@) == Some(json@),
{
    serde_json::from_str::<serde_json::Value>(text).map(|tree| copy_tree(&tree))
}

/// Copies a `serde_json::Value` into a [`Json`], one variant for each of its
/// variants: a number by the text that its `Display` writes, the members of an
/// object in the order in which its map hands them out.
///
/// Trusted; nothing is claimed of the result here.
#[verifier::external_body]
fn copy_tree(tree: &serde_json::Value) -> Json {
    match tree {
        serde_json::Value::Null => Json::Null,
        serde_json::Value::Bool(flag) => Json::Bool(*flag),
        serde_json::Value::Number(number) => Json::Number(number.to_string()),
        serde_json::Value::String(text) => Json::Text(text.clone()),
        serde_json::Value::Array(items) => Json::Array(items.iter().map(copy_tree).collect()),
        serde_json::Value::Object(map) => Json::Object(
            map.iter().map(|(k, v)| Member { name: k.clone(), value: copy_tree(v) }).collect(),
        ),
    }
}

/// Reads a JSON document from a text.
pub fn parse(text: &str) -> (r: Option<Json>)
    ensures
        r is Some <==> parsed_json(text@) is Some,
        r matches Some(json) ==> parsed_json(text@) == Some(json@),
{
    match read_document(text) {
        Ok(json) => Some(json),
        Err(_) => None,
    }
}

impl Json {
    /// The member of an object that has the given name, the first where
    /// several have it.
    pub fn member(&self, name: &str) -> (r: Option<&Json>)
        ensures
            match r {
                Some(found) => self@.member(name@) == Some(found@),
                None => self@.member(name@) is None,
            },
    {
        match self {
            Json::Object(members) => {
                let ghost pairs = Seq::new(
                    members@.len(),
                    |k: int|
                        if 0 <= k < members@.len() {
                            (members@[k].name@, members@[k].value@)
                        } else {
                            (Seq::empty(), JsonValue::Null)
                        },
                );
                assert(self@->Object_0 =~= pairs);
                assert(pairs.skip(0) =~= pairs);
                let mut i: usize = 0;
                while i < members.len()
                    invariant
                        i <= members.len(),
                        pairs.len() == members@.len(),
                        forall|k: int|
                            0 <= k < pairs.len() ==> #[trigger] pairs[k] == (
                                members@[k].name@,
                                members@[k].value@,
                            ),
                        self@.member(name@) == first_named(pairs, name@),
                        first_named(pairs, name@) == first_named(pairs.skip(i as int), name@),
                    decreases members.len() - i,
                {
                    assert(pairs.skip(i as int).drop_first() =~= pairs.skip(i + 1));
                    if same_text(members[i].name.as_str(), name) {
                        return Some(&members[i].value);
                    }
                    i += 1;
                }
                None
            },
            _ => None,
        }
    }

    /// The items of an array.
    pub fn items(&self) -> (r: Option<&Vec<Json>>)
        ensures
            match r {
                Some(items) => self@ matches JsonValue::Array(values) && values.len()
                    == items@.len() && forall|i: int|
                    0 <= i < values.len() ==> #[trigger] values[i] == items@[i]@,
                None => !(self@ is Array),
            },
    {
        match self {
            Json::Array(items) => Some(items),
            _ => None,
        }
    }

    /// A copy of the text of the named member, where that member is a string.
    pub fn text_member(&self, name: &str) -> (r: Option<String>)
        ensures
            match r {
                Some(text) => self@.text_member(name@) == Some(text@),
                None => self@.text_member(name@) is None,
            },
    {
        match self.member(name) {
            Some(Json::Text(text)) => Some(text.clone()),
            _ => None,
        }
    }

    /// The value of the named member, where that member is `true` or `false`.
    pub fn flag_member(&self, name: &str) -> (r: Option<bool>)
        ensures
            r == self@.flag_member(name@),
    {
        match self.member(name) {
            Some(Json::Bool(flag)) => Some(*flag),
            _ => None,
        }
    }

    /// A copy of the decimal text of the named member, where that member is a
    /// number.
    pub fn number_member(&self, name: &str) -> (r: Option<String>)
        ensures
            match r {
                Some(digits) => self@.number_member(name@) == Some(digits@),
                None => self@.number_member(name@) is None,
            },
    {
        match self.member(name) {
            Some(Json::Number(digits)) => Some(digits.clone()),
            _ => None,
        }
    }

    /// The value of the named member, where that member is a number written
    /// with digits alone that fits in 64 bits.
    pub fn count_member(&self, name: &str) -> (r: Option<u64>)
        ensures
            r == self@.count_member(name@),
    {
        match self.member(name) {
            Some(Json::Number(digits)) => parse_decimal(digits.as_str()),
            _ => None,
        }
    }
}

} // verus!
