//! The bridge to `serde_json`, which reads and writes the JSON text.
//!
//! The parser and the printer are `serde_json`'s. This module declares its
//! value type, names what the parser and the printer compute, and converts
//! between its values and the documents of this library in verified code.
//! Its values do not leave the module: `read_document` and `write_document`
//! take and give documents and text.
//! Objects are kept by `serde_json` in a map ordered by name, so the text
//! written for an object depends on its members and not on the order in
//! which they were entered.

use crate::json::{
    all_numbers_valid, docs_of, lemma_docs_of, member_numbers_valid, members_map, Doc, Json, Member,
};
use crate::number::is_number_literal;
use vstd::prelude::*;

verus! {

/// Declares `serde_json::Value`, the JSON value of `serde_json`. What is
/// inside a value is seen only through the trusted functions below.
#[verifier::external_type_specification]
#[verifier::external_body]
pub struct ExValue(serde_json::Value);

/// Declares `serde_json::Error`, the error of the parser. It is carried
/// along and never looked into.
#[verifier::external_type_specification]
#[verifier::external_body]
pub struct ExError(serde_json::Error);

/// The document that a `serde_json` value holds.
pub uninterp spec fn value_doc(value: serde_json::Value) -> Doc;

/// How deep the arrays and objects of a `serde_json` value are nested.
pub uninterp spec fn value_depth(value: serde_json::Value) -> nat;

/// The document that `serde_json` reads from a text, or `None` where it
/// rejects the text.
pub uninterp spec fn json_parse(text: Seq<u8>) -> Option<Doc>;

/// The text that `serde_json` writes for a value that holds the document.
pub uninterp spec fn json_text(doc: Doc) -> Seq<u8>;

/// One level of a `serde_json` value: its kind, and what it holds directly.
enum Opened<'a> {
    Null,
    Bool(bool),
    Number(&'a str),
    Text(&'a str),
    Array(Vec<&'a serde_json::Value>),
    Object(Vec<(&'a String, &'a serde_json::Value)>),
}

/// One level of a `serde_json` value to be built. An object is built empty
/// and takes its members one by one.
enum Parts {
    Null,
    Bool(bool),
    Number(String),
    Text(String),
    Array(Vec<serde_json::Value>),
    EmptyObject,
}

/// The map that the entries of an opened object denote.
spec fn opened_map(entries: Seq<(&String, &serde_json::Value)>) -> Map<Seq<char>, Doc>
    decreases entries.len(),
{
    if entries.len() == 0 {
        Map::empty()
    } else {
        opened_map(entries.drop_last()).insert(entries.last().0@, value_doc(*entries.last().1))
    }
}

impl<'a> Opened<'a> {
    /// The document of the value that was opened.
    spec fn doc(self) -> Doc {
        match self {
            Opened::Null => Doc::Null,
            Opened::Bool(b) => Doc::Bool(b),
            Opened::Number(literal) => Doc::Number(literal@),
            Opened::Text(text) => Doc::Text(text@),
            Opened::Array(items) => Doc::Array(
                Seq::new(items@.len(), |i: int| value_doc(*items@[i])),
            ),
            Opened::Object(entries) => Doc::Object(opened_map(entries@)),
        }
    }

    /// Whether every value held directly is nested less deep than `depth`.
    spec fn shallower_than(self, depth: nat) -> bool {
        match self {
            Opened::Array(items) => forall|i: int|
                0 <= i < items@.len() ==> value_depth(*#[trigger] items@[i]) < depth,
            Opened::Object(entries) => forall|i: int|
                0 <= i < entries@.len() ==> value_depth(*(#[trigger] entries@[i]).1) < depth,
            _ => true,
        }
    }
}

impl Parts {
    /// The document of the value to be built.
    spec fn doc(self) -> Doc {
        match self {
            Parts::Null => Doc::Null,
            Parts::Bool(b) => Doc::Bool(b),
            Parts::Number(literal) => Doc::Number(literal@),
            Parts::Text(text) => Doc::Text(text@),
            Parts::Array(items) => Doc::Array(
                Seq::new(items@.len(), |i: int| value_doc(items@[i])),
            ),
            Parts::EmptyObject => Doc::Object(Map::empty()),
        }
    }
}

/// Parses a JSON text.
///
/// Trusted: calls `serde_json::from_slice` for a `serde_json::Value`. The
/// contract names the outcome `json_parse` of the text: a value that holds
/// the document read, or an error where the text is rejected.
#[verifier::external_body]
fn parse_value(text: &[u8]) -> (parsed: Result<serde_json::Value, serde_json::Error>)
    ensures
        parsed matches Ok(value) ==> json_parse(text@) == Some(value_doc(value)),
        parsed is Err ==> json_parse(text@) is None,
{
    serde_json::from_slice::<serde_json::Value>(text)
}

/// Writes a value as JSON text.
///
/// Trusted: calls `serde_json::to_vec` on a `serde_json::Value`, which
/// cannot fail for such a value written to memory. The contract names the
/// text `json_text` of the document that the value holds.
#[verifier::external_body]
fn print_value(value: &serde_json::Value) -> (text: Vec<u8>)
    ensures
        text@ == json_text(value_doc(*value)),
{
    serde_json::to_vec(value).unwrap()
}

/// Opens one level of a value.
///
/// Trusted: matches on the variants of `serde_json::Value` and hands out
/// what each holds: the literal of a number (`Number::as_str`), the items of
/// an array, the entries of an object as its map yields them. The contract
/// says that these make up the document of the value, and that each item or
/// entry is nested less deep than the value.
#[verifier::external_body]
fn open_value<'a>(value: &'a serde_json::Value) -> (opened: Opened<'a>)
    ensures
        opened.doc() == value_doc(*value),
        opened.shallower_than(value_depth(*value)),
{
    match value {
        serde_json::Value::Null => Opened::Null,
        serde_json::Value::Bool(b) => Opened::Bool(*b),
        serde_json::Value::Number(n) => Opened::Number(n.as_str()),
        serde_json::Value::String(s) => Opened::Text(s.as_str()),
        serde_json::Value::Array(items) => Opened::Array(items.iter().collect()),
        serde_json::Value::Object(map) => Opened::Object(map.iter().collect()),
    }
}

/// Builds a value from one level of parts.
///
/// Trusted: builds the variant of `serde_json::Value` that the parts name. A
/// number is read from its literal by `serde_json::from_str`, which accepts
/// every number literal and keeps it as it stands. The contract says that
/// the value holds the document of the parts.
#[verifier::external_body]
fn close_parts(parts: Parts) -> (value: serde_json::Value)
    requires
        parts matches Parts::Number(literal) ==> is_number_literal(literal@),
    ensures
        value_doc(value) == parts.doc(),
{
    match parts {
        Parts::Null => serde_json::Value::Null,
        Parts::Bool(b) => serde_json::Value::Bool(b),
        Parts::Number(literal) => {
            serde_json::Value::Number(serde_json::from_str(&literal).unwrap())
        },
        Parts::Text(text) => serde_json::Value::String(text),
        Parts::Array(items) => serde_json::Value::Array(items),
        Parts::EmptyObject => serde_json::Value::Object(serde_json::Map::new()),
    }
}

/// Enters a member into an object.
///
/// Trusted: calls `serde_json::Map::insert` on the map of an object value,
/// which replaces the value of a member that is there already. The contract
/// says that the object then holds the member besides its other members.
#[verifier::external_body]
fn insert_member(object: serde_json::Value, name: String, value: serde_json::Value) -> (entered:
    serde_json::Value)
    requires
        value_doc(object) is Object,
    ensures
        value_doc(entered) == Doc::Object(
            value_doc(object)->Object_0.insert(name@, value_doc(value)),
        ),
{
    match object {
        serde_json::Value::Object(mut map) => {
            map.insert(name, value);
            serde_json::Value::Object(map)
        },
        other => other,
    }
}

/// The document of this library that a `serde_json` value holds.
fn json_of_value(value: &serde_json::Value) -> (json: Json)
    ensures
        json@ == value_doc(*value),
    decreases value_depth(*value),
{
    match open_value(value) {
        Opened::Null => Json::Null,
        Opened::Bool(b) => Json::Bool(b),
        Opened::Number(literal) => Json::Number(literal.to_owned()),
        Opened::Text(text) => Json::Text(text.to_owned()),
        Opened::Array(items) => {
            let mut out: Vec<Json> = Vec::new();
            let mut i: usize = 0;
            while i < items.len()
                invariant
                    i <= items.len(),
                    out@.len() == i,
                    forall|k: int| 0 <= k < items@.len() ==> value_depth(*#[trigger] items@[k])
                        < value_depth(*value),
                    forall|k: int| 0 <= k < i ==> (#[trigger] out@[k])@ == value_doc(*items@[k]),
                decreases items.len() - i,
            {
                let item = json_of_value(items[i]);
                out.push(item);
                i = i + 1;
            }
            proof {
                lemma_docs_of(out@);
                let docs = Seq::new(items@.len(), |k: int| value_doc(*items@[k]));
                assert forall|k: int| 0 <= k < docs.len() implies docs_of(out@)[k] == docs[k] by {
                    assert(docs_of(out@)[k] == out@[k]@);
                }
                assert(docs_of(out@) =~= docs);
            }
            Json::Array(out)
        },
        Opened::Object(entries) => {
            let mut out: Vec<Member> = Vec::new();
            let mut i: usize = 0;
            while i < entries.len()
                invariant
                    i <= entries.len(),
                    forall|k: int|
                        0 <= k < entries@.len() ==> value_depth(*(#[trigger] entries@[k]).1)
                            < value_depth(*value),
                    members_map(out@) == opened_map(entries@.take(i as int)),
                decreases entries.len() - i,
            {
                let name: String = entries[i].0.clone();
                let member = Member { name, value: json_of_value(entries[i].1) };
                proof {
                    let next = entries@.take(i as int + 1);
                    assert(next.drop_last() =~= entries@.take(i as int));
                    assert(out@.push(member).drop_last() =~= out@);
                }
                out.push(member);
                i = i + 1;
            }
            proof {
                assert(entries@.take(entries@.len() as int) =~= entries@);
            }
            Json::Object(out)
        },
    }
}

/// The `serde_json` value that holds a document of this library, if every
/// number in the document is a number literal.
fn value_of_json(json: &Json) -> (built: Option<serde_json::Value>)
    ensures
        built is Some <==> json.numbers_valid(),
        built matches Some(value) ==> value_doc(value) == json@,
    decreases json,
{
    match json {
        Json::Null => Some(close_parts(Parts::Null)),
        Json::Bool(b) => Some(close_parts(Parts::Bool(*b))),
        Json::Number(literal) => {
            if crate::number::check_number_literal(literal.as_str()) {
                Some(close_parts(Parts::Number(literal.clone())))
            } else {
                None
            }
        },
        Json::Text(text) => Some(close_parts(Parts::Text(text.clone()))),
        Json::Array(items) => {
            let mut out: Vec<serde_json::Value> = Vec::new();
            let mut i: usize = 0;
            while i < items.len()
                invariant
                    i <= items.len(),
                    out@.len() == i,
                    *json == Json::Array(*items),
                    all_numbers_valid(items@.take(i as int)),
                    forall|k: int| 0 <= k < i ==> value_doc(#[trigger] out@[k]) == items@[k]@,
                decreases items.len() - i,
            {
                proof {
                    assert(items@.take(i as int + 1).drop_last() =~= items@.take(i as int));
                    if all_numbers_valid(items@) {
                        lemma_numbers_valid_prefix(items@, i as int + 1);
                    }
                }
                match value_of_json(&items[i]) {
                    Some(value) => out.push(value),
                    None => {
                        return None;
                    },
                }
                i = i + 1;
            }
            proof {
                assert(items@.take(items@.len() as int) =~= items@);
                lemma_docs_of(items@);
                let docs = Seq::new(out@.len(), |k: int| value_doc(out@[k]));
                assert forall|k: int| 0 <= k < docs.len() implies docs_of(items@)[k] == docs[k] by {
                    assert(docs_of(items@)[k] == items@[k]@);
                }
                assert(docs_of(items@) =~= docs);
            }
            Some(close_parts(Parts::Array(out)))
        },
        Json::Object(members) => {
            let mut object = close_parts(Parts::EmptyObject);
            let mut i: usize = 0;
            while i < members.len()
                invariant
                    i <= members.len(),
                    *json == Json::Object(*members),
                    member_numbers_valid(members@.take(i as int)),
                    value_doc(object) == Doc::Object(members_map(members@.take(i as int))),
                decreases members.len() - i,
            {
                proof {
                    assert(members@.take(i as int + 1).drop_last() =~= members@.take(i as int));
                    if member_numbers_valid(members@) {
                        lemma_member_numbers_valid_prefix(members@, i as int + 1);
                    }
                }
                match value_of_json(&members[i].value) {
                    Some(value) => {
                        object = insert_member(object, members[i].name.clone(), value);
                    },
                    None => {
                        return None;
                    },
                }
                i = i + 1;
            }
            proof {
                assert(members@.take(members@.len() as int) =~= members@);
            }
            Some(object)
        },
    }
}

/// If the numbers of a sequence of documents are valid, so are those of each
/// of its prefixes.
proof fn lemma_numbers_valid_prefix(items: Seq<Json>, n: int)
    requires
        0 <= n <= items.len(),
        all_numbers_valid(items),
    ensures
        all_numbers_valid(items.take(n)),
    decreases items.len(),
{
    if n < items.len() {
        lemma_numbers_valid_prefix(items.drop_last(), n);
        assert(items.drop_last().take(n) =~= items.take(n));
    } else {
        assert(items.take(n) =~= items);
    }
}

/// If the numbers of a list of members are valid, so are those of each of
/// its prefixes.
proof fn lemma_member_numbers_valid_prefix(members: Seq<Member>, n: int)
    requires
        0 <= n <= members.len(),
        member_numbers_valid(members),
    ensures
        member_numbers_valid(members.take(n)),
    decreases members.len(),
{
    if n < members.len() {
        lemma_member_numbers_valid_prefix(members.drop_last(), n);
        assert(members.drop_last().take(n) =~= members.take(n));
    } else {
        assert(members.take(n) =~= members);
    }
}

/// Reads a JSON text into a document.
///
/// Returns the document that `json_parse` names, or the parser's error where
/// the text is rejected.
pub fn read_document(text: &[u8]) -> (read: Result<Json, serde_json::Error>)
    ensures
        read matches Ok(json) ==> json_parse(text@) == Some(json@),
        read is Err <==> json_parse(text@) is None,
{
    match parse_value(text) {
        Ok(value) => Ok(json_of_value(&value)),
        Err(error) => Err(error),
    }
}

/// Writes a document as JSON text.
///
/// Returns the text that `json_text` names, or `None` where a number in the
/// document is no number literal.
pub fn write_document(json: &Json) -> (written: Option<Vec<u8>>)
    ensures
        written is Some <==> json.numbers_valid(),
        written matches Some(text) ==> text@ == json_text(json@),
{
    match value_of_json(json) {
        Some(value) => Some(print_value(&value)),
        None => None,
    }
}

} // verus!
