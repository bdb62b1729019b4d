//! The typed codec: how values of the protocol are written as JSON
//! documents and read back from them.

use crate::json::{
    all_numbers_valid, docs_of, duplicate_json, lemma_docs_of_push, lemma_members_map_push,
    member_numbers_valid, members_map, Doc, Json, Member,
};
use crate::number::{is_number_literal, lemma_decimal_is_literal, Number};
use crate::error::{DecodeError, ErrorKind};
use crate::text::{
    decimal_digits, decimal_text, digits_value, is_decimal_notation, lemma_decimal_digits,
    parse_decimal,
};
use crate::wire::{json_parse, json_text, read_document, write_document};
use vstd::prelude::*;

verus! {

/// A value that can be written as a JSON document.
pub trait ToJson {
    /// The document that stands for the value on the wire.
    spec fn doc(&self) -> Doc;

    /// Writes the value as a document.
    fn to_json(&self) -> (json: Json)
        ensures
            json@ == self.doc(),
            json.numbers_valid(),
    ;
}

/// A value that can be read from a JSON document.
pub trait FromJson: Sized {
    /// Whether the document has the shape of such a value.
    spec fn decodes(doc: Doc) -> bool;

    /// Whether this is the value that the document denotes, field for field.
    spec fn is_value_of(&self, doc: Doc) -> bool;

    /// Reads the value from a document; `None` if the document has another
    /// shape.
    fn from_json(json: &Json) -> (value: Option<Self>)
        ensures
            value is Some <==> Self::decodes(json@),
            value matches Some(v) ==> v.is_value_of(json@),
    ;
}

/// The natural number that a document denotes, if it is a number written in
/// decimal notation that fits 64 bits.
pub open spec fn doc_u64(doc: Doc) -> Option<u64> {
    match doc {
        Doc::Number(literal) => if is_decimal_notation(literal) && digits_value(literal)
            <= u64::MAX {
            Some(digits_value(literal) as u64)
        } else {
            None
        },
        _ => None,
    }
}

/// The natural number that a document denotes, if it fits a `usize`.
pub open spec fn doc_usize(doc: Doc) -> Option<usize> {
    match doc_u64(doc) {
        Some(n) => if n <= usize::MAX {
            Some(n as usize)
        } else {
            None
        },
        None => None,
    }
}

/// The number literal that a document holds, if it is a number.
pub open spec fn doc_number(doc: Doc) -> Option<Seq<char>> {
    match doc {
        Doc::Number(literal) => if is_number_literal(literal) {
            Some(literal)
        } else {
            None
        },
        _ => None,
    }
}

/// The document of a natural number.
pub open spec fn u64_doc(n: u64) -> Doc {
    Doc::Number(decimal_digits(n as nat))
}

/// Reading the document of a natural number gives the number back.
pub proof fn lemma_u64_doc_round_trip(n: u64)
    ensures
        doc_u64(u64_doc(n)) == Some(n),
{
    lemma_decimal_digits(n as nat);
}

/// A natural number as a document.
pub fn json_of_u64(n: u64) -> (json: Json)
    ensures
        json@ == u64_doc(n),
        json.numbers_valid(),
{
    proof {
        lemma_decimal_digits(n as nat);
        lemma_decimal_is_literal(decimal_digits(n as nat));
    }
    Json::Number(decimal_text(n))
}

/// A text as a document.
pub fn json_of_str(text: &str) -> (json: Json)
    ensures
        json@ == Doc::Text(text@),
        json.numbers_valid(),
{
    Json::Text(text.to_owned())
}

/// A number as a document.
pub fn json_of_number(number: &Number) -> (json: Json)
    ensures
        json@ == Doc::Number(number@),
        json.numbers_valid(),
{
    Json::Number(number.as_str().to_owned())
}

/// Enters one more member into the members of an object under construction.
pub fn push_member(members: &mut Vec<Member>, name: &str, value: Json)
    requires
        value.numbers_valid(),
        member_numbers_valid(old(members)@),
    ensures
        members_map(final(members)@) == members_map(old(members)@).insert(name@, value@),
        member_numbers_valid(final(members)@),
{
    let member = Member { name: name.to_owned(), value };
    proof {
        lemma_members_map_push(members@, member);
    }
    members.push(member);
}

/// Reads a natural number that fits 64 bits.
pub fn read_u64(json: &Json) -> (value: Option<u64>)
    ensures
        value == doc_u64(json@),
{
    match json {
        Json::Number(literal) => parse_decimal(literal.as_str()),
        _ => None,
    }
}

/// Reads a natural number that fits a `usize`.
pub fn read_usize(json: &Json) -> (value: Option<usize>)
    ensures
        value == doc_usize(json@),
{
    match read_u64(json) {
        Some(n) => if n <= usize::MAX as u64 {
            Some(n as usize)
        } else {
            None
        },
        None => None,
    }
}

/// Reads a number.
pub fn read_number(json: &Json) -> (value: Option<Number>)
    ensures
        value is Some <==> doc_number(json@) is Some,
        value matches Some(n) ==> doc_number(json@) == Some(n@),
{
    match json {
        Json::Number(literal) => Number::parse(literal.as_str()),
        _ => None,
    }
}

impl FromJson for Json {
    open spec fn decodes(doc: Doc) -> bool {
        true
    }

    open spec fn is_value_of(&self, doc: Doc) -> bool {
        self@ == doc
    }

    fn from_json(json: &Json) -> (value: Option<Json>) {
        Some(duplicate_json(json))
    }
}

impl FromJson for () {
    open spec fn decodes(doc: Doc) -> bool {
        doc is Null
    }

    open spec fn is_value_of(&self, doc: Doc) -> bool {
        doc is Null
    }

    fn from_json(json: &Json) -> (value: Option<()>) {
        match json {
            Json::Null => Some(()),
            _ => None,
        }
    }
}

impl FromJson for bool {
    open spec fn decodes(doc: Doc) -> bool {
        doc is Bool
    }

    open spec fn is_value_of(&self, doc: Doc) -> bool {
        doc == Doc::Bool(*self)
    }

    fn from_json(json: &Json) -> (value: Option<bool>) {
        match json {
            Json::Bool(b) => Some(*b),
            _ => None,
        }
    }
}

impl FromJson for u64 {
    open spec fn decodes(doc: Doc) -> bool {
        doc_u64(doc) is Some
    }

    open spec fn is_value_of(&self, doc: Doc) -> bool {
        doc_u64(doc) == Some(*self)
    }

    fn from_json(json: &Json) -> (value: Option<u64>) {
        read_u64(json)
    }
}

impl FromJson for usize {
    open spec fn decodes(doc: Doc) -> bool {
        doc_usize(doc) is Some
    }

    open spec fn is_value_of(&self, doc: Doc) -> bool {
        doc_usize(doc) == Some(*self)
    }

    fn from_json(json: &Json) -> (value: Option<usize>) {
        read_usize(json)
    }
}

impl FromJson for String {
    open spec fn decodes(doc: Doc) -> bool {
        doc is Text
    }

    open spec fn is_value_of(&self, doc: Doc) -> bool {
        doc == Doc::Text(self@)
    }

    fn from_json(json: &Json) -> (value: Option<String>) {
        match json {
            Json::Text(text) => Some(text.clone()),
            _ => None,
        }
    }
}

impl FromJson for Number {
    open spec fn decodes(doc: Doc) -> bool {
        doc_number(doc) is Some
    }

    open spec fn is_value_of(&self, doc: Doc) -> bool {
        doc_number(doc) == Some(self@)
    }

    fn from_json(json: &Json) -> (value: Option<Number>) {
        read_number(json)
    }
}

impl<T: FromJson> FromJson for Option<T> {
    open spec fn decodes(doc: Doc) -> bool {
        doc is Null || T::decodes(doc)
    }

    open spec fn is_value_of(&self, doc: Doc) -> bool {
        match self {
            None => doc is Null,
            Some(value) => !(doc is Null) && value.is_value_of(doc),
        }
    }

    fn from_json(json: &Json) -> (value: Option<Option<T>>) {
        match json {
            Json::Null => Some(None),
            _ => match T::from_json(json) {
                Some(inner) => Some(Some(inner)),
                None => None,
            },
        }
    }
}

/// Whether the document is an object with a member `name` of the shape of a
/// `T`.
pub open spec fn member_decodes<T: FromJson>(doc: Doc, name: Seq<char>) -> bool {
    doc.member(name) matches Some(inner) && T::decodes(inner)
}

/// Whether `value` is what the member `name` of the document denotes.
pub open spec fn member_is<T: FromJson>(value: T, doc: Doc, name: Seq<char>) -> bool {
    doc.member(name) matches Some(inner) && value.is_value_of(inner)
}

/// Reads the member `name` of an object as a `T`. The member is required:
/// the result is `None` if it is absent or of another shape.
pub fn read_member<T: FromJson>(json: &Json, name: &str) -> (value: Option<T>)
    ensures
        value is Some <==> member_decodes::<T>(json@, name@),
        value matches Some(v) ==> member_is(v, json@, name@),
{
    match json.get(name) {
        Some(inner) => T::from_json(inner),
        None => None,
    }
}

/// A value with a default, which stands in for a member that a document
/// leaves out.
pub trait Defaulted: Sized {
    /// Whether this is the default value.
    spec fn is_default(&self) -> bool;

    /// The default value.
    fn default_value() -> (value: Self)
        ensures
            value.is_default(),
    ;
}

/// Whether the member `name` of the document is absent or has the shape of
/// a `T`.
pub open spec fn optional_member_decodes<T: FromJson>(doc: Doc, name: Seq<char>) -> bool {
    doc.member(name) matches Some(inner) ==> T::decodes(inner)
}

/// Whether `value` is what the member `name` of the document denotes, or
/// the default where the document has no such member.
pub open spec fn optional_member_is<T: FromJson + Defaulted>(
    value: T,
    doc: Doc,
    name: Seq<char>,
) -> bool {
    match doc.member(name) {
        Some(inner) => value.is_value_of(inner),
        None => value.is_default(),
    }
}

/// Reads the member `name` of an object as a `T`, or takes the default where
/// the object has no such member. The result is `None` if the member is
/// there and of another shape.
pub fn read_optional_member<T: FromJson + Defaulted>(json: &Json, name: &str) -> (value: Option<T>)
    ensures
        value is Some <==> optional_member_decodes::<T>(json@, name@),
        value matches Some(v) ==> optional_member_is(v, json@, name@),
{
    match json.get(name) {
        Some(inner) => T::from_json(inner),
        None => Some(T::default_value()),
    }
}

impl Defaulted for bool {
    open spec fn is_default(&self) -> bool {
        !*self
    }

    fn default_value() -> (value: bool) {
        false
    }
}

impl Defaulted for u64 {
    open spec fn is_default(&self) -> bool {
        *self == 0
    }

    fn default_value() -> (value: u64) {
        0
    }
}

impl Defaulted for usize {
    open spec fn is_default(&self) -> bool {
        *self == 0
    }

    fn default_value() -> (value: usize) {
        0
    }
}

impl Defaulted for String {
    open spec fn is_default(&self) -> bool {
        self@.len() == 0
    }

    fn default_value() -> (value: String) {
        String::new()
    }
}

impl Defaulted for Number {
    open spec fn is_default(&self) -> bool {
        self@ == "0.0"@
    }

    fn default_value() -> (value: Number) {
        Number::zero()
    }
}

impl<T> Defaulted for Option<T> {
    open spec fn is_default(&self) -> bool {
        self is None
    }

    fn default_value() -> (value: Option<T>) {
        None
    }
}

impl ToJson for bool {
    open spec fn doc(&self) -> Doc {
        Doc::Bool(*self)
    }

    fn to_json(&self) -> (json: Json) {
        Json::Bool(*self)
    }
}

impl ToJson for u64 {
    open spec fn doc(&self) -> Doc {
        u64_doc(*self)
    }

    fn to_json(&self) -> (json: Json) {
        json_of_u64(*self)
    }
}

impl ToJson for usize {
    open spec fn doc(&self) -> Doc {
        u64_doc(*self as u64)
    }

    fn to_json(&self) -> (json: Json) {
        json_of_u64(*self as u64)
    }
}

impl ToJson for String {
    open spec fn doc(&self) -> Doc {
        Doc::Text(self@)
    }

    fn to_json(&self) -> (json: Json) {
        json_of_str(self.as_str())
    }
}

impl ToJson for Number {
    open spec fn doc(&self) -> Doc {
        Doc::Number(self@)
    }

    fn to_json(&self) -> (json: Json) {
        json_of_number(self)
    }
}

impl<T: ToJson> ToJson for Option<T> {
    open spec fn doc(&self) -> Doc {
        match self {
            Some(value) => value.doc(),
            None => Doc::Null,
        }
    }

    fn to_json(&self) -> (json: Json) {
        match self {
            Some(value) => value.to_json(),
            None => Json::Null,
        }
    }
}

/// The documents of a sequence of values.
pub open spec fn docs_of_values<T: ToJson>(values: Seq<T>) -> Seq<Doc> {
    Seq::new(values.len(), |i: int| values[i].doc())
}

impl<T: ToJson> ToJson for Vec<T> {
    open spec fn doc(&self) -> Doc {
        Doc::Array(docs_of_values(self@))
    }

    fn to_json(&self) -> (json: Json) {
        let mut out: Vec<Json> = Vec::new();
        let mut i: usize = 0;
        while i < self.len()
            invariant
                i <= self.len(),
                docs_of(out@) == docs_of_values(self@.take(i as int)),
                all_numbers_valid(out@),
            decreases self.len() - i,
        {
            let item = self[i].to_json();
            proof {
                lemma_docs_of_push(out@, item);
                assert(docs_of(out@).push(item@) =~= docs_of_values(self@.take(i as int + 1)));
            }
            out.push(item);
            i = i + 1;
        }
        proof {
            assert(self@.take(self@.len() as int) =~= self@);
        }
        Json::Array(out)
    }
}

/// An object of the given members as a document.
pub fn json_object(members: Vec<Member>) -> (json: Json)
    requires
        member_numbers_valid(members@),
    ensures
        json@ == Doc::Object(members_map(members@)),
        json.numbers_valid(),
{
    Json::Object(members)
}

/// The text of a value on the wire.
pub open spec fn encoded<S: ToJson>(message: S) -> Seq<u8> {
    json_text(message.doc())
}

/// Writes a value as the JSON text that goes on the wire.
pub fn encode<S: ToJson>(message: &S) -> (text: Vec<u8>)
    ensures
        text@ == encoded(*message),
{
    let json = message.to_json();
    match write_document(&json) {
        Some(text) => text,
        None => vstd::pervasive::unreached(),
    }
}

/// Whether this is the outcome of decoding a parsed frame as a `T`: the
/// value that the document denotes, or the error `Shape` where the document
/// has not the shape of a `T`.
pub open spec fn is_decoded<T: FromJson>(outcome: Result<T, ErrorKind>, doc: Doc) -> bool {
    match outcome {
        Ok(value) => T::decodes(doc) && value.is_value_of(doc),
        Err(ErrorKind::JsonError(DecodeError::Shape)) => !T::decodes(doc),
        Err(_) => false,
    }
}

/// Whether this is the outcome of decoding a frame as a `T`: a syntax error
/// where the frame is no JSON text, and else the outcome of decoding the
/// document that the frame holds.
pub open spec fn is_decoded_frame<T: FromJson>(
    outcome: Result<T, ErrorKind>,
    frame: Seq<u8>,
) -> bool {
    match json_parse(frame) {
        Some(doc) => is_decoded(outcome, doc),
        None => outcome matches Err(ErrorKind::JsonError(DecodeError::Syntax(_))),
    }
}

/// Reads a `T` from a document.
pub fn decode_document<T: FromJson>(json: &Json) -> (outcome: Result<T, ErrorKind>)
    ensures
        is_decoded(outcome, json@),
{
    match T::from_json(json) {
        Some(value) => Ok(value),
        None => Err(ErrorKind::JsonError(DecodeError::Shape)),
    }
}

/// Reads a `T` from a frame.
pub fn decode<T: FromJson>(frame: &[u8]) -> (outcome: Result<T, ErrorKind>)
    ensures
        is_decoded_frame(outcome, frame@),
{
    match read_document(frame) {
        Ok(json) => decode_document(&json),
        Err(error) => Err(ErrorKind::JsonError(DecodeError::Syntax(error))),
    }
}

/// Whether the frame is a JSON text that holds the document.
pub open spec fn frame_holds(frame: Seq<u8>, doc: Doc) -> bool {
    json_parse(frame) == Some(doc)
}

/// A value that can be written as a document and read back from it.
pub trait RoundTrip: ToJson + FromJson {
    /// Whether the two values are the same, field for field.
    spec fn same(&self, other: &Self) -> bool;

    /// The document of a value has the shape of such a value, and what is
    /// read from it is the value.
    proof fn lemma_round_trip(&self, read: &Self)
        ensures
            Self::decodes(self.doc()),
            read.is_value_of(self.doc()) ==> read.same(self),
    ;
}

impl RoundTrip for bool {
    open spec fn same(&self, other: &bool) -> bool {
        *self == *other
    }

    proof fn lemma_round_trip(&self, read: &bool) {
    }
}

impl RoundTrip for u64 {
    open spec fn same(&self, other: &u64) -> bool {
        *self == *other
    }

    proof fn lemma_round_trip(&self, read: &u64) {
        lemma_u64_doc_round_trip(*self);
    }
}

impl RoundTrip for usize {
    open spec fn same(&self, other: &usize) -> bool {
        *self == *other
    }

    proof fn lemma_round_trip(&self, read: &usize) {
        lemma_u64_doc_round_trip(*self as u64);
    }
}

impl RoundTrip for String {
    open spec fn same(&self, other: &String) -> bool {
        self@ == other@
    }

    proof fn lemma_round_trip(&self, read: &String) {
    }
}

} // verus!
