//! Structured documents: the tree of values that the trace batch is written
//! as, and its JSON text.

use vstd::prelude::*;
use crate::error::TraceError;

verus! {

/// `serde_json::Value`, carried between the conversions and the calls below.
/// Nothing is known of what a value holds.
#[verifier::external_type_specification]
#[verifier::external_body]
pub struct ExJsonValue(serde_json::Value);

/// `serde_json::Number`, held by a number node as it was read. Nothing is
/// known of what a number holds.
#[verifier::external_type_specification]
#[verifier::external_body]
pub struct ExJsonNumber(serde_json::Number);

/// `serde_json::Error`, which the calls below return on failure. It is turned
/// into an error of this library where it comes back.
#[verifier::external_type_specification]
#[verifier::external_body]
pub struct ExJsonFailure(serde_json::Error);

/// A structured document: a scalar, a list of documents, or a record of named
/// documents whose fields keep their order. A record may name a field twice;
/// the documents that this library writes never do.
#[derive(Debug, PartialEq, Eq)]
pub enum Json {
    Null,
    Bool(bool),
    Number(serde_json::Number),
    Text(String),
    List(Vec<Json>),
    Record(Vec<(String, Json)>),
}

/// The mathematical content of a [`Json`] document.
pub enum JsonView {
    Null,
    Bool(bool),
    Number(serde_json::Number),
    Text(Seq<char>),
    List(Seq<JsonView>),
    Record(Seq<(Seq<char>, JsonView)>),
}

impl View for Json {
    type V = JsonView;

    open spec fn view(&self) -> JsonView
        decreases self,
    {
        match self {
            Json::Null => JsonView::Null,
            Json::Bool(b) => JsonView::Bool(*b),
            Json::Number(n) => JsonView::Number(*n),
            Json::Text(s) => JsonView::Text(s@),
            Json::List(items) => JsonView::List(
                Seq::new(
                    items@.len(),
                    |i: int|
                        if 0 <= i < items@.len() {
                            items@[i].view()
                        } else {
                            JsonView::Null
                        },
                ),
            ),
            Json::Record(fields) => JsonView::Record(
                Seq::new(
                    fields@.len(),
                    |i: int|
                        (
                            fields@[i].0@,
                            if 0 <= i < fields@.len() {
                                fields@[i].1.view()
                            } else {
                                JsonView::Null
                            },
                        ),
                ),
            ),
        }
    }
}

/// The views of the items of a list, one for one.
pub open spec fn item_views(items: Seq<Json>) -> Seq<JsonView> {
    Seq::new(items.len(), |i: int| items[i]@)
}

/// The views of the fields of a record, one for one.
pub open spec fn field_views(fields: Seq<(String, Json)>) -> Seq<(Seq<char>, JsonView)> {
    Seq::new(fields.len(), |i: int| (fields[i].0@, fields[i].1@))
}

/// The view of a list is the list of the views of its items.
pub proof fn lemma_list_view(items: Vec<Json>)
    ensures
        Json::List(items)@ == JsonView::List(item_views(items@)),
{
    assert(Json::List(items)@->List_0 =~= item_views(items@));
}

/// The view of a record is the list of the views of its fields.
pub proof fn lemma_record_view(fields: Vec<(String, Json)>)
    ensures
        Json::Record(fields)@ == JsonView::Record(field_views(fields@)),
{
    assert(Json::Record(fields)@->Record_0 =~= field_views(fields@));
}

/// The text that `serde_json::to_string` gives for a document.
///
/// Nothing is stated of the text but that it depends on the document alone.
/// It does: a record becomes a `serde_json::Map` that keeps its entries in
/// the order of insertion, whatever its hasher, and the writer walks it in
/// that order.
pub uninterp spec fn json_text(doc: JsonView) -> Seq<char>;

/// The document that `serde_json::from_str` reads from a text, `None` where
/// it rejects the text.
///
/// Nothing is stated of it but that it depends on the text alone. In
/// particular nothing here says that reading the text of a document gives
/// that document back.
pub uninterp spec fn json_parse(text: Seq<char>) -> Option<JsonView>;

/// Converts a document to a `serde_json::Value`, variant for variant. A
/// record is collected into a `serde_json::Map`, which keeps a repeated key
/// once, in its first place and with its last value. No contract: the value
/// only passes on to [`write_text`].
#[verifier::external_body]
fn to_value(doc: &Json) -> serde_json::Value {
    match doc {
        Json::Null => serde_json::Value::Null,
        Json::Bool(b) => serde_json::Value::Bool(*b),
        Json::Number(n) => serde_json::Value::Number(n.clone()),
        Json::Text(s) => serde_json::Value::String(s.clone()),
        Json::List(items) => serde_json::Value::Array(items.iter().map(to_value).collect()),
        Json::Record(fields) => serde_json::Value::Object(
            fields.iter().map(|f| (f.0.clone(), to_value(&f.1))).collect(),
        ),
    }
}

/// Converts a `serde_json::Value` to a document, variant for variant, moving
/// what each variant holds; the entries of a `serde_json::Map` come in the
/// order in which the map walks them. No contract: the value only comes from
/// [`read_text`].
#[verifier::external_body]
fn from_value(value: serde_json::Value) -> Json {
    match value {
        serde_json::Value::Null => Json::Null,
        serde_json::Value::Bool(b) => Json::Bool(b),
        serde_json::Value::Number(n) => Json::Number(n),
        serde_json::Value::String(s) => Json::Text(s),
        serde_json::Value::Array(items) => Json::List(items.into_iter().map(from_value).collect()),
        serde_json::Value::Object(fields) => Json::Record(
            fields.into_iter().map(|f| (f.0, from_value(f.1))).collect(),
        ),
    }
}

/// Calls `serde_json::to_string` on the value of the document. Not proved,
/// but read off the source of `serde_json`:
///
/// - that the call succeeds. The serializer fails only where its writer
///   fails or a map has a key that is no string; here it writes into a
///   vector of bytes, which takes every write, the keys of a
///   `serde_json::Map` are strings, and a number that is not finite is
///   written as `null`;
/// - that the text which comes back is [`json_text`] of the document, that
///   is, that it depends on nothing but the document.
#[verifier::external_body]
fn write_text(doc: &Json) -> (r: Result<String, serde_json::Error>)
    ensures
        r is Ok,
        r->Ok_0@ == json_text(doc@),
{
    serde_json::to_string(&to_value(doc))
}

/// Calls `serde_json::from_str` for a `serde_json::Value`. Not proved: that
/// whether the text is accepted, and the document read from it, are
/// [`json_parse`] of the text, that is, that they depend on nothing but the
/// text.
#[verifier::external_body]
fn read_text(text: &str) -> (r: Result<Json, serde_json::Error>)
    ensures
        r is Ok ==> json_parse(text@) == Some(r->Ok_0@),
        r is Err ==> json_parse(text@) is None,
{
    serde_json::from_str::<serde_json::Value>(text).map(from_value)
}

impl Json {
    /// Write the document as JSON text. Every document has a text, so this
    /// succeeds.
    pub fn render(&self) -> (r: Result<String, TraceError>)
        ensures
            r is Ok,
            r->Ok_0@ == json_text(self@),
    {
        match write_text(self) {
            Ok(text) => Ok(text),
            Err(_) => Err(TraceError::Serialization),
        }
    }

    /// Read a document from JSON text.
    pub fn parse(text: &str) -> (r: Result<Json, TraceError>)
        ensures
            match json_parse(text@) {
                Some(doc) => r is Ok && r->Ok_0@ == doc,
                None => r == Err::<Json, TraceError>(TraceError::Syntax),
            },
    {
        match read_text(text) {
            Ok(doc) => Ok(doc),
            Err(_) => Err(TraceError::Syntax),
        }
    }
}

} // verus!
