//! The document form of trace records.
//!
//! A batch is a list with one record per call, in the order in which the
//! calls were recorded. A record has the fields `name`, `filename`, `args`
//! and `returns`; `args` is a list with one record per argument, with the
//! fields `name`, `type` and `kind`. All values but `args` are texts.

use vstd::prelude::*;
use crate::argument::{Argument, ArgumentKind, ArgumentView, argument_views};
use crate::document::{Json, JsonView, field_views, item_views, json_parse};
use crate::document::{lemma_list_view, lemma_record_view};
use crate::error::TraceError;
use crate::record::{TraceRecord, TraceRecordView, record_views, record_well_formed};
use crate::text::equals;

verus! {

/// The text that stands for a kind in a document.
pub open spec fn kind_label(kind: ArgumentKind) -> Seq<char> {
    match kind {
        ArgumentKind::Positional => "Positional"@,
        ArgumentKind::VariadicPositional => "StarArgs"@,
        ArgumentKind::KeywordOnly => "KeywordOnly"@,
        ArgumentKind::VariadicKeyword => "StarKwargs"@,
    }
}

/// The document of one argument.
pub open spec fn encoded_argument(a: ArgumentView) -> JsonView {
    JsonView::Record(
        seq![
            ("name"@, JsonView::Text(a.name)),
            ("type"@, JsonView::Text(a.typ)),
            ("kind"@, JsonView::Text(kind_label(a.kind))),
        ],
    )
}

/// The documents of a list of arguments, one for one.
pub open spec fn encoded_arguments(args: Seq<ArgumentView>) -> Seq<JsonView> {
    Seq::new(args.len(), |i: int| encoded_argument(args[i]))
}

/// The document of one record.
pub open spec fn encoded_record(r: TraceRecordView) -> JsonView {
    JsonView::Record(
        seq![
            ("name"@, JsonView::Text(r.name)),
            ("filename"@, JsonView::Text(r.filename)),
            ("args"@, JsonView::List(encoded_arguments(r.args))),
            ("returns"@, JsonView::Text(r.returns)),
        ],
    )
}

/// The document of a batch of records: the list of their documents, in order.
pub open spec fn encoded_batch(records: Seq<TraceRecordView>) -> JsonView {
    JsonView::List(Seq::new(records.len(), |i: int| encoded_record(records[i])))
}

/// The text that stands for a kind in a document.
pub fn label_of(kind: ArgumentKind) -> (r: &'static str)
    ensures
        r@ == kind_label(kind),
{
    match kind {
        ArgumentKind::Positional => "Positional",
        ArgumentKind::VariadicPositional => "StarArgs",
        ArgumentKind::KeywordOnly => "KeywordOnly",
        ArgumentKind::VariadicKeyword => "StarKwargs",
    }
}

/// A field of a record document whose value is a text.
fn text_field(key: &str, value: &str) -> (r: (String, Json))
    ensures
        r.0@ == key@,
        r.1@ == JsonView::Text(value@),
{
    (key.to_owned(), Json::Text(value.to_owned()))
}

/// The document of one argument.
pub fn encode_argument(argument: &Argument) -> (doc: Json)
    ensures
        doc@ == encoded_argument(argument@),
{
    let mut fields: Vec<(String, Json)> = Vec::with_capacity(3);
    fields.push(text_field("name", argument.name.as_str()));
    fields.push(text_field("type", argument.typ.as_str()));
    fields.push(text_field("kind", label_of(argument.kind)));
    let doc = Json::Record(fields);
    proof {
        assert(doc@->Record_0 =~= encoded_argument(argument@)->Record_0);
    }
    doc
}

/// The document of one record.
pub fn encode_record(record: &TraceRecord) -> (doc: Json)
    ensures
        doc@ == encoded_record(record@),
{
    let args = record.args();
    let mut items: Vec<Json> = Vec::with_capacity(args.len());
    let mut i: usize = 0;
    while i < args.len()
        invariant
            i <= args.len(),
            items.len() == i,
            forall|k: int| 0 <= k < i ==> (#[trigger] items@[k])@ == encoded_argument(args@[k]@),
        decreases args.len() - i,
    {
        items.push(encode_argument(&args[i]));
        i = i + 1;
    }
    let list = Json::List(items);
    proof {
        assert(list@->List_0 =~= encoded_arguments(record@.args));
    }
    let mut fields: Vec<(String, Json)> = Vec::with_capacity(4);
    fields.push(text_field("name", record.name().as_str()));
    fields.push(text_field("filename", record.filename().as_str()));
    fields.push(("args".to_owned(), list));
    fields.push(text_field("returns", record.return_type().as_str()));
    let doc = Json::Record(fields);
    proof {
        assert(doc@->Record_0 =~= encoded_record(record@)->Record_0);
    }
    doc
}

/// The document of a batch of records.
pub fn encode_batch(records: &Vec<TraceRecord>) -> (doc: Json)
    ensures
        doc@ == encoded_batch(record_views(records@)),
{
    let mut items: Vec<Json> = Vec::with_capacity(records.len());
    let mut i: usize = 0;
    while i < records.len()
        invariant
            i <= records.len(),
            items.len() == i,
            forall|k: int| 0 <= k < i ==> (#[trigger] items@[k])@ == encoded_record(records@[k]@),
        decreases records.len() - i,
    {
        items.push(encode_record(&records[i]));
        i = i + 1;
    }
    let doc = Json::List(items);
    proof {
        assert(doc@->List_0 =~= encoded_batch(record_views(records@))->List_0);
    }
    doc
}

/// The value of the first field named `key` among the fields from `start`
/// on, if there is one.
pub open spec fn field_from(fields: Seq<(Seq<char>, JsonView)>, key: Seq<char>, start: int) -> Option<
    JsonView,
>
    decreases fields.len() - start,
{
    if start < 0 || start >= fields.len() {
        None
    } else if fields[start].0 == key {
        Some(fields[start].1)
    } else {
        field_from(fields, key, start + 1)
    }
}

/// The value of the first field named `key`, if there is one.
pub open spec fn field(fields: Seq<(Seq<char>, JsonView)>, key: Seq<char>) -> Option<JsonView> {
    field_from(fields, key, 0)
}

/// The text of a document that is a text.
pub open spec fn text_of(doc: Option<JsonView>) -> Option<Seq<char>> {
    match doc {
        Some(JsonView::Text(s)) => Some(s),
        _ => None,
    }
}

/// The kind that a text stands for. Both variadic kinds are read under two
/// spellings; [`kind_label`] gives the one that is written.
pub open spec fn decoded_kind(label: Seq<char>) -> Option<ArgumentKind> {
    if label == "Positional"@ {
        Some(ArgumentKind::Positional)
    } else if label == "StarArgs"@ || label == "VariadicPositional"@ {
        Some(ArgumentKind::VariadicPositional)
    } else if label == "KeywordOnly"@ {
        Some(ArgumentKind::KeywordOnly)
    } else if label == "StarKwargs"@ || label == "VariadicKeyword"@ {
        Some(ArgumentKind::VariadicKeyword)
    } else {
        None
    }
}

/// The argument that a document stands for: a record whose fields `name`,
/// `type` and `kind` are texts, the last one the label of a kind.
pub open spec fn decoded_argument(doc: JsonView) -> Option<ArgumentView> {
    match doc {
        JsonView::Record(fields) => {
            let name = text_of(field(fields, "name"@));
            let typ = text_of(field(fields, "type"@));
            let kind = match text_of(field(fields, "kind"@)) {
                Some(label) => decoded_kind(label),
                None => None,
            };
            if name is Some && typ is Some && kind is Some {
                Some(ArgumentView { name: name->Some_0, typ: typ->Some_0, kind: kind->Some_0 })
            } else {
                None
            }
        },
        _ => None,
    }
}

/// The arguments that a list of documents stands for, where each of them
/// stands for one.
pub open spec fn decoded_arguments(docs: Seq<JsonView>) -> Option<Seq<ArgumentView>> {
    if forall|i: int| 0 <= i < docs.len() ==> (#[trigger] decoded_argument(docs[i])) is Some {
        Some(Seq::new(docs.len(), |i: int| decoded_argument(docs[i])->Some_0))
    } else {
        None
    }
}

/// The arguments that a document stands for: a list of argument documents.
pub open spec fn decoded_argument_list(doc: Option<JsonView>) -> Option<Seq<ArgumentView>> {
    match doc {
        Some(JsonView::List(items)) => decoded_arguments(items),
        _ => None,
    }
}

/// The record that a document stands for: a record whose fields `name`,
/// `filename` and `returns` are texts and whose field `args` is a list of
/// argument documents, and which is well formed.
pub open spec fn decoded_record(doc: JsonView) -> Option<TraceRecordView> {
    match doc {
        JsonView::Record(fields) => {
            let name = text_of(field(fields, "name"@));
            let filename = text_of(field(fields, "filename"@));
            let args = decoded_argument_list(field(fields, "args"@));
            let returned = text_of(field(fields, "returns"@));
            if name is Some && filename is Some && args is Some && returned is Some {
                let record = TraceRecordView {
                    name: name->Some_0,
                    filename: filename->Some_0,
                    args: args->Some_0,
                    returns: returned->Some_0,
                };
                if record_well_formed(record) {
                    Some(record)
                } else {
                    None
                }
            } else {
                None
            }
        },
        _ => None,
    }
}

/// The records that a list of documents stands for, where each of them
/// stands for one.
pub open spec fn decoded_records(docs: Seq<JsonView>) -> Option<Seq<TraceRecordView>> {
    if forall|i: int| 0 <= i < docs.len() ==> (#[trigger] decoded_record(docs[i])) is Some {
        Some(Seq::new(docs.len(), |i: int| decoded_record(docs[i])->Some_0))
    } else {
        None
    }
}

/// The batch that a document stands for: a list of record documents.
pub open spec fn decoded_batch(doc: JsonView) -> Option<Seq<TraceRecordView>> {
    match doc {
        JsonView::List(items) => decoded_records(items),
        _ => None,
    }
}

/// The kind that a text stands for.
pub fn decode_kind(label: &str) -> (r: Option<ArgumentKind>)
    ensures
        r == decoded_kind(label@),
{
    if equals(label, "Positional") {
        Some(ArgumentKind::Positional)
    } else if equals(label, "StarArgs") || equals(label, "VariadicPositional") {
        Some(ArgumentKind::VariadicPositional)
    } else if equals(label, "KeywordOnly") {
        Some(ArgumentKind::KeywordOnly)
    } else if equals(label, "StarKwargs") || equals(label, "VariadicKeyword") {
        Some(ArgumentKind::VariadicKeyword)
    } else {
        None
    }
}

/// The value of the first field named `key`, if there is one.
fn find_field<'a>(fields: &'a Vec<(String, Json)>, key: &str) -> (r: Option<&'a Json>)
    ensures
        match field(field_views(fields@), key@) {
            Some(value) => r is Some && r->Some_0@ == value,
            None => r is None,
        },
{
    let ghost views = field_views(fields@);
    let mut i: usize = 0;
    while i < fields.len()
        invariant
            i <= fields.len(),
            views == field_views(fields@),
            field(views, key@) == field_from(views, key@, i as int),
        decreases fields.len() - i,
    {
        if equals(fields[i].0.as_str(), key) {
            return Some(&fields[i].1);
        }
        i = i + 1;
    }
    None
}

/// The text of the first field named `key`, if that field is a text.
fn find_text<'a>(fields: &'a Vec<(String, Json)>, key: &str) -> (r: Option<&'a String>)
    ensures
        match text_of(field(field_views(fields@), key@)) {
            Some(text) => r is Some && r->Some_0@ == text,
            None => r is None,
        },
{
    match find_field(fields, key) {
        Some(Json::Text(text)) => Some(text),
        _ => None,
    }
}

/// The argument that a document stands for.
pub fn decode_argument(doc: &Json) -> (r: Option<Argument>)
    ensures
        match decoded_argument(doc@) {
            Some(argument) => r is Some && r->Some_0@ == argument,
            None => r is None,
        },
{
    match doc {
        Json::Record(fields) => {
            proof {
                lemma_record_view(*fields);
            }
            let name = find_text(fields, "name");
            let typ = find_text(fields, "type");
            let label = find_text(fields, "kind");
            match (name, typ, label) {
                (Some(name), Some(typ), Some(label)) => {
                    match decode_kind(label.as_str()) {
                        Some(kind) => Some(Argument { name: name.clone(), typ: typ.clone(), kind }),
                        None => None,
                    }
                },
                _ => None,
            }
        },
        _ => None,
    }
}

/// The arguments that a list of documents stands for.
fn decode_arguments(items: &Vec<Json>) -> (r: Option<Vec<Argument>>)
    ensures
        match decoded_arguments(item_views(items@)) {
            Some(args) => r is Some && argument_views(r->Some_0@) == args,
            None => r is None,
        },
{
    let ghost docs = item_views(items@);
    let mut args: Vec<Argument> = Vec::new();
    let mut i: usize = 0;
    while i < items.len()
        invariant
            i <= items.len(),
            docs == item_views(items@),
            args.len() == i,
            forall|k: int|
                0 <= k < i ==> (#[trigger] decoded_argument(docs[k])) == Some(args@[k]@),
        decreases items.len() - i,
    {
        match decode_argument(&items[i]) {
            Some(argument) => {
                args.push(argument);
            },
            None => {
                assert(decoded_argument(docs[i as int]) is None);
                return None;
            },
        }
        i = i + 1;
    }
    Some(args)
}

/// The record that a document stands for.
pub fn decode_record(doc: &Json) -> (r: Option<TraceRecord>)
    ensures
        match decoded_record(doc@) {
            Some(record) => r is Some && r->Some_0@ == record,
            None => r is None,
        },
{
    match doc {
        Json::Record(fields) => {
            proof {
                lemma_record_view(*fields);
            }
            let name = find_text(fields, "name");
            let filename = find_text(fields, "filename");
            let returned = find_text(fields, "returns");
            let args = match find_field(fields, "args") {
                Some(Json::List(items)) => {
                    proof {
                        lemma_list_view(*items);
                    }
                    decode_arguments(items)
                },
                _ => None,
            };
            match (name, filename, args, returned) {
                (Some(name), Some(filename), Some(args), Some(returned)) => TraceRecord::from_parts(
                    name.clone(),
                    filename.clone(),
                    args,
                    returned.clone(),
                ),
                _ => None,
            }
        },
        _ => None,
    }
}

/// The batch of records that a document stands for. A document that is not
/// a list of record documents is malformed.
pub fn decode_batch(doc: &Json) -> (r: Result<Vec<TraceRecord>, TraceError>)
    ensures
        match decoded_batch(doc@) {
            Some(records) => r is Ok && record_views(r->Ok_0@) == records,
            None => r == Err::<Vec<TraceRecord>, TraceError>(TraceError::Malformed),
        },
{
    match doc {
        Json::List(items) => {
            proof {
                lemma_list_view(*items);
            }
            let ghost docs = item_views(items@);
            let mut records: Vec<TraceRecord> = Vec::new();
            let mut i: usize = 0;
            while i < items.len()
                invariant
                    i <= items.len(),
                    docs == item_views(items@),
                    doc@ == JsonView::List(docs),
                    records.len() == i,
                    forall|k: int|
                        0 <= k < i ==> (#[trigger] decoded_record(docs[k])) == Some(records@[k]@),
                decreases items.len() - i,
            {
                match decode_record(&items[i]) {
                    Some(record) => {
                        records.push(record);
                    },
                    None => {
                        assert(decoded_record(docs[i as int]) is None);
                        return Err(TraceError::Malformed);
                    },
                }
                i = i + 1;
            }
            Ok(records)
        },
        _ => Err(TraceError::Malformed),
    }
}

/// The batch that a JSON text holds: what [`decode_batch`] gives for the
/// document that the text is read as.
pub open spec fn loaded_batch(text: Seq<char>) -> Result<Seq<TraceRecordView>, TraceError> {
    match json_parse(text) {
        None => Err(TraceError::Syntax),
        Some(doc) => match decoded_batch(doc) {
            None => Err(TraceError::Malformed),
            Some(records) => Ok(records),
        },
    }
}

/// Read a batch of records from its JSON text.
pub fn load_batch(text: &str) -> (r: Result<Vec<TraceRecord>, TraceError>)
    ensures
        match loaded_batch(text@) {
            Ok(records) => r is Ok && record_views(r->Ok_0@) == records,
            Err(e) => r == Err::<Vec<TraceRecord>, TraceError>(e),
        },
{
    match Json::parse(text) {
        Ok(doc) => decode_batch(&doc),
        Err(e) => Err(e),
    }
}

/// The label that is written for a kind is read as that kind.
pub proof fn lemma_kind_round_trip(kind: ArgumentKind)
    ensures
        decoded_kind(kind_label(kind)) == Some(kind),
{
    reveal_strlit("Positional");
    reveal_strlit("StarArgs");
    reveal_strlit("VariadicPositional");
    reveal_strlit("KeywordOnly");
    reveal_strlit("StarKwargs");
    reveal_strlit("VariadicKeyword");
    // The six labels differ in length, but for two of length ten, which
    // differ in their first character.
    assert("Positional"@.len() == 10 && "Positional"@[0] == 'P');
    assert("StarArgs"@.len() == 8);
    assert("VariadicPositional"@.len() == 18);
    assert("KeywordOnly"@.len() == 11);
    assert("StarKwargs"@.len() == 10 && "StarKwargs"@[0] == 'S');
}

/// The document that is written for an argument is read as that argument.
pub proof fn lemma_argument_round_trip(argument: ArgumentView)
    ensures
        decoded_argument(encoded_argument(argument)) == Some(argument),
{
    reveal_strlit("name");
    reveal_strlit("type");
    reveal_strlit("kind");
    reveal_with_fuel(field_from, 4);
    lemma_kind_round_trip(argument.kind);
    let fields = encoded_argument(argument)->Record_0;
    // The three keys differ in their first character, so each is found at
    // its own place.
    assert("name"@[0] != "type"@[0]);
    assert("name"@[0] != "kind"@[0]);
    assert("type"@[0] != "kind"@[0]);
    assert(field(fields, "name"@) == Some(JsonView::Text(argument.name)));
    assert(field(fields, "type"@) == Some(JsonView::Text(argument.typ)));
    assert(field(fields, "kind"@) == Some(JsonView::Text(kind_label(argument.kind))));
}

/// The documents that are written for a list of arguments are read as that
/// list.
pub proof fn lemma_arguments_round_trip(args: Seq<ArgumentView>)
    ensures
        decoded_arguments(encoded_arguments(args)) == Some(args),
{
    let docs = encoded_arguments(args);
    assert forall|i: int| 0 <= i < docs.len() implies (#[trigger] decoded_argument(docs[i]))
        == Some(args[i]) by {
        lemma_argument_round_trip(args[i]);
    }
}

/// Writing a record as a document and reading the document back gives the
/// record, field for field.
pub proof fn lemma_record_round_trip(record: TraceRecordView)
    requires
        record_well_formed(record),
    ensures
        decoded_record(encoded_record(record)) == Some(record),
{
    reveal_strlit("name");
    reveal_strlit("filename");
    reveal_strlit("args");
    reveal_strlit("returns");
    reveal_with_fuel(field_from, 5);
    lemma_arguments_round_trip(record.args);
    let fields = encoded_record(record)->Record_0;
    // The four keys differ in their first character, so each is found at
    // its own place.
    assert("name"@[0] != "filename"@[0]);
    assert("name"@[0] != "args"@[0]);
    assert("name"@[0] != "returns"@[0]);
    assert("filename"@[0] != "args"@[0]);
    assert("filename"@[0] != "returns"@[0]);
    assert("args"@[0] != "returns"@[0]);
    assert(field(fields, "name"@) == Some(JsonView::Text(record.name)));
    assert(field(fields, "filename"@) == Some(JsonView::Text(record.filename)));
    assert(field(fields, "args"@) == Some(JsonView::List(encoded_arguments(record.args))));
    assert(field(fields, "returns"@) == Some(JsonView::Text(record.returns)));
}

/// Writing a batch of records as a document and reading the document back
/// gives the same records, in the same order.
pub proof fn lemma_batch_round_trip(records: Seq<TraceRecordView>)
    requires
        forall|i: int| 0 <= i < records.len() ==> record_well_formed(#[trigger] records[i]),
    ensures
        decoded_batch(encoded_batch(records)) == Some(records),
{
    let docs = encoded_batch(records)->List_0;
    assert forall|i: int| 0 <= i < docs.len() implies (#[trigger] decoded_record(docs[i]))
        == Some(records[i]) by {
        lemma_record_round_trip(records[i]);
    }
}

} // verus!
