//! BSON documents as the repositories read and write them.
//!
//! A `Document` of the `bson` crate (re-exported by `mongodb`) is an ordered map
//! from field names to BSON values. The contracts of this library speak of it
//! through `document_fields`, the map from each field name to a model of the
//! value stored under it; `document_value`, the BSON value stored under a
//! name; and `document_order`, the field names in the order the document
//! holds them.
use vstd::prelude::*;

use mongodb::bson::{Bson, Document};
use mongodb::options::IndexOptions;
use mongodb::IndexModel;
use serde_json::Value;

verus! {

#[verifier::external_type_specification]
#[verifier::external_body]
pub struct ExDocument(mongodb::bson::Document);

#[verifier::external_type_specification]
#[verifier::external_body]
pub struct ExBson(mongodb::bson::Bson);

#[verifier::external_type_specification]
#[verifier::external_body]
pub struct ExJsonValue(serde_json::Value);

#[verifier::external_type_specification]
#[verifier::external_body]
pub struct ExIndexModel(mongodb::IndexModel);

#[verifier::external_type_specification]
#[verifier::external_body]
pub struct ExBsonSerError(mongodb::bson::ser::Error);

#[verifier::external_type_specification]
#[verifier::external_body]
pub struct ExBsonDeError(mongodb::bson::de::Error);

/// A model of one BSON value: the kinds that this library writes and reads
/// by type are told apart, every other kind of value is `OtherKind`.
pub enum FieldValue {
    Str(Seq<char>),
    Int32(i32),
    Int64(i64),
    Doc(Map<Seq<char>, FieldValue>),
    OtherKind,
}

/// The fields of a document: each field name mapped to the model of its value.
pub uninterp spec fn document_fields(d: Document) -> Map<Seq<char>, FieldValue>;

/// The BSON value stored under `key` in `d`, where there is one.
pub uninterp spec fn document_value(d: Document, key: Seq<char>) -> Option<Bson>;

/// The document stored under `key` in `d`, where a document is stored there.
pub uninterp spec fn nested_document(d: Document, key: Seq<char>) -> Option<Document>;

/// The field names of `d` in the order in which the document holds them.
pub uninterp spec fn document_order(d: Document) -> Seq<Seq<char>>;

/// The order of the field names after inserting under `key`: a new name goes
/// last, an existing one keeps its place.
pub open spec fn order_after_insert(order: Seq<Seq<char>>, key: Seq<char>) -> Seq<Seq<char>> {
    if order.contains(key) {
        order
    } else {
        order.push(key)
    }
}

/// Inserting a name that the document does not hold yet puts it last.
pub proof fn lemma_new_name_goes_last(order: Seq<Seq<char>>, key: Seq<char>)
    requires
        forall|i: int| 0 <= i < order.len() ==> order[i] != key,
    ensures
        order_after_insert(order, key) == order.push(key),
{
    assert(!order.contains(key));
}

/// What `bson::to_bson` gives for the JSON value `value`, where it succeeds.
pub uninterp spec fn bson_of_json(value: Value) -> Bson;

/// What `bson::from_bson` gives as a JSON value for `value`, where it succeeds.
pub uninterp spec fn json_of_bson(value: Bson) -> Value;

/// The index model of the `mongodb` crate with the key document `keys` and
/// the option `unique` set to `unique`, as `IndexModel::builder` builds it.
pub uninterp spec fn index_model_of(keys: Document, unique: bool) -> IndexModel;

/// Whether `bson::to_bson` converts the JSON value `value`.
pub uninterp spec fn converts_to_bson(value: Value) -> bool;

/// Whether `bson::from_bson` converts the BSON value `value` to JSON.
pub uninterp spec fn converts_to_json(value: Bson) -> bool;

/// Whether the value stored under `key` in `document` is there and converts to JSON.
pub open spec fn stored_json_readable(document: Document, key: Seq<char>) -> bool {
    match document_value(document, key) {
        Some(value) => converts_to_json(value),
        None => false,
    }
}

/// The JSON value of what is stored under `key` in `document`, where that is readable.
pub open spec fn stored_json(document: Document, key: Seq<char>) -> Value {
    json_of_bson(document_value(document, key)->0)
}

/// Why a typed read of a field failed.
#[derive(Debug, Clone, Copy, PartialEq, Eq, Structural)]
pub enum FieldAccessError {
    /// No field has the name.
    NotPresent,
    /// The field holds a value of another type.
    UnexpectedType,
}

/// What a typed read of a field of type `Str` gives, as a model.
pub open spec fn spec_read_str(fields: Map<Seq<char>, FieldValue>, key: Seq<char>) -> Result<
    Seq<char>,
    FieldAccessError,
> {
    if fields.contains_key(key) {
        match fields[key] {
            FieldValue::Str(s) => Ok(s),
            _ => Err(FieldAccessError::UnexpectedType),
        }
    } else {
        Err(FieldAccessError::NotPresent)
    }
}

/// What a typed read of a field of type `Int64` gives, as a model.
pub open spec fn spec_read_i64(fields: Map<Seq<char>, FieldValue>, key: Seq<char>) -> Result<
    i64,
    FieldAccessError,
> {
    if fields.contains_key(key) {
        match fields[key] {
            FieldValue::Int64(v) => Ok(v),
            _ => Err(FieldAccessError::UnexpectedType),
        }
    } else {
        Err(FieldAccessError::NotPresent)
    }
}

/// `Document::new`: a document with no fields.
#[verifier::external_body]
pub(crate) fn new_document() -> (created: Document)
    ensures
        document_fields(created) =~= Map::empty(),
        document_order(created) == Seq::<Seq<char>>::empty(),
        forall|k: Seq<char>| #[trigger] document_value(created, k) is None,
        forall|k: Seq<char>| #[trigger] nested_document(created, k) is None,
{
    Document::new()
}

/// `Document::insert` with a string slice: the field `key` then holds the
/// string `value` (`Bson::String`), every other field is left as it was.
#[verifier::external_body]
pub(crate) fn insert_str(d: &mut Document, key: &str, value: &str)
    ensures
        document_fields(*final(d)) == document_fields(*old(d)).insert(key@, FieldValue::Str(value@)),
        document_order(*final(d)) == order_after_insert(document_order(*old(d)), key@),
        forall|k: Seq<char>|
            k != key@ ==> #[trigger] document_value(*final(d), k) == document_value(*old(d), k),
        forall|k: Seq<char>|
            k != key@ ==> #[trigger] nested_document(*final(d), k) == nested_document(*old(d), k),
        nested_document(*final(d), key@) is None,
{
    d.insert(key, value);
}

/// `Document::insert` with an `i64`: the field `key` then holds `Bson::Int64(value)`,
/// every other field is left as it was.
#[verifier::external_body]
pub(crate) fn insert_i64(d: &mut Document, key: &str, value: i64)
    ensures
        document_fields(*final(d)) == document_fields(*old(d)).insert(key@, FieldValue::Int64(value)),
        document_order(*final(d)) == order_after_insert(document_order(*old(d)), key@),
        forall|k: Seq<char>|
            k != key@ ==> #[trigger] document_value(*final(d), k) == document_value(*old(d), k),
        forall|k: Seq<char>|
            k != key@ ==> #[trigger] nested_document(*final(d), k) == nested_document(*old(d), k),
        nested_document(*final(d), key@) is None,
{
    d.insert(key, value);
}

/// `Document::insert` with an `i32`: the field `key` then holds `Bson::Int32(value)`,
/// every other field is left as it was.
#[verifier::external_body]
pub(crate) fn insert_i32(d: &mut Document, key: &str, value: i32)
    ensures
        document_fields(*final(d)) == document_fields(*old(d)).insert(key@, FieldValue::Int32(value)),
        document_order(*final(d)) == order_after_insert(document_order(*old(d)), key@),
        forall|k: Seq<char>|
            k != key@ ==> #[trigger] document_value(*final(d), k) == document_value(*old(d), k),
        forall|k: Seq<char>|
            k != key@ ==> #[trigger] nested_document(*final(d), k) == nested_document(*old(d), k),
        nested_document(*final(d), key@) is None,
{
    d.insert(key, value);
}

/// `Document::insert` with a document: the field `key` then holds
/// `Bson::Document(value)`, every other field is left as it was.
#[verifier::external_body]
pub(crate) fn insert_document(d: &mut Document, key: &str, value: Document)
    ensures
        document_fields(*final(d)) == document_fields(*old(d)).insert(
            key@,
            FieldValue::Doc(document_fields(value)),
        ),
        document_order(*final(d)) == order_after_insert(document_order(*old(d)), key@),
        forall|k: Seq<char>|
            k != key@ ==> #[trigger] document_value(*final(d), k) == document_value(*old(d), k),
        forall|k: Seq<char>|
            k != key@ ==> #[trigger] nested_document(*final(d), k) == nested_document(*old(d), k),
        nested_document(*final(d), key@) == Some(value),
{
    d.insert(key, value);
}

/// `Document::insert` with any BSON value: the field `key` then holds `value`,
/// every other field is left as it was. Which model (`FieldValue`) the value
/// has is not stated here.
#[verifier::external_body]
pub(crate) fn insert_bson(d: &mut Document, key: &str, value: Bson)
    ensures
        document_fields(*final(d)).dom() == document_fields(*old(d)).dom().insert(key@),
        document_fields(*final(d)).remove(key@) == document_fields(*old(d)).remove(key@),
        document_value(*final(d), key@) == Some(value),
        document_order(*final(d)) == order_after_insert(document_order(*old(d)), key@),
        forall|k: Seq<char>|
            k != key@ ==> #[trigger] document_value(*final(d), k) == document_value(*old(d), k),
        forall|k: Seq<char>|
            k != key@ ==> #[trigger] nested_document(*final(d), k) == nested_document(*old(d), k),
{
    d.insert(key, value);
}

/// `Document::get_str`: the string stored under `key`, or why there is none.
#[verifier::external_body]
pub(crate) fn get_str<'a>(d: &'a Document, key: &str) -> (r: Result<&'a str, FieldAccessError>)
    ensures
        match spec_read_str(document_fields(*d), key@) {
            Ok(s) => r matches Ok(v) && v@ == s,
            Err(e) => r == Err::<&str, FieldAccessError>(e),
        },
{
    match d.get_str(key) {
        Ok(v) => Ok(v),
        Err(mongodb::bson::document::ValueAccessError::NotPresent) => Err(
            FieldAccessError::NotPresent,
        ),
        Err(_) => Err(FieldAccessError::UnexpectedType),
    }
}

/// `Document::get_i64`: the `i64` stored under `key`, or why there is none.
#[verifier::external_body]
pub(crate) fn get_i64(d: &Document, key: &str) -> (r: Result<i64, FieldAccessError>)
    ensures
        r == spec_read_i64(document_fields(*d), key@),
{
    match d.get_i64(key) {
        Ok(v) => Ok(v),
        Err(mongodb::bson::document::ValueAccessError::NotPresent) => Err(
            FieldAccessError::NotPresent,
        ),
        Err(_) => Err(FieldAccessError::UnexpectedType),
    }
}

/// `Document::get`, cloned: the value stored under `key`, which is there
/// exactly when a field has that name.
#[verifier::external_body]
pub(crate) fn get_bson(d: &Document, key: &str) -> (r: Option<Bson>)
    ensures
        r == document_value(*d, key@),
        r is Some <==> document_fields(*d).contains_key(key@),
{
    d.get(key).cloned()
}

/// `bson::to_bson` on a JSON value: it succeeds exactly where the value
/// converts (it fails on unsigned numbers beyond `i64::MAX`), and then gives
/// `bson_of_json(value)`.
#[verifier::external_body]
pub(crate) fn json_to_bson(value: &Value) -> (r: Result<Bson, mongodb::bson::ser::Error>)
    ensures
        r is Ok <==> converts_to_bson(*value),
        r matches Ok(converted) ==> converted == bson_of_json(*value),
{
    mongodb::bson::to_bson(value)
}

/// `bson::from_bson` into a JSON value: it succeeds exactly where the value
/// converts, and then gives `json_of_bson(value)`.
#[verifier::external_body]
pub(crate) fn bson_to_json(value: Bson) -> (r: Result<Value, mongodb::bson::de::Error>)
    ensures
        r is Ok <==> converts_to_json(value),
        r matches Ok(converted) ==> converted == json_of_bson(value),
{
    mongodb::bson::from_bson(value)
}

/// `IndexModel::builder` with the key document `keys` and options whose only
/// setting is `unique`.
#[verifier::external_body]
pub(crate) fn index_model(keys: Document, unique: bool) -> (model: IndexModel)
    ensures
        model == index_model_of(keys, unique),
{
    IndexModel::builder().keys(keys).options(IndexOptions::builder().unique(unique).build()).build()
}

/// Reads the value stored under `key` as JSON: `None` exactly where there is
/// none or it does not convert.
pub fn read_stored_json(document: &Document, key: &str) -> (result: Option<Value>)
    ensures
        result is Some <==> stored_json_readable(*document, key@),
        result matches Some(value) ==> value == stored_json(*document, key@),
{
    match get_bson(document, key) {
        Some(value) => match bson_to_json(value) {
            Ok(converted) => Some(converted),
            Err(_) => None,
        },
        None => None,
    }
}

} // verus!
