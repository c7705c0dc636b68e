//! Stored documents: what the library builds for the store and reads from it.
//!
//! A document is a `bson::Document`. Verified code sees it through
//! [`doc_fields`], the map from each key to what its value holds.

use bson::document::ValueAccessError;
use bson::oid::ObjectId;
use bson::Document;
use vstd::prelude::*;

verus! {

/// `bson::Document`, an ordered map from string keys to BSON values. What
/// it holds is known through [`doc_fields`] alone.
#[verifier::external_type_specification]
#[verifier::external_body]
pub struct ExDocument(Document);

/// What the value under one key of a document holds. Values of kinds that the
/// library never writes or reads are all `Other`.
pub enum Field {
    /// A UTF-8 string.
    Text(Seq<char>),
    /// A boolean.
    Flag(bool),
    /// An object identifier, by its twelve bytes.
    Id(Seq<u8>),
    /// An embedded document.
    Nested(Map<Seq<char>, Field>),
    /// A value of any other kind.
    Other,
}

/// The fields of a document.
pub type Fields = Map<Seq<char>, Field>;

/// Why a lookup in a document gave no value.
#[derive(Clone, Copy, Debug, PartialEq, Eq, Structural)]
pub enum Absence {
    /// The document has no value under the key.
    Missing,
    /// The value under the key is of another kind than the one asked for.
    Mistyped,
}

/// The fields of `doc`: each key of the document with what its value holds.
/// The order of the keys is left aside.
pub uninterp spec fn doc_fields(doc: Document) -> Map<Seq<char>, Field>;

/// The fields of a document without keys.
pub open spec fn no_fields() -> Fields {
    Map::empty()
}

/// The string under `key`.
pub open spec fn text_at(fields: Fields, key: Seq<char>) -> Result<Seq<char>, Absence> {
    if !fields.contains_key(key) {
        Err(Absence::Missing)
    } else {
        match fields[key] {
            Field::Text(text) => Ok(text),
            _ => Err(Absence::Mistyped),
        }
    }
}

/// The boolean under `key`.
pub open spec fn flag_at(fields: Fields, key: Seq<char>) -> Result<bool, Absence> {
    if !fields.contains_key(key) {
        Err(Absence::Missing)
    } else {
        match fields[key] {
            Field::Flag(flag) => Ok(flag),
            _ => Err(Absence::Mistyped),
        }
    }
}

/// The object identifier under `key`.
pub open spec fn id_at(fields: Fields, key: Seq<char>) -> Result<Seq<u8>, Absence> {
    if !fields.contains_key(key) {
        Err(Absence::Missing)
    } else {
        match fields[key] {
            Field::Id(id) => Ok(id),
            _ => Err(Absence::Mistyped),
        }
    }
}

/// The view of a looked-up string.
pub open spec fn found_text(found: Result<String, Absence>) -> Result<Seq<char>, Absence> {
    match found {
        Ok(text) => Ok(text@),
        Err(absence) => Err(absence),
    }
}

/// The view of a looked-up object identifier.
pub open spec fn found_id(found: Result<[u8; 12], Absence>) -> Result<Seq<u8>, Absence> {
    match found {
        Ok(id) => Ok(id@),
        Err(absence) => Err(absence),
    }
}

/// `bson::Document::new`: a document without keys.
#[verifier::external_body]
pub(crate) fn empty_document() -> (fresh: Document)
    ensures
        doc_fields(fresh) == no_fields(),
{
    Document::new()
}

/// `bson::Document::insert` with a string value: the key holds that string
/// afterwards, whatever it held before, and no other key changes.
#[verifier::external_body]
pub(crate) fn put_text(doc: &mut Document, key: &str, value: &str)
    ensures
        doc_fields(*final(doc)) == doc_fields(*old(doc)).insert(key@, Field::Text(value@)),
{
    doc.insert(key, value);
}

/// `bson::Document::insert` with a boolean value: the key holds that boolean
/// afterwards and no other key changes.
#[verifier::external_body]
pub(crate) fn put_flag(doc: &mut Document, key: &str, value: bool)
    ensures
        doc_fields(*final(doc)) == doc_fields(*old(doc)).insert(key@, Field::Flag(value)),
{
    doc.insert(key, value);
}

/// `bson::Document::insert` with the object identifier that
/// `bson::oid::ObjectId::from_bytes` makes of the twelve bytes: the key holds
/// that identifier afterwards and no other key changes.
#[verifier::external_body]
pub(crate) fn put_id(doc: &mut Document, key: &str, id: [u8; 12])
    ensures
        doc_fields(*final(doc)) == doc_fields(*old(doc)).insert(key@, Field::Id(id@)),
{
    doc.insert(key, ObjectId::from_bytes(id));
}

/// `bson::Document::insert` with a document as the value: the key holds that
/// document afterwards and no other key changes.
#[verifier::external_body]
pub(crate) fn put_document(doc: &mut Document, key: &str, inner: Document)
    ensures
        doc_fields(*final(doc)) == doc_fields(*old(doc)).insert(
            key@,
            Field::Nested(doc_fields(inner)),
        ),
{
    doc.insert(key, inner);
}

/// `bson::Document::get_str`: the string under the key, `Missing` where the
/// document has no such key, `Mistyped` where the value is no string.
#[verifier::external_body]
pub(crate) fn get_text(doc: &Document, key: &str) -> (found: Result<String, Absence>)
    ensures
        found_text(found) == text_at(doc_fields(*doc), key@),
{
    match doc.get_str(key) {
        Ok(text) => Ok(text.to_string()),
        Err(ValueAccessError::NotPresent) => Err(Absence::Missing),
        Err(_) => Err(Absence::Mistyped),
    }
}

/// `bson::Document::get_bool`: the boolean under the key, `Missing` where the
/// document has no such key, `Mistyped` where the value is no boolean.
#[verifier::external_body]
pub(crate) fn get_flag(doc: &Document, key: &str) -> (found: Result<bool, Absence>)
    ensures
        found == flag_at(doc_fields(*doc), key@),
{
    match doc.get_bool(key) {
        Ok(flag) => Ok(flag),
        Err(ValueAccessError::NotPresent) => Err(Absence::Missing),
        Err(_) => Err(Absence::Mistyped),
    }
}

/// `bson::Document::get_object_id`, the identifier given by its bytes
/// (`bson::oid::ObjectId::bytes`): `Missing` where the document has no such
/// key, `Mistyped` where the value is no object identifier.
#[verifier::external_body]
pub(crate) fn get_id(doc: &Document, key: &str) -> (found: Result<[u8; 12], Absence>)
    ensures
        found_id(found) == id_at(doc_fields(*doc), key@),
{
    match doc.get_object_id(key) {
        Ok(id) => Ok(id.bytes()),
        Err(ValueAccessError::NotPresent) => Err(Absence::Missing),
        Err(_) => Err(Absence::Mistyped),
    }
}

} // verus!
