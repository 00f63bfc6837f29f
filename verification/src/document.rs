//! The documents of the store, and what the catalogue writes into them and
//! reads from them.
//!
//! A document is the store's own type. Its contents are known here only
//! through [`document_fields`], and through what the functions of this
//! module say of it: these say what the store's library does, and are not
//! proved.

use crate::errors::AccessFault;
use mongodb::bson::document::ValueAccessError;
use mongodb::bson::oid::ObjectId;
use mongodb::bson::Bson;
use mongodb::bson::Document;
use vstd::prelude::*;

verus! {

/// `bson::Document`, the store's document: a map from field names to
/// values that keeps the order of insertion. Nothing is known of what is
/// inside but through the functions below.
#[verifier::external_type_specification]
#[verifier::external_body]
pub struct ExDocument(Document);

/// What a field or an item of an array holds, as far as the catalogue looks
/// at it.
pub enum Element {
    /// An identifier, with its twelve bytes.
    ObjectId(Seq<u8>),
    /// A text.
    Text(Seq<char>),
    /// A 32-bit integer.
    Int32(int),
    /// An array, with its items in order.
    Array(Seq<Element>),
    /// A document, with its fields.
    Document(Map<Seq<char>, Element>),
    /// A value of any other type.
    Other,
}

/// The fields of a document: each name with what the field holds.
pub type Fields = Map<Seq<char>, Element>;

/// The fields of `document`: for each name that it has a value under, what
/// that value holds.
pub uninterp spec fn document_fields(document: Document) -> Fields;

/// What reading a field gives: its value, or why there is none.
pub type Read<T> = Result<T, AccessFault>;

/// The identifier under `key`, or why there is none.
pub open spec fn object_id_at(fields: Fields, key: Seq<char>) -> Read<Seq<u8>> {
    if !fields.contains_key(key) {
        Err(AccessFault::NotPresent)
    } else {
        match fields[key] {
            Element::ObjectId(bytes) => Ok(bytes),
            _ => Err(AccessFault::UnexpectedType),
        }
    }
}

/// The text under `key`, or why there is none.
pub open spec fn text_at(fields: Fields, key: Seq<char>) -> Read<Seq<char>> {
    if !fields.contains_key(key) {
        Err(AccessFault::NotPresent)
    } else {
        match fields[key] {
            Element::Text(text) => Ok(text),
            _ => Err(AccessFault::UnexpectedType),
        }
    }
}

/// The 32-bit integer under `key`, or why there is none.
pub open spec fn int32_at(fields: Fields, key: Seq<char>) -> Read<int> {
    if !fields.contains_key(key) {
        Err(AccessFault::NotPresent)
    } else {
        match fields[key] {
            Element::Int32(n) => Ok(n),
            _ => Err(AccessFault::UnexpectedType),
        }
    }
}

/// The text that `element` holds, if it holds one.
pub open spec fn element_text(element: Element) -> Option<Seq<char>> {
    match element {
        Element::Text(text) => Some(text),
        _ => None,
    }
}

/// For each item its text, if it holds one.
pub open spec fn item_texts(items: Seq<Element>) -> Seq<Option<Seq<char>>> {
    items.map_values(|item: Element| element_text(item))
}

/// The items of the array under `key`, each as its text, if it holds one;
/// or why there is no array.
pub open spec fn array_at(fields: Fields, key: Seq<char>) -> Read<Seq<Option<Seq<char>>>> {
    if !fields.contains_key(key) {
        Err(AccessFault::NotPresent)
    } else {
        match fields[key] {
            Element::Array(items) => Ok(item_texts(items)),
            _ => Err(AccessFault::UnexpectedType),
        }
    }
}

/// The texts as elements of an array.
pub open spec fn text_elements(texts: Seq<Seq<char>>) -> Seq<Element> {
    texts.map_values(|text: Seq<char>| Element::Text(text))
}

/// Each text as a sequence of characters.
pub open spec fn text_views(texts: Seq<String>) -> Seq<Seq<char>> {
    texts.map_values(|text: String| text@)
}

/// Each text that is there as a sequence of characters.
pub open spec fn optional_text_views(texts: Seq<Option<String>>) -> Seq<Option<Seq<char>>> {
    texts.map_values(
        |text: Option<String>|
            match text {
                Some(text) => Some(text@),
                None => None,
            },
    )
}

/// `Document::new`: a document without fields.
#[verifier::external_body]
pub(crate) fn empty_document() -> (document: Document)
    ensures
        document_fields(document) == Fields::empty(),
{
    Document::new()
}

/// `Document::insert` with a text: the field `key` then holds that text, and
/// the other fields are as before.
#[verifier::external_body]
pub(crate) fn insert_text(document: &mut Document, key: &str, value: &str)
    ensures
        document_fields(*final(document)) == document_fields(*old(document)).insert(
            key@,
            Element::Text(value@),
        ),
{
    document.insert(key, value);
}

/// `Document::insert` with a 32-bit integer: the field `key` then holds that
/// integer, and the other fields are as before.
#[verifier::external_body]
pub(crate) fn insert_int32(document: &mut Document, key: &str, value: i32)
    ensures
        document_fields(*final(document)) == document_fields(*old(document)).insert(
            key@,
            Element::Int32(value as int),
        ),
{
    document.insert(key, value);
}

/// `Document::insert` with a list of texts: the field `key` then holds an
/// array of those texts in their order, and the other fields are as before.
#[verifier::external_body]
pub(crate) fn insert_texts(document: &mut Document, key: &str, values: &Vec<String>)
    ensures
        document_fields(*final(document)) == document_fields(*old(document)).insert(
            key@,
            Element::Array(text_elements(text_views(values@))),
        ),
{
    document.insert(key, values.clone());
}

/// `Document::insert` with an identifier, given by its bytes: the field `key`
/// then holds that identifier, and the other fields are as before.
#[verifier::external_body]
pub(crate) fn insert_object_id(document: &mut Document, key: &str, bytes: &[u8; 12])
    ensures
        document_fields(*final(document)) == document_fields(*old(document)).insert(
            key@,
            Element::ObjectId(bytes@),
        ),
{
    document.insert(key, ObjectId::from_bytes(*bytes));
}

/// `Document::insert` with a document: the field `key` then holds a document
/// with the fields of `value`, and the other fields are as before.
#[verifier::external_body]
pub(crate) fn insert_document(document: &mut Document, key: &str, value: Document)
    ensures
        document_fields(*final(document)) == document_fields(*old(document)).insert(
            key@,
            Element::Document(document_fields(value)),
        ),
{
    document.insert(key, value);
}

/// `Document::get_object_id`, with the identifier as its bytes: the
/// identifier of the field `key`; a fault where the document has no such
/// field, or has it with another type.
#[verifier::external_body]
pub(crate) fn get_object_id(document: &Document, key: &str) -> (fetched: Read<[u8; 12]>)
    ensures
        match fetched {
            Ok(bytes) => object_id_at(document_fields(*document), key@) == Read::Ok(bytes@),
            Err(fault) => object_id_at(document_fields(*document), key@) == Read::<Seq<u8>>::Err(fault),
        },
{
    match document.get_object_id(key) {
        Ok(id) => Ok(id.bytes()),
        Err(ValueAccessError::NotPresent) => Err(AccessFault::NotPresent),
        Err(_) => Err(AccessFault::UnexpectedType),
    }
}

/// `Document::get_str`: the text of the field `key`; a fault where the
/// document has no such field, or has it with another type.
#[verifier::external_body]
pub(crate) fn get_text(document: &Document, key: &str) -> (fetched: Read<String>)
    ensures
        match fetched {
            Ok(text) => text_at(document_fields(*document), key@) == Read::Ok(text@),
            Err(fault) => text_at(document_fields(*document), key@) == Read::<Seq<char>>::Err(fault),
        },
{
    match document.get_str(key) {
        Ok(text) => Ok(text.to_owned()),
        Err(ValueAccessError::NotPresent) => Err(AccessFault::NotPresent),
        Err(_) => Err(AccessFault::UnexpectedType),
    }
}

/// `Document::get_i32`: the integer of the field `key`; a fault where the
/// document has no such field, or has it with another type.
#[verifier::external_body]
pub(crate) fn get_int32(document: &Document, key: &str) -> (fetched: Read<i32>)
    ensures
        match fetched {
            Ok(n) => int32_at(document_fields(*document), key@) == Read::Ok(n as int),
            Err(fault) => int32_at(document_fields(*document), key@) == Read::<int>::Err(fault),
        },
{
    match document.get_i32(key) {
        Ok(n) => Ok(n),
        Err(ValueAccessError::NotPresent) => Err(AccessFault::NotPresent),
        Err(_) => Err(AccessFault::UnexpectedType),
    }
}

/// `Document::get_array`, with each item as its text, if it holds one: the
/// items of the array of the field `key`, in order; a fault where the
/// document has no such field, or has it with another type.
#[verifier::external_body]
pub(crate) fn get_array(document: &Document, key: &str) -> (fetched: Read<Vec<Option<String>>>)
    ensures
        match fetched {
            Ok(items) => array_at(document_fields(*document), key@) == Read::Ok(
                optional_text_views(items@),
            ),
            Err(fault) => array_at(document_fields(*document), key@) == Read::<
                Seq<Option<Seq<char>>>,
            >::Err(fault),
        },
{
    match document.get_array(key) {
        Ok(items) => Ok(items.iter().map(|item| match item {
            Bson::String(text) => Some(text.clone()),
            _ => None,
        }).collect()),
        Err(ValueAccessError::NotPresent) => Err(AccessFault::NotPresent),
        Err(_) => Err(AccessFault::UnexpectedType),
    }
}

} // verus!
