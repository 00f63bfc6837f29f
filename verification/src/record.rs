//! How a book is laid out in a stored document.

use crate::document::array_at;
use crate::document::int32_at;
use crate::document::item_texts;
use crate::document::object_id_at;
use crate::document::text_at;
use crate::document::text_elements;
use crate::document::Element;
use crate::document::Fields;
use crate::errors::AccessFault;
use crate::handlers::BookView;
use crate::object_id::is_lower_case_object_id_text;
use crate::object_id::is_object_id_text;
use crate::object_id::lemma_object_id_text_is_lower_case;
use crate::object_id::lemma_object_id_text_reads_back;
use crate::object_id::lower_hex;
use crate::object_id::object_id_bytes;
use crate::object_id::object_id_text;
use crate::pages::lemma_number_text_reads_back;
use crate::pages::number_text;
use crate::pages::page_count;
use vstd::prelude::*;

verus! {

/// The name of the field that holds a record's identifier.
pub open spec fn id_key() -> Seq<char> {
    "_id"@
}

/// The name of the field that holds a book's name.
pub open spec fn name_key() -> Seq<char> {
    "NAME"@
}

/// The name of the field that holds a book's author.
pub open spec fn author_key() -> Seq<char> {
    "AUTHOR"@
}

/// The name of the field that holds a book's page count.
pub open spec fn pages_key() -> Seq<char> {
    "NUMBER_PAGES"@
}

/// The name of the field that holds a book's tags.
pub open spec fn tags_key() -> Seq<char> {
    "TAGS"@
}

/// The name of the field that holds the fields to set.
pub open spec fn set_key() -> Seq<char> {
    "$set"@
}

/// The texts of `items` in their order, where every item is a text.
pub open spec fn all_texts(items: Seq<Option<Seq<char>>>) -> Option<Seq<Seq<char>>> {
    if forall|i: int| 0 <= i < items.len() ==> (#[trigger] items[i]) is Some {
        Some(items.map_values(|item: Option<Seq<char>>| item->0))
    } else {
        None
    }
}

/// The book that a stored document holds, or the fault of the first field,
/// in the order identifier, name, author, page count, tags, that the
/// document lacks or holds with another type. The tags are of another type
/// where they are no array, and also where an item of the array is no text:
/// a book has every item of the array as a tag, in the array's order.
pub open spec fn stored_book(fields: Fields) -> Result<BookView, AccessFault> {
    match object_id_at(fields, id_key()) {
        Err(fault) => Err(fault),
        Ok(id) => match text_at(fields, name_key()) {
            Err(fault) => Err(fault),
            Ok(name) => match text_at(fields, author_key()) {
                Err(fault) => Err(fault),
                Ok(author) => match int32_at(fields, pages_key()) {
                    Err(fault) => Err(fault),
                    Ok(pages) => match array_at(fields, tags_key()) {
                        Err(fault) => Err(fault),
                        Ok(items) => match all_texts(items) {
                            None => Err(AccessFault::UnexpectedType),
                            Some(tags) => Ok(
                                BookView {
                                    id: object_id_text(id),
                                    name,
                                    author,
                                    number_pages: number_text(pages),
                                    tags,
                                },
                            ),
                        },
                    },
                },
            },
        },
    }
}

/// The fields of the record that stands for a book in the store, but for
/// its identifier.
pub open spec fn book_record(
    name: Seq<char>,
    author: Seq<char>,
    pages: int,
    tags: Seq<Seq<char>>,
) -> Fields {
    Fields::empty().insert(name_key(), Element::Text(name)).insert(
        author_key(),
        Element::Text(author),
    ).insert(pages_key(), Element::Int32(pages)).insert(
        tags_key(),
        Element::Array(text_elements(tags)),
    )
}

/// The fields of the filter that selects the record with the given
/// identifier.
pub open spec fn id_filter(id: Seq<u8>) -> Fields {
    Fields::empty().insert(id_key(), Element::ObjectId(id))
}

/// The fields of the update that sets the fields of `record`.
pub open spec fn set_update(record: Fields) -> Fields {
    Fields::empty().insert(set_key(), Element::Document(record))
}

/// The book that a request for `book` with the page count `pages` leads to,
/// before it has an identifier: the page count as the text of its number.
pub open spec fn draft_book(book: BookView, pages: int) -> BookView {
    BookView {
        id: Seq::empty(),
        name: book.name,
        author: book.author,
        number_pages: number_text(pages),
        tags: book.tags,
    }
}

/// `draft` under the identifier with the given bytes.
pub open spec fn identified_book(draft: BookView, id: Seq<u8>) -> BookView {
    BookView {
        id: object_id_text(id),
        name: draft.name,
        author: draft.author,
        number_pages: draft.number_pages,
        tags: draft.tags,
    }
}

/// `stored` holds every field of `record` as `record` holds it, and the
/// identifier `id`.
pub open spec fn holds_record(stored: Fields, record: Fields, id: Seq<u8>) -> bool {
    &&& stored.contains_key(id_key())
    &&& stored[id_key()] == Element::ObjectId(id)
    &&& forall|key: Seq<char>| #[trigger]
        record.contains_key(key) ==> stored.contains_key(key) && stored[key] == record[key]
}

proof fn lemma_keys_differ()
    ensures
        name_key() != author_key(),
        name_key() != pages_key(),
        name_key() != tags_key(),
        author_key() != pages_key(),
        author_key() != tags_key(),
        pages_key() != tags_key(),
{
    reveal_strlit("NAME");
    reveal_strlit("AUTHOR");
    reveal_strlit("NUMBER_PAGES");
    reveal_strlit("TAGS");
    assert(author_key().len() == 6);
    assert(pages_key().len() == 12);
    assert(tags_key().len() == 4 && tags_key()[0] == 'T');
}

proof fn lemma_texts_read_back(tags: Seq<Seq<char>>)
    ensures
        all_texts(item_texts(text_elements(tags))) == Some(tags),
{
    let items = item_texts(text_elements(tags));
    assert forall|i: int| 0 <= i < items.len() implies (#[trigger] items[i]) == Some(tags[i]) by {}
    assert(items.map_values(|item: Option<Seq<char>>| item->0) =~= tags);
}

/// A stored document that holds the record of a book, and an identifier,
/// reads as that book under that identifier.
pub proof fn lemma_record_reads_back(stored: Fields, book: BookView, pages: int, id: Seq<u8>)
    requires
        holds_record(stored, book_record(book.name, book.author, pages, book.tags), id),
    ensures
        stored_book(stored) == Ok::<BookView, AccessFault>(
            identified_book(draft_book(book, pages), id),
        ),
{
    lemma_keys_differ();
    lemma_texts_read_back(book.tags);
    let record = book_record(book.name, book.author, pages, book.tags);
    assert(record.contains_key(name_key()));
    assert(record.contains_key(author_key()));
    assert(record.contains_key(pages_key()));
    assert(record.contains_key(tags_key()));
}

/// The record of a created book reads back as the created book.
///
/// Let a request to create `book` pass its check, with `pages` as its page
/// count, and let the store give the inserted record the identifier `id`.
/// Then any stored document that holds the inserted record under that
/// identifier reads as the created book. That book has the name, the
/// author and the tags of the request, its page count is the text of the
/// same number, and its identifier is well formed and in lower case.
pub proof fn lemma_created_book_reads_back(book: BookView, pages: int, id: Seq<u8>, stored: Fields)
    requires
        page_count(book.number_pages) == Some(pages),
        id.len() == 12,
        holds_record(stored, book_record(book.name, book.author, pages, book.tags), id),
    ensures
        stored_book(stored) matches Ok(found) && found == identified_book(
            draft_book(book, pages),
            id,
        ) && found.name == book.name && found.author == book.author && found.tags == book.tags
            && page_count(found.number_pages) == page_count(book.number_pages)
            && is_lower_case_object_id_text(found.id),
{
    lemma_record_reads_back(stored, book, pages, id);
    lemma_number_text_reads_back(pages);
    lemma_object_id_text_reads_back(id);
}

/// The record of a replaced book reads back as the book that replaced it.
///
/// Let a request to replace the book under `id` by `book` pass its checks,
/// with `pages` as its page count. Then any stored document that holds the
/// fields that the update sets, under that identifier, reads as the book
/// that the request results in: it has the name, the author and the tags
/// of the request, its page count is the text of the same number, and its
/// identifier is the one of the request in lower case.
pub proof fn lemma_updated_book_reads_back(id: Seq<char>, book: BookView, pages: int, stored: Fields)
    requires
        is_object_id_text(id),
        page_count(book.number_pages) == Some(pages),
        holds_record(
            stored,
            book_record(book.name, book.author, pages, book.tags),
            object_id_bytes(id),
        ),
    ensures
        stored_book(stored) matches Ok(found) && found == identified_book(
            draft_book(book, pages),
            object_id_bytes(id),
        ) && found.name == book.name && found.author == book.author && found.tags == book.tags
            && page_count(found.number_pages) == page_count(book.number_pages)
            && is_lower_case_object_id_text(found.id) && found.id == id.map_values(
            |c: char| lower_hex(c),
        ),
{
    lemma_record_reads_back(stored, book, pages, object_id_bytes(id));
    lemma_number_text_reads_back(pages);
    lemma_object_id_text_reads_back(object_id_bytes(id));
    lemma_object_id_text_is_lower_case(id);
}

} // verus!
