//! The store adapter: what is asked of the document store for each
//! operation on books, and what the store's answer means.
//!
//! Nothing here talks to the store. An operation that changes the store is
//! split in two: the first half checks the request and says what to ask of
//! the store; the second half takes the store's answer and gives the
//! result. The caller asks the store in between.

use crate::document::document_fields;
use crate::document::empty_document;
use crate::document::get_array;
use crate::document::get_int32;
use crate::document::get_object_id;
use crate::document::get_text;
use crate::document::insert_document;
use crate::document::insert_int32;
use crate::document::insert_object_id;
use crate::document::insert_text;
use crate::document::insert_texts;
use crate::document::object_id_at;
use crate::document::optional_text_views;
use crate::document::text_views;
use crate::errors::AccessFault;
use crate::errors::ErrorView;
use crate::errors::MongoDbErrors;
use crate::handlers::Book;
use crate::handlers::BookView;
use crate::object_id::is_lower_case_object_id_text;
use crate::object_id::is_object_id_text;
use crate::object_id::lemma_object_id_text_reads_back;
use crate::object_id::object_id_bytes;
use crate::object_id::object_id_refusal;
use crate::object_id::object_id_text;
use crate::object_id::object_id_to_hex;
use crate::object_id::parse_object_id;
use crate::pages::number_to_text;
use crate::pages::page_count;
use crate::pages::parse_number_pages;
use crate::record::book_record;
use crate::record::draft_book;
use crate::record::holds_record;
use crate::record::id_filter;
use crate::record::id_key;
use crate::record::identified_book;
use crate::record::lemma_record_reads_back;
use crate::record::all_texts;
use crate::record::set_update;
use crate::record::stored_book;
use mongodb::bson::Document;
use vstd::prelude::*;
use vstd::string::*;

verus! {

/// An answer of the store: what was asked for, or the text of the store's
/// failure.
pub type Answer<T> = Result<T, String>;

/// The configured place of the catalogue in the store.
#[derive(Debug, Clone, PartialEq)]
pub struct DB {
    url: String,
    name: String,
    collection: String,
}

/// A book that is to be inserted.
#[derive(Debug, PartialEq)]
pub struct PendingCreate {
    /// The record to insert.
    pub record: Document,
    /// The book that the record stands for, still without its identifier.
    pub book: Book,
}

/// A book that is to be replaced.
#[derive(Debug, PartialEq)]
pub struct PendingUpdate {
    /// Selects the record to update.
    pub filter: Document,
    /// Sets every field of the record but its identifier.
    pub update: Document,
    /// The identifier as the request gave it.
    pub id: String,
    /// The book as it is once the record is updated.
    pub book: Book,
}

/// A book that is to be deleted.
#[derive(Debug, PartialEq)]
pub struct PendingDelete {
    /// Selects the record to delete.
    pub filter: Document,
    /// The identifier as the request gave it.
    pub id: String,
}

/// What the failure says when no record was deleted under `id`.
pub open spec fn not_deleted_text(id: Seq<char>) -> Seq<char> {
    "Failed to delete book with id "@ + id
}

/// What the failure says when no record was modified under `id`.
pub open spec fn not_updated_text(id: Seq<char>) -> Seq<char> {
    "Failed to update book with id "@ + id
}

/// What one answer of the store to a search gives: the book of the
/// document, or a failure where the document holds none, or where the
/// store failed in place of a document, with the store's text.
pub open spec fn item_outcome(item: Result<Document, String>) -> Result<BookView, ErrorView> {
    match item {
        Ok(document) => match stored_book(document_fields(document)) {
            Ok(book) => Ok(book),
            Err(fault) => Err(ErrorView::InvalidData(fault)),
        },
        Err(text) => Err(ErrorView::MongoError(text@)),
    }
}

/// What the answers of the store to a search give: the books of all of
/// them, in their order, or the failure of the first that gives none.
pub open spec fn listing(items: Seq<Result<Document, String>>) -> Result<Seq<BookView>, ErrorView>
    decreases items.len(),
{
    if items.len() == 0 {
        Ok(Seq::empty())
    } else {
        match listing(items.drop_last()) {
            Err(error) => Err(error),
            Ok(books) => match item_outcome(items.last()) {
                Ok(book) => Ok(books.push(book)),
                Err(error) => Err(error),
            },
        }
    }
}

/// Each book with its texts as sequences of characters.
pub open spec fn book_views(books: Seq<Book>) -> Seq<BookView> {
    books.map_values(|book: Book| book@)
}

/// A failure among the first answers is the failure of the whole.
proof fn lemma_listing_failure_stays(items: Seq<Result<Document, String>>, k: int)
    requires
        0 <= k <= items.len(),
        listing(items.take(k)) is Err,
    ensures
        listing(items) == listing(items.take(k)),
    decreases items.len() - k,
{
    if k == items.len() {
        assert(items.take(k) =~= items);
    } else {
        assert(items.take(k + 1).drop_last() =~= items.take(k));
        lemma_listing_failure_stays(items, k + 1);
    }
}

/// A list is all or nothing: there is one exactly when every answer gives a
/// book, and it then holds the book of each answer at the answer's place;
/// else the failure is that of the first answer that gives none.
pub proof fn lemma_listing_is_all_or_nothing(items: Seq<Result<Document, String>>)
    ensures
        listing(items) is Ok <==> forall|i: int|
            0 <= i < items.len() ==> (#[trigger] item_outcome(items[i])) is Ok,
        listing(items) matches Ok(books) ==> books.len() == items.len() && forall|i: int|
            0 <= i < items.len() ==> item_outcome(items[i]) == Ok::<BookView, ErrorView>(
                #[trigger] books[i],
            ),
        listing(items) matches Err(error) ==> exists|i: int|
            0 <= i < items.len() && (#[trigger] item_outcome(items[i])) == Err::<
                BookView,
                ErrorView,
            >(error) && forall|j: int| 0 <= j < i ==> (#[trigger] item_outcome(items[j])) is Ok,
    decreases items.len(),
{
    if items.len() > 0 {
        let front = items.drop_last();
        lemma_listing_is_all_or_nothing(front);
        assert forall|i: int| 0 <= i < front.len() implies front[i] == items[i] by {}
        match listing(front) {
            Err(error) => {
                let first = choose|i: int|
                    0 <= i < front.len() && (#[trigger] item_outcome(front[i])) == Err::<
                        BookView,
                        ErrorView,
                    >(error) && forall|j: int|
                        0 <= j < i ==> (#[trigger] item_outcome(front[j])) is Ok;
                assert(item_outcome(items[first]) is Err);
            },
            Ok(books) => {
                assert(item_outcome(items[items.len() - 1]) == item_outcome(items.last()));
            },
        }
    }
}

/// A listed book has the identifier of the document at its place, as the
/// store writes it.
pub proof fn lemma_listed_identifier_is_the_stored_one(
    items: Seq<Result<Document, String>>,
    place: int,
)
    requires
        0 <= place < items.len(),
        listing(items) is Ok,
    ensures
        items[place] matches Ok(document) && object_id_at(document_fields(document), id_key())
            matches Ok(id) && listing(items)->Ok_0[place].id == object_id_text(id),
{
    lemma_listing_is_all_or_nothing(items);
    assert(item_outcome(items[place]) is Ok);
}

/// A list holds every book whose record is in the store.
///
/// Let the store answer a search with `items`, and let the answer at
/// `place` be a document that holds the record of `book`, with `pages` as
/// its page count, under the identifier `id`: the record that a request to
/// create `book` inserts, or the fields that a request to replace a book by
/// `book` sets. Where there is a list at all, it holds at that place the
/// book that the request resulted in.
pub proof fn lemma_list_holds_stored_book(
    items: Seq<Result<Document, String>>,
    place: int,
    book: BookView,
    pages: int,
    id: Seq<u8>,
)
    requires
        0 <= place < items.len(),
        items[place] matches Ok(document) && holds_record(
            document_fields(document),
            book_record(book.name, book.author, pages, book.tags),
            id,
        ),
        listing(items) is Ok,
    ensures
        listing(items) matches Ok(books) && books.len() == items.len() && books[place]
            == identified_book(draft_book(book, pages), id),
{
    lemma_listing_is_all_or_nothing(items);
    lemma_record_reads_back(document_fields(items[place]->Ok_0), book, pages, id);
}

/// The texts of `items` in their order, where every item is a text.
fn texts_of(items: &Vec<Option<String>>) -> (texts: Option<Vec<String>>)
    ensures
        match all_texts(optional_text_views(items@)) {
            Some(all) => texts matches Some(found) && text_views(found@) == all,
            None => texts is None,
        },
{
    let ghost views = optional_text_views(items@);
    let mut found: Vec<String> = Vec::new();
    let mut i: usize = 0;
    while i < items.len()
        invariant
            i <= items.len(),
            views == optional_text_views(items@),
            found.len() == i,
            forall|k: int| 0 <= k < i ==> views[k] == Some(#[trigger] found@[k]@),
        decreases items.len() - i,
    {
        match &items[i] {
            Some(text) => {
                found.push(text.clone());
            },
            None => {
                assert(views[i as int] is None);
                return None;
            },
        }
        i = i + 1;
    }
    assert forall|k: int| 0 <= k < views.len() implies (#[trigger] views[k]) is Some by {
        assert(views[k] == Some(found@[k]@));
    }
    assert(text_views(found@) =~= views.map_values(|item: Option<Seq<char>>| item->0));
    Some(found)
}

fn copy_texts(texts: &Vec<String>) -> (copy: Vec<String>)
    ensures
        text_views(copy@) == text_views(texts@),
{
    texts.clone()
}

fn record_of(name: &str, author: &str, pages: i32, tags: &Vec<String>) -> (record: Document)
    ensures
        document_fields(record) == book_record(name@, author@, pages as int, text_views(tags@)),
{
    let mut record = empty_document();
    insert_text(&mut record, "NAME", name);
    insert_text(&mut record, "AUTHOR", author);
    insert_int32(&mut record, "NUMBER_PAGES", pages);
    insert_texts(&mut record, "TAGS", tags);
    record
}

fn filter_of(id: &[u8; 12]) -> (filter: Document)
    ensures
        document_fields(filter) == id_filter(id@),
{
    let mut filter = empty_document();
    insert_object_id(&mut filter, "_id", id);
    filter
}

fn draft_of(book: &Book, pages: i32) -> (draft: Book)
    ensures
        draft@ == draft_book(book@, pages as int),
{
    Book {
        id: String::new(),
        name: book.name.clone(),
        author: book.author.clone(),
        number_pages: number_to_text(pages),
        tags: copy_texts(&book.tags),
    }
}

impl DB {
    /// The address of the store.
    pub closed spec fn address(&self) -> Seq<char> {
        self.url@
    }

    /// The name of the database.
    pub closed spec fn database(&self) -> Seq<char> {
        self.name@
    }

    /// The name of the collection of books.
    pub closed spec fn books(&self) -> Seq<char> {
        self.collection@
    }

    /// Takes the configuration as it was found: the address of the store,
    /// the name of the database and the name of the collection. Each must
    /// be there; the first that is missing, in this order, is the failure.
    pub fn init(url: Option<String>, name: Option<String>, collection: Option<String>) -> (opened:
        Result<DB, MongoDbErrors>)
        ensures
            match (url, name, collection) {
                (Some(url), Some(name), Some(collection)) => {
                    &&& opened matches Ok(db)
                    &&& db.address() == url@
                    &&& db.database() == name@
                    &&& db.books() == collection@
                },
                (None, _, _) => opened matches Err(error) && error@ == ErrorView::InvalidURL,
                (Some(_), None, _) => opened matches Err(error) && error@
                    == ErrorView::InvalidDbName,
                (Some(_), Some(_), None) => opened matches Err(error) && error@
                    == ErrorView::InvalidCollection,
            },
    {
        match url {
            None => Err(MongoDbErrors::InvalidURL),
            Some(url) => match name {
                None => Err(MongoDbErrors::InvalidDbName),
                Some(name) => match collection {
                    None => Err(MongoDbErrors::InvalidCollection),
                    Some(collection) => Ok(DB { url, name, collection }),
                },
            },
        }
    }

    /// The address of the store.
    pub fn url(&self) -> (text: &str)
        ensures
            text@ == self.address(),
    {
        self.url.as_str()
    }

    /// The name of the database.
    pub fn database_name(&self) -> (text: &str)
        ensures
            text@ == self.database(),
    {
        self.name.as_str()
    }

    /// The name of the collection of books.
    pub fn collection_name(&self) -> (text: &str)
        ensures
            text@ == self.books(),
    {
        self.collection.as_str()
    }

    /// Checks a request to create `book`, and says what to insert.
    ///
    /// The page count must be the text of a number of pages; the request
    /// fails otherwise, with that text, and nothing is to be inserted. The
    /// identifier that `book` carries is ignored.
    pub fn create_book(&self, book: &Book) -> (planned: Result<PendingCreate, MongoDbErrors>)
        ensures
            match page_count(book.number_pages@) {
                Some(pages) => {
                    &&& planned matches Ok(pending)
                    &&& document_fields(pending.record) == book_record(
                        book@.name,
                        book@.author,
                        pages,
                        book@.tags,
                    )
                    &&& pending.book@ == draft_book(book@, pages)
                },
                None => planned matches Err(error) && error@ == ErrorView::InvalidNumberPages(
                    book.number_pages@,
                ),
            },
    {
        match parse_number_pages(book.number_pages.as_str()) {
            None => Err(MongoDbErrors::InvalidNumberPages(book.number_pages.clone())),
            Some(pages) => {
                let record = record_of(book.name.as_str(), book.author.as_str(), pages, &book.tags);
                Ok(PendingCreate { record, book: draft_of(book, pages) })
            },
        }
    }

    /// Reads the book that a stored document holds. A field that the
    /// document lacks, or holds with another type, is a failure, and so is
    /// an item of the tags that is no text. The book has its identifier as
    /// twenty-four hexadecimal digits in lower case.
    pub fn convert_db_document_to_book(&self, doc: &Document) -> (converted: Result<
        Book,
        MongoDbErrors,
    >)
        ensures
            match stored_book(document_fields(*doc)) {
                Ok(book) => converted matches Ok(found) && found@ == book,
                Err(fault) => converted matches Err(error) && error@ == ErrorView::InvalidData(
                    fault,
                ),
            },
            converted matches Ok(found) ==> is_lower_case_object_id_text(found@.id),
    {
        let id = match get_object_id(doc, "_id") {
            Ok(id) => id,
            Err(fault) => {
                return Err(MongoDbErrors::InvalidData(fault));
            },
        };
        let name = match get_text(doc, "NAME") {
            Ok(name) => name,
            Err(fault) => {
                return Err(MongoDbErrors::InvalidData(fault));
            },
        };
        let author = match get_text(doc, "AUTHOR") {
            Ok(author) => author,
            Err(fault) => {
                return Err(MongoDbErrors::InvalidData(fault));
            },
        };
        let pages = match get_int32(doc, "NUMBER_PAGES") {
            Ok(pages) => pages,
            Err(fault) => {
                return Err(MongoDbErrors::InvalidData(fault));
            },
        };
        let items = match get_array(doc, "TAGS") {
            Ok(items) => items,
            Err(fault) => {
                return Err(MongoDbErrors::InvalidData(fault));
            },
        };
        let tags = match texts_of(&items) {
            Some(tags) => tags,
            None => {
                return Err(MongoDbErrors::InvalidData(AccessFault::UnexpectedType));
            },
        };
        proof {
            lemma_object_id_text_reads_back(id@);
        }
        Ok(Book { id: object_id_to_hex(&id), name, author, number_pages: number_to_text(pages), tags })
    }

    /// Checks a request to replace the book under `id` by `book`, and says
    /// what to update.
    ///
    /// The identifier must be well formed, else the request fails with what
    /// the store's parser says of it. Then the page count must be the text
    /// of a number of pages, else the request fails with that text. Either
    /// way nothing is to be updated. The update sets every field of the
    /// record but its identifier. The identifier is read in either case of
    /// its letters, and the resulting book has it in lower case.
    pub fn edit_book(&self, id: &str, book: &Book) -> (planned: Result<
        PendingUpdate,
        MongoDbErrors,
    >)
        ensures
            if !is_object_id_text(id@) {
                planned matches Err(error) && error@ == ErrorView::InvalidId(
                    object_id_refusal(id@),
                )
            } else {
                match page_count(book.number_pages@) {
                    Some(pages) => {
                        &&& planned matches Ok(pending)
                        &&& document_fields(pending.filter) == id_filter(object_id_bytes(id@))
                        &&& document_fields(pending.update) == set_update(
                            book_record(book@.name, book@.author, pages, book@.tags),
                        )
                        &&& pending.id@ == id@
                        &&& pending.book@ == identified_book(
                            draft_book(book@, pages),
                            object_id_bytes(id@),
                        )
                        &&& is_lower_case_object_id_text(pending.book@.id)
                    },
                    None => planned matches Err(error) && error@
                        == ErrorView::InvalidNumberPages(book.number_pages@),
                }
            },
    {
        let book_id = match parse_object_id(id) {
            Ok(book_id) => book_id,
            Err(reason) => {
                return Err(MongoDbErrors::InvalidId(reason));
            },
        };
        let pages = match parse_number_pages(book.number_pages.as_str()) {
            Some(pages) => pages,
            None => {
                return Err(MongoDbErrors::InvalidNumberPages(book.number_pages.clone()));
            },
        };
        proof {
            lemma_object_id_text_reads_back(book_id@);
        }
        let record = record_of(book.name.as_str(), book.author.as_str(), pages, &book.tags);
        let mut update = empty_document();
        insert_document(&mut update, "$set", record);
        let updated = Book {
            id: object_id_to_hex(&book_id),
            name: book.name.clone(),
            author: book.author.clone(),
            number_pages: number_to_text(pages),
            tags: copy_texts(&book.tags),
        };
        Ok(PendingUpdate { filter: filter_of(&book_id), update, id: id.to_owned(), book: updated })
    }

    /// Checks a request to delete the book under `id`, and says what to
    /// delete.
    ///
    /// The identifier must be well formed, else the request fails with what
    /// the store's parser says of it, and nothing is to be deleted.
    pub fn delete_book(&self, id: &str) -> (planned: Result<PendingDelete, MongoDbErrors>)
        ensures
            match planned {
                Ok(pending) => {
                    &&& is_object_id_text(id@)
                    &&& document_fields(pending.filter) == id_filter(object_id_bytes(id@))
                    &&& pending.id@ == id@
                },
                Err(error) => !is_object_id_text(id@) && error@ == ErrorView::InvalidId(
                    object_id_refusal(id@),
                ),
            },
    {
        match parse_object_id(id) {
            Ok(book_id) => Ok(PendingDelete { filter: filter_of(&book_id), id: id.to_owned() }),
            Err(reason) => Err(MongoDbErrors::InvalidId(reason)),
        }
    }

    /// The list of books, given the store's answer to a search for every
    /// record: the answers for the records in the store's order, each a
    /// document or a failure of the store, or the store's failure to search
    /// at all.
    ///
    /// Every document must hold a book: the outcome is the books of all of
    /// them in that order, or the failure of the first answer that gives no
    /// book. A failure to search fails the request, with the store's text.
    /// Every listed book has its identifier as twenty-four hexadecimal
    /// digits in lower case.
    pub fn fetch_books(&self, found: &Answer<Vec<Answer<Document>>>) -> (listed:
        Result<Vec<Book>, MongoDbErrors>)
        ensures
            match found {
                Ok(items) => match listing(items@) {
                    Ok(books) => listed matches Ok(list) && book_views(list@) == books,
                    Err(failure) => listed matches Err(error) && error@ == failure,
                },
                Err(text) => listed matches Err(error) && error@ == ErrorView::InvalidQuery(
                    text@,
                ),
            },
            listed matches Ok(list) ==> forall|i: int|
                0 <= i < list.len() ==> is_lower_case_object_id_text((#[trigger] list[i])@.id),
    {
        let items = match found {
            Ok(items) => items,
            Err(text) => {
                return Err(MongoDbErrors::InvalidQuery(text.clone()));
            },
        };
        let mut list: Vec<Book> = Vec::new();
        let mut i: usize = 0;
        assert(book_views(list@) =~= Seq::empty());
        while i < items.len()
            invariant
                i <= items.len(),
                found matches Ok(all) && all == items,
                forall|k: int|
                    0 <= k < list.len() ==> is_lower_case_object_id_text(
                        (#[trigger] list[k])@.id,
                    ),
                listing(items@.take(i as int)) == Ok::<Seq<BookView>, ErrorView>(
                    book_views(list@),
                ),
            decreases items.len() - i,
        {
            proof {
                assert(items@.take(i + 1).drop_last() =~= items@.take(i as int));
            }
            let book = match &items[i] {
                Ok(document) => match self.convert_db_document_to_book(document) {
                    Ok(book) => book,
                    Err(error) => {
                        proof {
                            lemma_listing_failure_stays(items@, i + 1);
                        }
                        return Err(error);
                    },
                },
                Err(text) => {
                    proof {
                        lemma_listing_failure_stays(items@, i + 1);
                    }
                    return Err(MongoDbErrors::MongoError(text.clone()));
                },
            };
            let ghost before = book_views(list@);
            list.push(book);
            assert(book_views(list@) =~= before.push(book@));
            i = i + 1;
        }
        assert(items@.take(items.len() as int) =~= items@);
        Ok(list)
    }
}

impl PendingCreate {
    /// The outcome of the request, given the store's answer to the insert:
    /// the identifier of the new record, as its bytes, or nothing where the
    /// store named the record otherwise; or the store's failure.
    ///
    /// The created book has the identifier that the store gave, as
    /// twenty-four hexadecimal digits in lower case. An answer without an
    /// identifier is a failure of its own kind. A failure of the store fails
    /// the request, with the store's text.
    pub fn complete(self, answer: Answer<Option<[u8; 12]>>) -> (created: Result<
        Book,
        MongoDbErrors,
    >)
        ensures
            match answer {
                Ok(Some(id)) => created matches Ok(book) && book@ == identified_book(
                    self.book@,
                    id@,
                ),
                Ok(None) => created matches Err(error) && error@
                    == ErrorView::IdentityExtractionError,
                Err(text) => created matches Err(error) && error@ == ErrorView::InvalidQuery(
                    text@,
                ),
            },
            created matches Ok(book) ==> is_lower_case_object_id_text(book@.id),
    {
        match answer {
            Ok(Some(id)) => {
                proof {
                    lemma_object_id_text_reads_back(id@);
                }
                let draft = self.book;
                Ok(
                    Book {
                        id: object_id_to_hex(&id),
                        name: draft.name,
                        author: draft.author,
                        number_pages: draft.number_pages,
                        tags: draft.tags,
                    },
                )
            },
            Ok(None) => Err(MongoDbErrors::IdentityExtractionError),
            Err(text) => Err(MongoDbErrors::InvalidQuery(text)),
        }
    }
}

impl PendingUpdate {
    /// The outcome of the request, given the store's answer to the update:
    /// the number of records that it modified, or the store's failure.
    ///
    /// Where a record was modified, the outcome is the book as it now is.
    /// Where none was, the request fails, and the failure names the
    /// identifier; the store modifies none where no record has the
    /// identifier, and also where the record already held these values. A
    /// failure of the store fails the request, with the store's text.
    pub fn complete(self, answer: Answer<u64>) -> (updated: Result<Book, MongoDbErrors>)
        ensures
            match answer {
                Ok(modified) => if modified > 0 {
                    updated == Ok::<Book, MongoDbErrors>(self.book)
                } else {
                    updated matches Err(error) && error@ == ErrorView::InvalidId(
                        not_updated_text(self.id@),
                    )
                },
                Err(text) => updated matches Err(error) && error@ == ErrorView::InvalidQuery(
                    text@,
                ),
            },
    {
        match answer {
            Ok(modified) => {
                if modified > 0 {
                    Ok(self.book)
                } else {
                    Err(
                        MongoDbErrors::InvalidId(
                            "Failed to update book with id ".to_owned().concat(self.id.as_str()),
                        ),
                    )
                }
            },
            Err(text) => Err(MongoDbErrors::InvalidQuery(text)),
        }
    }
}

impl PendingDelete {
    /// The outcome of the request, given the store's answer to the delete:
    /// the number of records that it deleted, or the store's failure.
    ///
    /// Where a record was deleted, the outcome is the identifier as the
    /// request gave it. Where none was, the request fails, and the failure
    /// names the identifier. A failure of the store fails the request, with
    /// the store's text.
    pub fn complete(self, answer: Answer<u64>) -> (deleted: Result<String, MongoDbErrors>)
        ensures
            match answer {
                Ok(count) => if count > 0 {
                    deleted == Ok::<String, MongoDbErrors>(self.id)
                } else {
                    deleted matches Err(error) && error@ == ErrorView::InvalidId(
                        not_deleted_text(self.id@),
                    )
                },
                Err(text) => deleted matches Err(error) && error@ == ErrorView::InvalidQuery(
                    text@,
                ),
            },
    {
        match answer {
            Ok(count) => {
                if count > 0 {
                    Ok(self.id)
                } else {
                    Err(
                        MongoDbErrors::InvalidId(
                            "Failed to delete book with id ".to_owned().concat(self.id.as_str()),
                        ),
                    )
                }
            },
            Err(text) => Err(MongoDbErrors::InvalidQuery(text)),
        }
    }
}

} // verus!
