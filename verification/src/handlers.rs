//! The book record, and the replies to the four requests.

use crate::document::text_views;
use crate::errors::MongoDbErrors;
use crate::errors::STATUS_CREATED;
use crate::errors::STATUS_OK;
use vstd::prelude::*;

verus! {

/// A book of the catalogue.
///
/// The page count travels as text. Requests carry no identifier of their
/// own: what `id` holds on the way in is ignored.
#[derive(Debug, Clone, PartialEq)]
pub struct Book {
    pub id: String,
    pub name: String,
    pub author: String,
    pub number_pages: String,
    pub tags: Vec<String>,
}

/// A book with its texts as sequences of characters.
pub struct BookView {
    pub id: Seq<char>,
    pub name: Seq<char>,
    pub author: Seq<char>,
    pub number_pages: Seq<char>,
    pub tags: Seq<Seq<char>>,
}

impl View for Book {
    type V = BookView;

    open spec fn view(&self) -> BookView {
        BookView {
            id: self.id@,
            name: self.name@,
            author: self.author@,
            number_pages: self.number_pages@,
            tags: text_views(self.tags@),
        }
    }
}

/// The body of a reply: what was asked for, under `data`.
#[derive(Debug, Clone, PartialEq)]
pub struct Payload<T> {
    pub data: Box<T>,
}

/// A reply to a request that was served: a status and a body.
#[derive(Debug, Clone, PartialEq)]
pub struct Reply<T> {
    pub status: u16,
    pub payload: Payload<T>,
}

/// The reply to a request whose work ended as `outcome`: the result under
/// the given status, or the failure as it is.
pub open spec fn replied<T>(status: u16, outcome: Result<T, MongoDbErrors>) -> Result<
    Reply<T>,
    MongoDbErrors,
> {
    match outcome {
        Ok(data) => Ok(Reply { status, payload: Payload { data: Box::new(data) } }),
        Err(error) => Err(error),
    }
}

fn reply_with<T>(status: u16, outcome: Result<T, MongoDbErrors>) -> (reply: Result<
    Reply<T>,
    MongoDbErrors,
>)
    ensures
        reply == replied(status, outcome),
{
    match outcome {
        Ok(data) => Ok(Reply { status, payload: Payload { data: Box::new(data) } }),
        Err(error) => Err(error),
    }
}

/// Replies to a request to create a book, once the store adapter is done:
/// the created book, as created; a failure as it is.
pub fn create_book_handle(created: Result<Book, MongoDbErrors>) -> (reply: Result<
    Reply<Book>,
    MongoDbErrors,
>)
    ensures
        reply == replied(STATUS_CREATED, created),
{
    reply_with(STATUS_CREATED, created)
}

/// Replies to a request for the list of books, once the store adapter is
/// done: the books; a failure as it is.
pub fn fetch_books_handle(books: Result<Vec<Book>, MongoDbErrors>) -> (reply: Result<
    Reply<Vec<Book>>,
    MongoDbErrors,
>)
    ensures
        reply == replied(STATUS_OK, books),
{
    reply_with(STATUS_OK, books)
}

/// Replies to a request to change a book, once the store adapter is done:
/// the book as it now is; a failure as it is.
pub fn edit_book_handle(updated: Result<Book, MongoDbErrors>) -> (reply: Result<
    Reply<Book>,
    MongoDbErrors,
>)
    ensures
        reply == replied(STATUS_OK, updated),
{
    reply_with(STATUS_OK, updated)
}

/// Replies to a request to delete a book, once the store adapter is done:
/// the identifier of the deleted book; a failure as it is.
pub fn delete_book_handle(deleted: Result<String, MongoDbErrors>) -> (reply: Result<
    Reply<String>,
    MongoDbErrors,
>)
    ensures
        reply == replied(STATUS_OK, deleted),
{
    reply_with(STATUS_OK, deleted)
}

} // verus!
