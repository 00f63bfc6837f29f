//! Sample requests, and a helper on the list of books.

use crate::document::text_views;
use crate::handlers::Book;
use crate::handlers::BookView;
use crate::handlers::Payload;
use vstd::prelude::*;

verus! {

/// The tags of the sample books.
pub open spec fn sample_tags() -> Seq<Seq<char>> {
    seq!["fiction"@, "adventure"@]
}

fn tags_of_samples() -> (tags: Vec<String>)
    ensures
        text_views(tags@) == sample_tags(),
{
    let mut tags: Vec<String> = Vec::new();
    tags.push("fiction".to_owned());
    tags.push("adventure".to_owned());
    tags
}

/// A sample request to create a book.
pub fn new_book() -> (book: Book)
    ensures
        book@ == (BookView {
            id: "1"@,
            name: "Sample Book"@,
            author: "John Doe"@,
            number_pages: "200"@,
            tags: sample_tags(),
        }),
{
    Book {
        id: "1".to_owned(),
        name: "Sample Book".to_owned(),
        author: "John Doe".to_owned(),
        number_pages: "200".to_owned(),
        tags: tags_of_samples(),
    }
}

/// A sample request to replace a book.
pub fn edit_book() -> (book: Book)
    ensures
        book@ == (BookView {
            id: "1"@,
            name: "Edited name"@,
            author: "Edited author"@,
            number_pages: "200"@,
            tags: sample_tags(),
        }),
{
    Book {
        id: "1".to_owned(),
        name: "Edited name".to_owned(),
        author: "Edited author".to_owned(),
        number_pages: "200".to_owned(),
        tags: tags_of_samples(),
    }
}

/// The identifier of the first book of a list that is not empty.
pub fn get_book_id(books: &Payload<Vec<Book>>) -> (id: String)
    requires
        books.data.len() > 0,
    ensures
        id@ == books.data[0].id@,
{
    books.data[0].id.clone()
}

} // verus!
