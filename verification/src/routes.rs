//! The routes of the service: which request goes to which handler.
//!
//! | method | path         | handler |
//! |--------|--------------|---------|
//! | POST   | `/book`      | create  |
//! | GET    | `/books`     | list    |
//! | PUT    | `/book/{id}` | update  |
//! | DELETE | `/book/{id}` | delete  |
//!
//! `{id}` is one segment of the path that is not empty. It is taken as it
//! is: whether it is a well-formed identifier is for the store adapter to
//! say.

use crate::chars::begins_with;
use crate::chars::chars_of;
use crate::chars::same_text;
use vstd::prelude::*;
use vstd::string::*;

verus! {

/// Where a request goes.
#[derive(Debug, Clone, PartialEq)]
pub enum Route {
    /// To the handler that creates a book.
    Create,
    /// To the handler that lists the books.
    List,
    /// To the handler that replaces the book under this identifier.
    Update(String),
    /// To the handler that deletes the book under this identifier.
    Delete(String),
    /// Nowhere: a route has the path, but none has it with the method.
    MethodNotAllowed,
    /// Nowhere: no route has the path.
    NotFound,
}

/// A route with its identifier as a sequence of characters.
pub enum RouteView {
    Create,
    List,
    Update(Seq<char>),
    Delete(Seq<char>),
    MethodNotAllowed,
    NotFound,
}

impl View for Route {
    type V = RouteView;

    open spec fn view(&self) -> RouteView {
        match self {
            Route::Create => RouteView::Create,
            Route::List => RouteView::List,
            Route::Update(id) => RouteView::Update(id@),
            Route::Delete(id) => RouteView::Delete(id@),
            Route::MethodNotAllowed => RouteView::MethodNotAllowed,
            Route::NotFound => RouteView::NotFound,
        }
    }
}

/// The path of the route that creates a book.
pub open spec fn book_path() -> Seq<char> {
    "/book"@
}

/// The path of the route that lists the books.
pub open spec fn books_path() -> Seq<char> {
    "/books"@
}

/// What the path of one book begins with.
pub open spec fn item_prefix() -> Seq<char> {
    "/book/"@
}

/// The identifier in the path of one book: what follows the prefix, where
/// that is one segment and not empty.
pub open spec fn item_id(path: Seq<char>) -> Option<Seq<char>> {
    let prefix = item_prefix();
    if path.len() > prefix.len() && path.subrange(0, prefix.len() as int) == prefix && !path.skip(
        prefix.len() as int,
    ).contains('/') {
        Some(path.skip(prefix.len() as int))
    } else {
        None
    }
}

/// Where the request with the given method and path goes.
pub open spec fn route_of(method: Seq<char>, path: Seq<char>) -> RouteView {
    if path == book_path() {
        if method == "POST"@ {
            RouteView::Create
        } else {
            RouteView::MethodNotAllowed
        }
    } else if path == books_path() {
        if method == "GET"@ {
            RouteView::List
        } else {
            RouteView::MethodNotAllowed
        }
    } else {
        match item_id(path) {
            Some(id) => if method == "PUT"@ {
                RouteView::Update(id)
            } else if method == "DELETE"@ {
                RouteView::Delete(id)
            } else {
                RouteView::MethodNotAllowed
            },
            None => RouteView::NotFound,
        }
    }
}

/// Whether `path` is the path of one book.
fn is_item_path(path: &Vec<char>) -> (found: bool)
    ensures
        found == item_id(path@) is Some,
        item_prefix().len() == 6,
{
    proof {
        reveal_strlit("/book/");
    }
    if !begins_with(path, &chars_of("/book/")) || path.len() == 6 {
        return false;
    }
    let ghost rest = path@.skip(6);
    let mut i: usize = 6;
    while i < path.len()
        invariant
            6 <= i <= path.len(),
            item_prefix().len() == 6,
            path@.subrange(0, 6) == item_prefix(),
            rest == path@.skip(6),
            forall|k: int| 0 <= k < i - 6 ==> rest[k] != '/',
        decreases path.len() - i,
    {
        if path[i] == '/' {
            assert(rest[i - 6] == '/');
            return false;
        }
        i = i + 1;
    }
    true
}

/// Says where the request with the given method and path goes.
///
/// Methods are upper-case words, and a path is matched as a whole: a path
/// that goes on after a route's path is not that route's.
pub fn route(method: &str, path: &str) -> (route: Route)
    ensures
        route@ == route_of(method@, path@),
{
    let m = chars_of(method);
    let p = chars_of(path);
    if same_text(&p, "/book") {
        if same_text(&m, "POST") {
            Route::Create
        } else {
            Route::MethodNotAllowed
        }
    } else if same_text(&p, "/books") {
        if same_text(&m, "GET") {
            Route::List
        } else {
            Route::MethodNotAllowed
        }
    } else if is_item_path(&p) {
        if same_text(&m, "PUT") {
            Route::Update(path.substring_char(6, p.len()).to_owned())
        } else if same_text(&m, "DELETE") {
            Route::Delete(path.substring_char(6, p.len()).to_owned())
        } else {
            Route::MethodNotAllowed
        }
    } else {
        Route::NotFound
    }
}

} // verus!
