use rust_mongo::routes::route;
use rust_mongo::routes::Route;

#[test]
fn the_four_routes() {
    assert_eq!(route("POST", "/book"), Route::Create);
    assert_eq!(route("GET", "/books"), Route::List);
    assert_eq!(
        route("PUT", "/book/65f1c0ffee0123456789abcd"),
        Route::Update("65f1c0ffee0123456789abcd".to_string())
    );
    assert_eq!(
        route("DELETE", "/book/65f1c0ffee0123456789abcd"),
        Route::Delete("65f1c0ffee0123456789abcd".to_string())
    );
}

#[test]
fn the_identifier_is_taken_as_it_is() {
    assert_eq!(route("PUT", "/book/abc"), Route::Update("abc".to_string()));
    assert_eq!(route("DELETE", "/book/abc"), Route::Delete("abc".to_string()));
    assert_eq!(route("DELETE", "/book/s"), Route::Delete("s".to_string()));
    assert_eq!(route("PUT", "/book/not an id"), Route::Update("not an id".to_string()));
    assert_eq!(route("DELETE", "/book/\u{e9}t\u{e9}"), Route::Delete("\u{e9}t\u{e9}".to_string()));
    assert_eq!(route("DELETE", "/book/book"), Route::Delete("book".to_string()));
}

#[test]
fn a_known_path_with_another_method_is_not_allowed() {
    assert_eq!(route("GET", "/book"), Route::MethodNotAllowed);
    assert_eq!(route("PUT", "/book"), Route::MethodNotAllowed);
    assert_eq!(route("DELETE", "/book"), Route::MethodNotAllowed);
    assert_eq!(route("POST", "/books"), Route::MethodNotAllowed);
    assert_eq!(route("DELETE", "/books"), Route::MethodNotAllowed);
    assert_eq!(route("GET", "/book/abc"), Route::MethodNotAllowed);
    assert_eq!(route("POST", "/book/abc"), Route::MethodNotAllowed);
    assert_eq!(route("PATCH", "/book/abc"), Route::MethodNotAllowed);
    assert_eq!(route("", "/book"), Route::MethodNotAllowed);
}

#[test]
fn methods_are_upper_case() {
    assert_eq!(route("post", "/book"), Route::MethodNotAllowed);
    assert_eq!(route("Get", "/books"), Route::MethodNotAllowed);
    assert_eq!(route("put", "/book/abc"), Route::MethodNotAllowed);
    assert_eq!(route("delete", "/book/abc"), Route::MethodNotAllowed);
}

#[test]
fn unknown_paths_are_not_found() {
    assert_eq!(route("GET", "/"), Route::NotFound);
    assert_eq!(route("GET", ""), Route::NotFound);
    assert_eq!(route("GET", "/boo"), Route::NotFound);
    assert_eq!(route("GET", "/bookss"), Route::NotFound);
    assert_eq!(route("POST", "book"), Route::NotFound);
    assert_eq!(route("POST", "/Book"), Route::NotFound);
    assert_eq!(route("GET", "/books/"), Route::NotFound);
    assert_eq!(route("GET", "/books/1"), Route::NotFound);
    assert_eq!(route("GET", "/shelf/book"), Route::NotFound);
}

#[test]
fn the_identifier_is_one_segment_that_is_not_empty() {
    assert_eq!(route("PUT", "/book/"), Route::NotFound);
    assert_eq!(route("DELETE", "/book/"), Route::NotFound);
    assert_eq!(route("PUT", "/book/abc/"), Route::NotFound);
    assert_eq!(route("DELETE", "/book/abc/def"), Route::NotFound);
    assert_eq!(route("DELETE", "/book//"), Route::NotFound);
    assert_eq!(route("POST", "/book/"), Route::NotFound);
}
