use mongodb::bson::oid::ObjectId;
use mongodb::bson::Bson;
use mongodb::bson::Document;
use rust_mongo::db::DB;
use rust_mongo::errors::handle_rejection;
use rust_mongo::errors::ErrorReply;
use rust_mongo::errors::MongoDbErrors;
use rust_mongo::errors::Rejection;
use rust_mongo::handlers::create_book_handle;
use rust_mongo::handlers::delete_book_handle;
use rust_mongo::handlers::edit_book_handle;
use rust_mongo::handlers::fetch_books_handle;
use rust_mongo::handlers::Book;
use rust_mongo::handlers::Payload;
use rust_mongo::handlers::Reply;
use rust_mongo::routes::route;
use rust_mongo::routes::Route;
use rust_mongo::utils::edit_book;
use rust_mongo::utils::get_book_id;
use rust_mongo::utils::new_book;

/// A store that lives in memory and counts what is asked of it.
struct Store {
    records: Vec<Document>,
    made: u8,
    calls: usize,
}

impl Store {
    fn new() -> Store {
        Store { records: Vec::new(), made: 0, calls: 0 }
    }

    fn selects(filter: &Document, record: &Document) -> bool {
        filter.iter().all(|(key, value)| record.get(key) == Some(value))
    }

    fn insert_one(&mut self, record: Document) -> Result<Option<[u8; 12]>, String> {
        self.calls += 1;
        self.made += 1;
        let id = [0x65, 0xf1, 0xc0, 0xff, 0xee, 0, 0, 0, 0, 0, 0, self.made];
        let mut kept = Document::new();
        kept.insert("_id", ObjectId::from_bytes(id));
        for (key, value) in record {
            kept.insert(key, value);
        }
        self.records.push(kept);
        Ok(Some(id))
    }

    fn find(&mut self) -> Result<Vec<Result<Document, String>>, String> {
        self.calls += 1;
        Ok(self.records.iter().cloned().map(Ok).collect())
    }

    fn update_one(&mut self, filter: &Document, update: &Document) -> Result<u64, String> {
        self.calls += 1;
        let fields = update.get_document("$set").map_err(|error| error.to_string())?;
        for record in self.records.iter_mut() {
            if Store::selects(filter, record) {
                let before = record.clone();
                for (key, value) in fields {
                    record.insert(key.clone(), value.clone());
                }
                return Ok(if *record == before { 0 } else { 1 });
            }
        }
        Ok(0)
    }

    fn delete_one(&mut self, filter: &Document) -> Result<u64, String> {
        self.calls += 1;
        match self.records.iter().position(|record| Store::selects(filter, record)) {
            Some(place) => {
                self.records.remove(place);
                Ok(1)
            }
            None => Ok(0),
        }
    }
}

fn db() -> DB {
    DB::init(Some("mongodb://localhost".to_string()), Some("library".to_string()), Some("books".to_string()))
        .expect("a full configuration")
}

fn create(store: &mut Store, book: &Book) -> Result<Book, MongoDbErrors> {
    let pending = db().create_book(book)?;
    let answer = store.insert_one(pending.record.clone());
    pending.complete(answer)
}

fn fetch(store: &mut Store) -> Result<Vec<Book>, MongoDbErrors> {
    let found = store.find();
    db().fetch_books(&found)
}

fn edit(store: &mut Store, id: &str, book: &Book) -> Result<Book, MongoDbErrors> {
    let pending = db().edit_book(id, book)?;
    let answer = store.update_one(&pending.filter, &pending.update);
    pending.complete(answer)
}

fn delete(store: &mut Store, id: &str) -> Result<String, MongoDbErrors> {
    let pending = db().delete_book(id)?;
    let answer = store.delete_one(&pending.filter);
    pending.complete(answer)
}

/// What a request was answered with.
#[derive(Debug, PartialEq)]
enum Served {
    Book(Reply<Book>),
    Books(Reply<Vec<Book>>),
    Id(Reply<String>),
    Failure(ErrorReply),
}

impl Served {
    fn status(&self) -> u16 {
        match self {
            Served::Book(reply) => reply.status,
            Served::Books(reply) => reply.status,
            Served::Id(reply) => reply.status,
            Served::Failure(reply) => reply.status,
        }
    }

    fn book(self) -> Book {
        match self {
            Served::Book(reply) => *reply.payload.data,
            other => panic!("no book: {:?}", other),
        }
    }

    fn books(self) -> Vec<Book> {
        match self {
            Served::Books(reply) => *reply.payload.data,
            other => panic!("no list: {:?}", other),
        }
    }
}

fn failed(rejection: Rejection) -> Served {
    Served::Failure(handle_rejection(&rejection))
}

/// Serves one request as the service does; a body that is missing stands for
/// one that does not read.
fn serve(store: &mut Store, method: &str, path: &str, body: Option<Book>) -> Served {
    match route(method, path) {
        Route::Create => match body {
            None => failed(Rejection::invalid_body()),
            Some(book) => match create_book_handle(create(store, &book)) {
                Ok(reply) => Served::Book(reply),
                Err(error) => failed(Rejection::store(error)),
            },
        },
        Route::List => match fetch_books_handle(fetch(store)) {
            Ok(reply) => Served::Books(reply),
            Err(error) => failed(Rejection::store(error)),
        },
        Route::Update(id) => match body {
            None => failed(Rejection::invalid_body()),
            Some(book) => match edit_book_handle(edit(store, &id, &book)) {
                Ok(reply) => Served::Book(reply),
                Err(error) => failed(Rejection::store(error)),
            },
        },
        Route::Delete(id) => match delete_book_handle(delete(store, &id)) {
            Ok(reply) => Served::Id(reply),
            Err(error) => failed(Rejection::store(error)),
        },
        Route::MethodNotAllowed => failed(Rejection::method_not_allowed()),
        Route::NotFound => failed(Rejection::not_found()),
    }
}

fn dune(pages: &str, tags: &[&str]) -> Book {
    Book {
        id: String::new(),
        name: "Dune".to_string(),
        author: "Herbert".to_string(),
        number_pages: pages.to_string(),
        tags: tags.iter().map(|tag| tag.to_string()).collect(),
    }
}

fn is_well_formed(id: &str) -> bool {
    id.len() == 24 && id.chars().all(|c| c.is_ascii_hexdigit())
}

fn first_id(store: &mut Store) -> String {
    let books = fetch_books_handle(fetch(store)).expect("failed to fetch books");
    get_book_id(&books.payload)
}

#[test]
fn test_create_book_handle() {
    let mut store = Store::new();
    let result =
        create_book_handle(create(&mut store, &new_book())).expect("failed to create a book");
    assert_eq!(result.status, 201);
}

#[test]
fn test_delete_book_handle() {
    let mut store = Store::new();
    create(&mut store, &new_book()).expect("failed to create a book");
    let book_id = first_id(&mut store);
    let result =
        delete_book_handle(delete(&mut store, &book_id)).expect("failed to delete a book");
    assert_eq!(result.status, 200);
}

#[test]
fn test_edit_book_handle() {
    let mut store = Store::new();
    create(&mut store, &new_book()).expect("failed to create a book");
    let book_id = first_id(&mut store);
    let result =
        edit_book_handle(edit(&mut store, &book_id, &edit_book())).expect("failed to edit a book");
    assert_eq!(result.status, 200);
}

#[test]
fn test_fetch_books_handle() {
    let mut store = Store::new();
    let result = fetch_books_handle(fetch(&mut store)).expect("failed to fetch books");
    assert_eq!(result.status, 200);
}

#[test]
fn test_create_book_route() {
    let mut store = Store::new();
    let response = serve(&mut store, "POST", "/book", Some(new_book()));
    assert_eq!(response.status(), 201);
}

#[test]
fn test_fetch_books_route() {
    let mut store = Store::new();
    let response = serve(&mut store, "GET", "/books", None);
    assert_eq!(response.status(), 200);
}

#[test]
fn test_edit_book_route() {
    let mut store = Store::new();
    create(&mut store, &new_book()).expect("failed to create a book");
    let book_id = first_id(&mut store);
    let response =
        serve(&mut store, "PUT", format!("/book/{}", book_id).as_str(), Some(edit_book()));
    assert_eq!(response.status(), 200);
}

#[test]
fn test_delete_book_route() {
    let mut store = Store::new();
    create(&mut store, &new_book()).expect("failed to create a book");
    let book_id = first_id(&mut store);
    let response = serve(&mut store, "DELETE", format!("/book/{}", book_id).as_str(), None);
    assert_eq!(response.status(), 200);
}

#[test]
fn a_created_book_is_in_the_list() {
    let mut store = Store::new();
    let request = dune("412", &["scifi", "classic", "scifi"]);
    let created = create(&mut store, &request).expect("a created book");
    let listed = fetch(&mut store).expect("a list");
    assert_eq!(listed, vec![created.clone()]);
    assert_eq!(listed[0].name, request.name);
    assert_eq!(listed[0].author, request.author);
    assert_eq!(listed[0].number_pages, request.number_pages);
    assert_eq!(listed[0].tags, request.tags);
    assert!(is_well_formed(&listed[0].id));
}

#[test]
fn a_created_book_is_listed_with_its_page_count_as_a_plain_number() {
    let mut store = Store::new();
    create(&mut store, &dune("+0412", &[])).expect("a created book");
    let listed = fetch(&mut store).expect("a list");
    assert_eq!(listed[0].number_pages, "412");
}

#[test]
fn every_created_book_is_in_the_list() {
    let mut store = Store::new();
    let first = create(&mut store, &new_book()).expect("a created book");
    let second = create(&mut store, &dune("412", &["scifi"])).expect("a created book");
    let third = create(&mut store, &new_book()).expect("a created book");
    assert_ne!(first.id, third.id);
    assert_eq!(fetch(&mut store), Ok(vec![first, second, third]));
}

#[test]
fn an_update_to_other_values_is_listed() {
    let mut store = Store::new();
    let created = create(&mut store, &dune("412", &["scifi"])).expect("a created book");
    let response = serve(
        &mut store,
        "PUT",
        format!("/book/{}", created.id).as_str(),
        Some(dune("500", &["scifi", "classic"])),
    );
    assert_eq!(response.status(), 200);
    let updated = response.book();
    assert_eq!(updated.id, created.id);
    assert_eq!(updated.number_pages, "500");
    assert_eq!(updated.tags, vec!["scifi".to_string(), "classic".to_string()]);
    assert_eq!(fetch(&mut store), Ok(vec![updated]));
}

#[test]
fn an_update_replaces_every_field() {
    let mut store = Store::new();
    let created = create(&mut store, &new_book()).expect("a created book");
    let updated = edit(&mut store, &created.id, &dune("1", &[])).expect("an updated book");
    assert_eq!(
        updated,
        Book {
            id: created.id,
            name: "Dune".to_string(),
            author: "Herbert".to_string(),
            number_pages: "1".to_string(),
            tags: Vec::new(),
        }
    );
    assert_eq!(fetch(&mut store), Ok(vec![updated]));
}

#[test]
fn an_update_to_the_same_values_is_reported_as_not_found() {
    let mut store = Store::new();
    let created = create(&mut store, &dune("412", &["scifi"])).expect("a created book");
    let again = edit(&mut store, &created.id, &dune("412", &["scifi"]));
    assert_eq!(
        again,
        Err(MongoDbErrors::InvalidId(format!("Failed to update book with id {}", created.id)))
    );
    assert_eq!(fetch(&mut store), Ok(vec![created.clone()]));
    let response = serve(
        &mut store,
        "PUT",
        format!("/book/{}", created.id).as_str(),
        Some(dune("412", &["scifi"])),
    );
    assert_eq!(response.status(), 500);
}

#[test]
fn an_update_of_what_is_not_there_is_not_found() {
    let mut store = Store::new();
    create(&mut store, &new_book()).expect("a created book");
    let missing = edit(&mut store, "000000000000000000000000", &edit_book());
    assert_eq!(
        missing,
        Err(MongoDbErrors::InvalidId(
            "Failed to update book with id 000000000000000000000000".to_string()
        ))
    );
}

#[test]
fn a_malformed_identifier_asks_nothing_of_the_store() {
    let mut store = Store::new();
    create(&mut store, &new_book()).expect("a created book");
    let calls = store.calls;
    let before = store.records.clone();
    assert!(matches!(edit(&mut store, "abc", &edit_book()), Err(MongoDbErrors::InvalidId(_))));
    assert!(matches!(delete(&mut store, "abc"), Err(MongoDbErrors::InvalidId(_))));
    assert_eq!(store.calls, calls);
    assert_eq!(store.records, before);
}

#[test]
fn a_malformed_identifier_is_an_internal_server_error() {
    let mut store = Store::new();
    create(&mut store, &new_book()).expect("a created book");
    let calls = store.calls;
    for path in ["/book/abc", "/book/65f1c0ffee0123456789abcg", "/book/65f1c0ffee00000000000001ff"] {
        let put = serve(&mut store, "PUT", path, Some(edit_book()));
        assert_eq!(put.status(), 500);
        let deleted = serve(&mut store, "DELETE", path, None);
        assert_eq!(
            deleted,
            Served::Failure(handle_rejection(&Rejection {
                not_found: false,
                invalid_body: false,
                store_error: Some(MongoDbErrors::InvalidURL),
                method_not_allowed: false,
            }))
        );
        assert_eq!(deleted.status(), 500);
    }
    assert_eq!(store.calls, calls);
    assert_eq!(store.records.len(), 1);
}

#[test]
fn a_page_count_that_is_no_number_inserts_nothing() {
    let mut store = Store::new();
    let created = create(&mut store, &dune("not-a-number", &["scifi"]));
    assert_eq!(created, Err(MongoDbErrors::InvalidNumberPages("not-a-number".to_string())));
    assert_eq!(store.calls, 0);
    assert!(store.records.is_empty());
    let response = serve(&mut store, "POST", "/book", Some(dune("not-a-number", &["scifi"])));
    assert_eq!(response.status(), 500);
    assert_eq!(store.calls, 0);
}

#[test]
fn a_page_count_that_is_no_number_updates_nothing() {
    let mut store = Store::new();
    let created = create(&mut store, &new_book()).expect("a created book");
    let calls = store.calls;
    let updated = edit(&mut store, &created.id, &dune("many", &[]));
    assert_eq!(updated, Err(MongoDbErrors::InvalidNumberPages("many".to_string())));
    assert_eq!(store.calls, calls);
    assert_eq!(fetch(&mut store), Ok(vec![created]));
}

#[test]
fn deleting_what_is_not_there_is_not_found() {
    let mut store = Store::new();
    create(&mut store, &new_book()).expect("a created book");
    let deleted = delete(&mut store, "000000000000000000000000");
    assert_eq!(
        deleted,
        Err(MongoDbErrors::InvalidId(
            "Failed to delete book with id 000000000000000000000000".to_string()
        ))
    );
    assert_eq!(store.records.len(), 1);
    let response = serve(&mut store, "DELETE", "/book/000000000000000000000000", None);
    assert_eq!(response.status(), 500);
    assert_eq!(store.records.len(), 1);
}

#[test]
fn a_deleted_book_is_no_longer_listed() {
    let mut store = Store::new();
    let first = create(&mut store, &new_book()).expect("a created book");
    let second = create(&mut store, &dune("412", &[])).expect("a created book");
    assert_eq!(delete(&mut store, &first.id), Ok(first.id.clone()));
    assert_eq!(fetch(&mut store), Ok(vec![second]));
}

#[test]
fn an_insert_without_an_identifier_creates_no_book() {
    let pending = db().create_book(&new_book()).expect("a valid request");
    let created = create_book_handle(pending.complete(Ok(None)));
    assert_eq!(created, Err(MongoDbErrors::IdentityExtractionError));
    let reply = handle_rejection(&Rejection::store(MongoDbErrors::IdentityExtractionError));
    assert_eq!(reply.status, 500);
}

#[test]
fn a_document_that_holds_no_book_fails_the_list() {
    let mut store = Store::new();
    create(&mut store, &new_book()).expect("a created book");
    let mut odd = Document::new();
    odd.insert("NAME", Bson::Null);
    store.records.push(odd);
    assert_eq!(serve(&mut store, "GET", "/books", None).status(), 500);
}

#[test]
fn requests_without_a_route_are_answered_without_the_store() {
    let mut store = Store::new();
    let missing = serve(&mut store, "GET", "/shelves", None);
    assert_eq!(missing.status(), 404);
    assert_eq!(missing, failed(Rejection::not_found()));
    let method = serve(&mut store, "GET", "/book", None);
    assert_eq!(method.status(), 405);
    let body = serve(&mut store, "POST", "/book", None);
    assert_eq!(body.status(), 400);
    assert_eq!(store.calls, 0);
}

#[test]
fn the_life_of_a_book() {
    let mut store = Store::new();

    let post = serve(&mut store, "POST", "/book", Some(dune("412", &["scifi"])));
    assert_eq!(post.status(), 201);
    let created = post.book();
    assert!(is_well_formed(&created.id));
    assert_eq!(created.name, "Dune");
    assert_eq!(created.author, "Herbert");
    assert_eq!(created.number_pages, "412");
    assert_eq!(created.tags, vec!["scifi".to_string()]);

    let get = serve(&mut store, "GET", "/books", None);
    assert_eq!(get.status(), 200);
    assert!(get.books().contains(&created));

    let path = format!("/book/{}", created.id);
    let put = serve(&mut store, "PUT", path.as_str(), Some(dune("500", &["scifi", "classic"])));
    assert_eq!(put.status(), 200);
    let updated = put.book();
    assert_eq!(updated.id, created.id);
    assert_eq!(updated.number_pages, "500");
    assert_eq!(updated.tags, vec!["scifi".to_string(), "classic".to_string()]);
    assert_eq!(serve(&mut store, "GET", "/books", None).books(), vec![updated]);

    let deleted = serve(&mut store, "DELETE", path.as_str(), None);
    assert_eq!(
        deleted,
        Served::Id(Reply { status: 200, payload: Payload { data: Box::new(created.id.clone()) } })
    );

    let again = serve(&mut store, "DELETE", path.as_str(), None);
    assert_eq!(again.status(), 500);
    assert_eq!(
        delete(&mut store, &created.id),
        Err(MongoDbErrors::InvalidId(format!("Failed to delete book with id {}", created.id)))
    );
    assert!(serve(&mut store, "GET", "/books", None).books().is_empty());
}
