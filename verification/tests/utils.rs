use rust_mongo::handlers::Book;
use rust_mongo::handlers::Payload;
use rust_mongo::utils::edit_book;
use rust_mongo::utils::get_book_id;
use rust_mongo::utils::new_book;

#[test]
fn the_sample_book_to_create() {
    let book = new_book();
    assert_eq!(
        book,
        Book {
            id: "1".to_string(),
            name: "Sample Book".to_string(),
            author: "John Doe".to_string(),
            number_pages: 200.to_string(),
            tags: vec!["fiction".to_string(), "adventure".to_string()],
        }
    );
}

#[test]
fn the_sample_book_to_edit() {
    let book = edit_book();
    assert_eq!(
        book,
        Book {
            id: "1".to_string(),
            name: "Edited name".to_string(),
            author: "Edited author".to_string(),
            number_pages: 200.to_string(),
            tags: vec!["fiction".to_string(), "adventure".to_string()],
        }
    );
}

#[test]
fn the_first_identifier_of_a_list() {
    let mut first = new_book();
    first.id = "65f1c0ffee0123456789abcd".to_string();
    let mut second = edit_book();
    second.id = "000000000000000000000000".to_string();
    let list = Payload { data: Box::new(vec![first, second]) };
    assert_eq!(get_book_id(&list), "65f1c0ffee0123456789abcd");
}

#[test]
fn the_identifier_of_a_list_of_one() {
    let list = Payload { data: Box::new(vec![edit_book()]) };
    assert_eq!(get_book_id(&list), "1");
}
