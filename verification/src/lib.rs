//! The core of a small catalogue of books behind an HTTP service, with a
//! document store behind it.
//!
//! The core decides; it does not listen and it does not talk to the store.
//! A request goes through it in this order:
//!
//! - [`routes`] says which handler the method and the path lead to;
//! - [`db`] checks the request and says what to ask of the store, and then
//!   what the store's answer means;
//! - [`handlers`] shapes the reply to a request that was served;
//! - [`errors`] shapes the reply to one that was not.
//!
//! [`record`] says how a book is laid out in a stored document, and
//! [`pages`] and [`object_id`] how its page count and its identifier are
//! written. Only [`document`] and [`object_id`] call the store's library.

mod chars;
pub mod db;
pub mod document;
pub mod errors;
pub mod handlers;
pub mod object_id;
pub mod pages;
pub mod record;
pub mod routes;
pub mod utils;
