//! Failures of the catalogue, and the replies that report them.

use vstd::prelude::*;
use vstd::string::*;

verus! {

/// Why a field of a stored document could not be read.
#[derive(Debug, Clone, Copy, PartialEq, Eq, Structural)]
pub enum AccessFault {
    /// The document has no field of that name.
    NotPresent,
    /// The field holds a value of another type.
    UnexpectedType,
}

/// The failures of the store adapter.
#[derive(Debug, Clone, PartialEq)]
pub enum MongoDbErrors {
    /// The store failed outside a query; the text is the store's own.
    MongoError(String),
    /// The store refused or failed a query; the text is the store's own.
    InvalidQuery(String),
    /// A stored document lacks a field or holds it with another type.
    InvalidData(AccessFault),
    /// An identifier is malformed, or names no record.
    InvalidId(String),
    /// The store took a record and gave no identifier that can be read.
    IdentityExtractionError,
    /// The text, kept here, does not stand for a page count.
    InvalidNumberPages(String),
    /// No address of the store is configured.
    InvalidURL,
    /// No database name is configured.
    InvalidDbName,
    /// No collection name is configured.
    InvalidCollection,
    /// No client could be made; the text is the store's own.
    ClientError(String),
}

/// A failure with its texts as sequences of characters.
pub enum ErrorView {
    MongoError(Seq<char>),
    InvalidQuery(Seq<char>),
    InvalidData(AccessFault),
    InvalidId(Seq<char>),
    IdentityExtractionError,
    InvalidNumberPages(Seq<char>),
    InvalidURL,
    InvalidDbName,
    InvalidCollection,
    ClientError(Seq<char>),
}

impl View for MongoDbErrors {
    type V = ErrorView;

    open spec fn view(&self) -> ErrorView {
        match self {
            MongoDbErrors::MongoError(text) => ErrorView::MongoError(text@),
            MongoDbErrors::InvalidQuery(text) => ErrorView::InvalidQuery(text@),
            MongoDbErrors::InvalidData(fault) => ErrorView::InvalidData(*fault),
            MongoDbErrors::InvalidId(text) => ErrorView::InvalidId(text@),
            MongoDbErrors::IdentityExtractionError => ErrorView::IdentityExtractionError,
            MongoDbErrors::InvalidNumberPages(text) => ErrorView::InvalidNumberPages(text@),
            MongoDbErrors::InvalidURL => ErrorView::InvalidURL,
            MongoDbErrors::InvalidDbName => ErrorView::InvalidDbName,
            MongoDbErrors::InvalidCollection => ErrorView::InvalidCollection,
            MongoDbErrors::ClientError(text) => ErrorView::ClientError(text@),
        }
    }
}

/// The sentence that reports a fault of access.
pub open spec fn fault_text(fault: AccessFault) -> Seq<char> {
    match fault {
        AccessFault::NotPresent => "field is not present"@,
        AccessFault::UnexpectedType => "field does not have the expected type"@,
    }
}

/// The sentence that reports a failure.
pub open spec fn error_text(error: ErrorView) -> Seq<char> {
    match error {
        ErrorView::MongoError(text) => "mongodb error: "@ + text,
        ErrorView::InvalidQuery(text) => "mongodb query error: "@ + text,
        ErrorView::InvalidData(fault) => "mongodb data access error: "@ + fault_text(fault),
        ErrorView::InvalidId(text) => "invalid record id: "@ + text,
        ErrorView::IdentityExtractionError => "failed to extract the inserted record id"@,
        ErrorView::InvalidNumberPages(text) => "invalid number of pages: "@ + text,
        ErrorView::InvalidURL => "mongodb url not found"@,
        ErrorView::InvalidDbName => "mongodb name not found"@,
        ErrorView::InvalidCollection => "mongodb collection not found"@,
        ErrorView::ClientError(text) => "failed to create mongo client: "@ + text,
    }
}

impl AccessFault {
    /// The sentence that reports this fault.
    pub fn message(&self) -> (text: &'static str)
        ensures
            text@ == fault_text(*self),
    {
        match self {
            AccessFault::NotPresent => "field is not present",
            AccessFault::UnexpectedType => "field does not have the expected type",
        }
    }
}

impl MongoDbErrors {
    /// The sentence that reports this failure.
    pub fn message(&self) -> (text: String)
        ensures
            text@ == error_text(self@),
    {
        match self {
            MongoDbErrors::MongoError(text) => "mongodb error: ".to_owned().concat(text.as_str()),
            MongoDbErrors::InvalidQuery(text) => "mongodb query error: ".to_owned().concat(
                text.as_str(),
            ),
            MongoDbErrors::InvalidData(fault) => "mongodb data access error: ".to_owned().concat(
                fault.message(),
            ),
            MongoDbErrors::InvalidId(text) => "invalid record id: ".to_owned().concat(
                text.as_str(),
            ),
            MongoDbErrors::IdentityExtractionError => {
                "failed to extract the inserted record id".to_owned()
            },
            MongoDbErrors::InvalidNumberPages(text) => "invalid number of pages: ".to_owned().concat(
                text.as_str(),
            ),
            MongoDbErrors::InvalidURL => "mongodb url not found".to_owned(),
            MongoDbErrors::InvalidDbName => "mongodb name not found".to_owned(),
            MongoDbErrors::InvalidCollection => "mongodb collection not found".to_owned(),
            MongoDbErrors::ClientError(text) => "failed to create mongo client: ".to_owned().concat(
                text.as_str(),
            ),
        }
    }
}

/// Why a request got no answer from a handler.
///
/// Several reasons may hold of one request, as when no route took it for
/// more than one reason.
#[derive(Debug, Clone, PartialEq)]
pub struct Rejection {
    /// No route has the path.
    pub not_found: bool,
    /// The body does not read as the expected shape.
    pub invalid_body: bool,
    /// The store adapter failed, with this failure.
    pub store_error: Option<MongoDbErrors>,
    /// A route has the path, but not with the method.
    pub method_not_allowed: bool,
}

pub const STATUS_OK: u16 = 200;

pub const STATUS_CREATED: u16 = 201;

pub const STATUS_BAD_REQUEST: u16 = 400;

pub const STATUS_NOT_FOUND: u16 = 404;

pub const STATUS_METHOD_NOT_ALLOWED: u16 = 405;

pub const STATUS_INTERNAL_SERVER_ERROR: u16 = 500;

/// The rejection of a request on which the store adapter failed with `error`.
pub open spec fn store_rejection(error: MongoDbErrors) -> Rejection {
    Rejection {
        not_found: false,
        invalid_body: false,
        store_error: Some(error),
        method_not_allowed: false,
    }
}

impl Rejection {
    /// The rejection of a request whose path no route has.
    pub fn not_found() -> (rejection: Rejection)
        ensures
            rejection.not_found,
            !rejection.invalid_body,
            rejection.store_error is None,
            !rejection.method_not_allowed,
    {
        Rejection {
            not_found: true,
            invalid_body: false,
            store_error: None,
            method_not_allowed: false,
        }
    }

    /// The rejection of a request whose body does not read.
    pub fn invalid_body() -> (rejection: Rejection)
        ensures
            !rejection.not_found,
            rejection.invalid_body,
            rejection.store_error is None,
            !rejection.method_not_allowed,
    {
        Rejection {
            not_found: false,
            invalid_body: true,
            store_error: None,
            method_not_allowed: false,
        }
    }

    /// The rejection of a request whose path has no route with its method.
    pub fn method_not_allowed() -> (rejection: Rejection)
        ensures
            !rejection.not_found,
            !rejection.invalid_body,
            rejection.store_error is None,
            rejection.method_not_allowed,
    {
        Rejection {
            not_found: false,
            invalid_body: false,
            store_error: None,
            method_not_allowed: true,
        }
    }

    /// The rejection of a request on which the store adapter failed.
    pub fn store(error: MongoDbErrors) -> (rejection: Rejection)
        ensures
            rejection == store_rejection(error),
    {
        Rejection {
            not_found: false,
            invalid_body: false,
            store_error: Some(error),
            method_not_allowed: false,
        }
    }
}

/// The body of a reply that reports a failure.
#[derive(Debug, Clone, PartialEq)]
pub struct ErrorResponse {
    pub message: String,
}

/// A reply that reports a failure: a status and a body.
#[derive(Debug, Clone, PartialEq)]
pub struct ErrorReply {
    pub status: u16,
    pub body: ErrorResponse,
}

/// The status that reports a rejection.
pub open spec fn rejection_status(rejection: Rejection) -> u16 {
    if rejection.not_found {
        STATUS_NOT_FOUND
    } else if rejection.invalid_body {
        STATUS_BAD_REQUEST
    } else if rejection.store_error is Some {
        STATUS_INTERNAL_SERVER_ERROR
    } else if rejection.method_not_allowed {
        STATUS_METHOD_NOT_ALLOWED
    } else {
        STATUS_INTERNAL_SERVER_ERROR
    }
}

/// The message that reports a rejection.
pub open spec fn rejection_message(rejection: Rejection) -> Seq<char> {
    if rejection.not_found {
        "Not Found"@
    } else if rejection.invalid_body {
        "Invalid Body"@
    } else if rejection.store_error is Some {
        "Internal Server Error"@
    } else if rejection.method_not_allowed {
        "Method not allowed"@
    } else {
        "Internal Server Error"@
    }
}

/// Turns a rejection into the reply that reports it.
///
/// A path without a route comes first, then a body that does not read, then
/// a failure of the store adapter, then a method without a route; anything
/// else is reported as a failure of the server.
pub fn handle_rejection(err: &Rejection) -> (reply: ErrorReply)
    ensures
        reply.status == rejection_status(*err),
        reply.body.message@ == rejection_message(*err),
{
    let (status, message) = if err.not_found {
        (STATUS_NOT_FOUND, "Not Found")
    } else if err.invalid_body {
        (STATUS_BAD_REQUEST, "Invalid Body")
    } else if err.store_error.is_some() {
        (STATUS_INTERNAL_SERVER_ERROR, "Internal Server Error")
    } else if err.method_not_allowed {
        (STATUS_METHOD_NOT_ALLOWED, "Method not allowed")
    } else {
        (STATUS_INTERNAL_SERVER_ERROR, "Internal Server Error")
    };
    ErrorReply { status, body: ErrorResponse { message: message.to_owned() } }
}

/// Whatever the failure of the store adapter, be it a malformed identifier,
/// a page count that is none, or a record that is not there, the reply has
/// the status and the message of a failure of the server.
pub proof fn lemma_store_errors_are_server_errors(error: MongoDbErrors)
    ensures
        rejection_status(store_rejection(error)) == 500,
        rejection_message(store_rejection(error)) == "Internal Server Error"@,
{
}

} // verus!
