//! The replies that the HTTP boundary sends: a status code and a body for
//! each outcome of an operation.

use crate::error::ServiceError;
use crate::models::todo::{TodoItem, TodoItemView};
use crate::service::{item_result_view, items_view};
use vstd::prelude::*;

verus! {

/// The operation succeeded and the reply carries its result.
pub const STATUS_OK: u16 = 200;

/// The operation succeeded and there is nothing to send.
pub const STATUS_NO_CONTENT: u16 = 204;

/// The request was refused for what it holds.
pub const STATUS_BAD_REQUEST: u16 = 400;

/// No item stands under the identifier.
pub const STATUS_NOT_FOUND: u16 = 404;

/// The store failed.
pub const STATUS_SERVER_ERROR: u16 = 500;

/// What a reply carries besides its status.
#[derive(Debug, PartialEq, Eq)]
pub enum ReplyBody {
    /// Nothing.
    Empty,
    /// A line of text.
    Text(String),
    /// One item.
    Item(TodoItem),
    /// A sequence of items, which may be empty.
    Items(Vec<TodoItem>),
}

/// A reply: the status code and the body.
#[derive(Debug, PartialEq, Eq)]
pub struct HttpReply {
    pub status: u16,
    pub body: ReplyBody,
}

/// What a [`ReplyBody`] holds.
pub enum BodyView {
    Empty,
    Text(Seq<char>),
    Item(TodoItemView),
    Items(Seq<TodoItemView>),
}

/// What an [`HttpReply`] holds.
pub struct ReplyView {
    pub status: u16,
    pub body: BodyView,
}

impl View for ReplyBody {
    type V = BodyView;

    open spec fn view(&self) -> BodyView {
        match self {
            ReplyBody::Empty => BodyView::Empty,
            ReplyBody::Text(text) => BodyView::Text(text@),
            ReplyBody::Item(item) => BodyView::Item(item@),
            ReplyBody::Items(items) => BodyView::Items(items_view(items@)),
        }
    }
}

impl View for HttpReply {
    type V = ReplyView;

    open spec fn view(&self) -> ReplyView {
        ReplyView { status: self.status, body: self.body@ }
    }
}

/// The status code that reports `error`.
pub open spec fn status_of(error: ServiceError) -> u16 {
    match error {
        ServiceError::InvalidInput => STATUS_BAD_REQUEST,
        ServiceError::InvalidIdentifier => STATUS_BAD_REQUEST,
        ServiceError::NotFound => STATUS_NOT_FOUND,
        ServiceError::StorageFailure => STATUS_SERVER_ERROR,
    }
}

/// The line of text that reports `error`.
pub open spec fn message_of(error: ServiceError) -> Seq<char> {
    match error {
        ServiceError::InvalidInput => "Invalid input"@,
        ServiceError::InvalidIdentifier => "Invalid ID format"@,
        ServiceError::NotFound => "Item not found"@,
        ServiceError::StorageFailure => "Storage failure"@,
    }
}

/// The reply that reports `error`.
pub open spec fn error_reply_of(error: ServiceError) -> ReplyView {
    ReplyView { status: status_of(error), body: BodyView::Text(message_of(error)) }
}

/// The reply to a liveness probe.
pub open spec fn health_reply_of() -> ReplyView {
    ReplyView { status: STATUS_OK, body: BodyView::Text("API is running!"@) }
}

/// The reply to an operation that returns one item.
pub open spec fn item_reply_of(outcome: Result<TodoItemView, ServiceError>) -> ReplyView {
    match outcome {
        Ok(item) => ReplyView { status: STATUS_OK, body: BodyView::Item(item) },
        Err(error) => error_reply_of(error),
    }
}

/// The reply to a listing: the items, also where there are none.
pub open spec fn list_reply_of(items: Seq<TodoItemView>) -> ReplyView {
    ReplyView { status: STATUS_OK, body: BodyView::Items(items) }
}

/// The reply to a deletion.
pub open spec fn delete_reply_of(outcome: Result<(), ServiceError>) -> ReplyView {
    match outcome {
        Ok(_) => ReplyView { status: STATUS_NO_CONTENT, body: BodyView::Empty },
        Err(error) => error_reply_of(error),
    }
}

/// The reply that reports a fault of the store in the store's own words.
pub open spec fn failure_reply_of(message: Seq<char>) -> ReplyView {
    ReplyView { status: STATUS_SERVER_ERROR, body: BodyView::Text(message) }
}

/// The status code that reports `error`.
pub fn status(error: ServiceError) -> (code: u16)
    ensures
        code == status_of(error),
{
    match error {
        ServiceError::InvalidInput => STATUS_BAD_REQUEST,
        ServiceError::InvalidIdentifier => STATUS_BAD_REQUEST,
        ServiceError::NotFound => STATUS_NOT_FOUND,
        ServiceError::StorageFailure => STATUS_SERVER_ERROR,
    }
}

/// The line of text that reports `error`.
pub fn message(error: ServiceError) -> (text: &'static str)
    ensures
        text@ == message_of(error),
{
    match error {
        ServiceError::InvalidInput => "Invalid input",
        ServiceError::InvalidIdentifier => "Invalid ID format",
        ServiceError::NotFound => "Item not found",
        ServiceError::StorageFailure => "Storage failure",
    }
}

/// The reply that reports `error`.
pub fn error_reply(error: ServiceError) -> (reply: HttpReply)
    ensures
        reply@ == error_reply_of(error),
{
    HttpReply { status: status(error), body: ReplyBody::Text(message(error).to_owned()) }
}

/// The reply to a liveness probe.
pub fn health_reply() -> (reply: HttpReply)
    ensures
        reply@ == health_reply_of(),
{
    HttpReply { status: STATUS_OK, body: ReplyBody::Text("API is running!".to_owned()) }
}

/// The reply to an operation that returns one item.
pub fn item_reply(outcome: Result<TodoItem, ServiceError>) -> (reply: HttpReply)
    ensures
        reply@ == item_reply_of(item_result_view(outcome)),
{
    match outcome {
        Ok(item) => HttpReply { status: STATUS_OK, body: ReplyBody::Item(item) },
        Err(error) => error_reply(error),
    }
}

/// The reply to a listing.
pub fn list_reply(items: Vec<TodoItem>) -> (reply: HttpReply)
    ensures
        reply@ == list_reply_of(items_view(items@)),
{
    HttpReply { status: STATUS_OK, body: ReplyBody::Items(items) }
}

/// The reply to a deletion.
pub fn delete_reply(outcome: Result<(), ServiceError>) -> (reply: HttpReply)
    ensures
        reply@ == delete_reply_of(outcome),
{
    match outcome {
        Ok(_) => HttpReply { status: STATUS_NO_CONTENT, body: ReplyBody::Empty },
        Err(error) => error_reply(error),
    }
}

/// The reply that reports a fault of the store in the store's own words.
pub fn failure_reply(message: String) -> (reply: HttpReply)
    ensures
        reply@ == failure_reply_of(message@),
{
    HttpReply { status: STATUS_SERVER_ERROR, body: ReplyBody::Text(message) }
}

} // verus!
