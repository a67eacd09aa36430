//! The request handlers over the in-memory service: each carries out one
//! operation and gives the reply to send.

use crate::models::todo::{Todo, TodoCreateRequest};
use crate::reply::{
    delete_reply, delete_reply_of, health_reply, health_reply_of, item_reply, item_reply_of,
    list_reply, list_reply_of, HttpReply,
};
use crate::service::{
    create_effect, create_outcome, delete_effect, delete_outcome, get_outcome, list_outcome,
    title_of, titled, update_effect, update_outcome, ItemService,
};
use vstd::prelude::*;

verus! {

/// `GET /health`: says that the service is up.
pub fn health() -> (reply: HttpReply)
    ensures
        reply@ == health_reply_of(),
{
    health_reply()
}

/// `POST /todos`: creates an item and sends it back.
pub fn create_todo(service: &mut ItemService, todo_request: Option<&TodoCreateRequest>) -> (reply:
    HttpReply)
    ensures
        reply@ == item_reply_of(create_outcome(old(service)@, title_of(todo_request))),
        final(service)@ == create_effect(old(service)@, title_of(todo_request)),
        final(service)@.wf(),
        titled(final(service)@),
{
    item_reply(service.create(todo_request))
}

/// `GET /todos`: sends all items.
pub fn get_todos(service: &ItemService) -> (reply: HttpReply)
    ensures
        reply@ == list_reply_of(list_outcome(service@)),
        service@.wf(),
        titled(service@),
{
    list_reply(service.list())
}

/// `GET /todos/{id}`: sends the item under `todo_id`.
pub fn get_todo(service: &ItemService, todo_id: &str) -> (reply: HttpReply)
    ensures
        reply@ == item_reply_of(get_outcome(service@, todo_id@)),
        service@.wf(),
        titled(service@),
{
    item_reply(service.get(todo_id))
}

/// `PUT /todos/{id}`: replaces the item under `todo_id` and sends it back.
pub fn update_todo(service: &mut ItemService, todo_id: &str, updated_todo: &Todo) -> (reply:
    HttpReply)
    ensures
        reply@ == item_reply_of(update_outcome(old(service)@, todo_id@, updated_todo@)),
        final(service)@ == update_effect(old(service)@, todo_id@, updated_todo@),
        final(service)@.wf(),
        titled(final(service)@),
{
    item_reply(service.update(todo_id, updated_todo))
}

/// `DELETE /todos/{id}`: deletes the item under `todo_id`.
pub fn delete_todo(service: &mut ItemService, todo_id: &str) -> (reply: HttpReply)
    ensures
        reply@ == delete_reply_of(delete_outcome(old(service)@, todo_id@)),
        final(service)@ == delete_effect(old(service)@, todo_id@),
        final(service)@.wf(),
        titled(final(service)@),
{
    delete_reply(service.delete(todo_id))
}

} // verus!
