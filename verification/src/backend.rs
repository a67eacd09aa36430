//! The replies for a store that sits behind a network. Each function takes
//! what the store answered to the one call of an operation, or the words of
//! the fault that kept it from answering, and gives the reply to send. A
//! fault is always reported as a failure of the server.

use crate::error::ServiceError;
use crate::ident::ItemId;
use crate::models::todo::{Todo, TodoItemView};
use crate::reply::{
    delete_reply, delete_reply_of, error_reply, error_reply_of, failure_reply, failure_reply_of,
    item_reply, item_reply_of, list_reply, list_reply_of, HttpReply,
};
use crate::service::{
    found, inserted, item_of, items_of, refused_update, removed, render_all, replaced,
    update_refusal,
};
use crate::store::{records_of, StoredTodo};
use vstd::prelude::*;

verus! {

/// The reply to a creation: `outcome` holds the identifier that the store
/// assigned to `todo`, or none where it stored nothing.
pub fn created_reply(todo: Todo, outcome: Result<Option<ItemId>, String>) -> (reply: HttpReply)
    ensures
        reply@ == (match outcome {
            Ok(Some(id)) => item_reply_of(Ok(item_of(id@, todo@))),
            Ok(None) => error_reply_of(ServiceError::StorageFailure),
            Err(message) => failure_reply_of(message@),
        }),
{
    match outcome {
        Ok(assigned) => item_reply(inserted(assigned, todo)),
        Err(message) => failure_reply(message),
    }
}

/// The reply to a listing: `outcome` holds what the store holds, in its
/// order.
pub fn listed_reply(outcome: Result<Vec<StoredTodo>, String>) -> (reply: HttpReply)
    ensures
        reply@ == (match outcome {
            Ok(stored) => list_reply_of(items_of(records_of(stored@))),
            Err(message) => failure_reply_of(message@),
        }),
{
    match outcome {
        Ok(stored) => list_reply(render_all(stored)),
        Err(message) => failure_reply(message),
    }
}

/// The reply to a fetch: `outcome` holds what the store holds under `id`.
pub fn fetched_reply(id: &ItemId, outcome: Result<Option<Todo>, String>) -> (reply: HttpReply)
    ensures
        reply@ == (match outcome {
            Ok(Some(todo)) => item_reply_of(Ok(item_of(id@, todo@))),
            Ok(None) => error_reply_of(ServiceError::NotFound),
            Err(message) => failure_reply_of(message@),
        }),
{
    match outcome {
        Ok(stored) => item_reply(found(id, stored)),
        Err(message) => failure_reply(message),
    }
}

/// The reply to a replacement that reached the store: `outcome` holds the
/// number of items that the store found under `id` and replaced by `payload`.
pub fn updated_reply(id: &ItemId, payload: Todo, outcome: Result<u64, String>) -> (reply: HttpReply)
    ensures
        reply@ == (match outcome {
            Ok(matched) => item_reply_of(
                if matched > 0 {
                    Ok::<TodoItemView, ServiceError>(item_of(id@, payload@))
                } else {
                    Err(ServiceError::NotFound)
                },
            ),
            Err(message) => failure_reply_of(message@),
        }),
{
    match outcome {
        Ok(matched) => item_reply(replaced(id, payload, matched)),
        Err(message) => failure_reply(message),
    }
}

/// The reply to a replacement whose payload cannot be stored: `outcome` says
/// whether the store holds an item under the identifier.
pub fn probed_reply(outcome: Result<bool, String>) -> (reply: HttpReply)
    ensures
        reply@ == (match outcome {
            Ok(present) => error_reply_of(update_refusal(present)),
            Err(message) => failure_reply_of(message@),
        }),
{
    match outcome {
        Ok(present) => error_reply(refused_update(present)),
        Err(message) => failure_reply(message),
    }
}

/// The reply to a deletion: `outcome` holds the number of items that the
/// store took out.
pub fn deleted_reply(outcome: Result<u64, String>) -> (reply: HttpReply)
    ensures
        reply@ == (match outcome {
            Ok(deleted) => delete_reply_of(
                if deleted > 0 {
                    Ok::<(), ServiceError>(())
                } else {
                    Err(ServiceError::NotFound)
                },
            ),
            Err(message) => failure_reply_of(message@),
        }),
{
    match outcome {
        Ok(deleted) => delete_reply(removed(deleted)),
        Err(message) => failure_reply(message),
    }
}

} // verus!
