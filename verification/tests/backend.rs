use todo_service::backend::{
    created_reply, deleted_reply, fetched_reply, listed_reply, probed_reply, updated_reply,
};
use todo_service::ident::ItemId;
use todo_service::models::todo::{Todo, TodoItem};
use todo_service::reply::{HttpReply, ReplyBody};
use todo_service::store::StoredTodo;

fn text(status: u16, body: &str) -> HttpReply {
    HttpReply { status, body: ReplyBody::Text(body.to_string()) }
}

fn todo(title: &str, completed: bool) -> Todo {
    Todo { title: title.to_string(), completed }
}

fn one(id: &str, title: &str, completed: bool) -> HttpReply {
    HttpReply {
        status: 200,
        body: ReplyBody::Item(TodoItem { id: id.to_string(), title: title.to_string(), completed }),
    }
}

fn fault() -> String {
    "connection reset".to_string()
}

#[test]
fn created_reply_of_each_answer() {
    assert_eq!(
        created_reply(todo("a", false), Ok(Some(ItemId::from_serial(10)))),
        one("00000000000000000000000a", "a", false)
    );
    assert_eq!(created_reply(todo("a", false), Ok(None)), text(500, "Storage failure"));
    assert_eq!(created_reply(todo("a", false), Err(fault())), text(500, "connection reset"));
}

#[test]
fn listed_reply_of_each_answer() {
    let stored = vec![StoredTodo { id: ItemId::from_serial(1), todo: todo("a", true) }];
    assert_eq!(
        listed_reply(Ok(stored)),
        HttpReply {
            status: 200,
            body: ReplyBody::Items(vec![TodoItem {
                id: "000000000000000000000001".to_string(),
                title: "a".to_string(),
                completed: true,
            }]),
        }
    );
    assert_eq!(
        listed_reply(Ok(Vec::new())),
        HttpReply { status: 200, body: ReplyBody::Items(vec![]) }
    );
    assert_eq!(listed_reply(Err(fault())), text(500, "connection reset"));
}

#[test]
fn fetched_reply_of_each_answer() {
    let id = ItemId::from_serial(2);
    assert_eq!(
        fetched_reply(&id, Ok(Some(todo("a", true)))),
        one("000000000000000000000002", "a", true)
    );
    assert_eq!(fetched_reply(&id, Ok(None)), text(404, "Item not found"));
    assert_eq!(fetched_reply(&id, Err(fault())), text(500, "connection reset"));
}

#[test]
fn updated_reply_of_each_answer() {
    let id = ItemId::from_serial(3);
    assert_eq!(
        updated_reply(&id, todo("b", true), Ok(1)),
        one("000000000000000000000003", "b", true)
    );
    assert_eq!(updated_reply(&id, todo("b", true), Ok(0)), text(404, "Item not found"));
    assert_eq!(updated_reply(&id, todo("b", true), Err(fault())), text(500, "connection reset"));
}

#[test]
fn probed_reply_of_each_answer() {
    assert_eq!(probed_reply(Ok(true)), text(400, "Invalid input"));
    assert_eq!(probed_reply(Ok(false)), text(404, "Item not found"));
    assert_eq!(probed_reply(Err(fault())), text(500, "connection reset"));
}

#[test]
fn deleted_reply_of_each_answer() {
    assert_eq!(deleted_reply(Ok(1)), HttpReply { status: 204, body: ReplyBody::Empty });
    assert_eq!(deleted_reply(Ok(0)), text(404, "Item not found"));
    assert_eq!(deleted_reply(Err(fault())), text(500, "connection reset"));
}
