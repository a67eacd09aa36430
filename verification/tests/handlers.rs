use todo_service::error::ServiceError;
use todo_service::handlers::{create_todo, delete_todo, get_todo, get_todos, health, update_todo};
use todo_service::models::todo::{Todo, TodoCreateRequest, TodoItem};
use todo_service::reply::{
    delete_reply, error_reply, failure_reply, health_reply, item_reply, list_reply, message,
    status, HttpReply, ReplyBody, STATUS_BAD_REQUEST, STATUS_NOT_FOUND, STATUS_NO_CONTENT,
    STATUS_OK, STATUS_SERVER_ERROR,
};
use todo_service::service::ItemService;

fn text(status: u16, body: &str) -> HttpReply {
    HttpReply { status, body: ReplyBody::Text(body.to_string()) }
}

fn item(id: &str, title: &str, completed: bool) -> TodoItem {
    TodoItem { id: id.to_string(), title: title.to_string(), completed }
}

#[test]
fn status_codes() {
    assert_eq!(STATUS_OK, 200);
    assert_eq!(STATUS_NO_CONTENT, 204);
    assert_eq!(STATUS_BAD_REQUEST, 400);
    assert_eq!(STATUS_NOT_FOUND, 404);
    assert_eq!(STATUS_SERVER_ERROR, 500);
}

#[test]
fn status_of_each_error() {
    assert_eq!(status(ServiceError::InvalidInput), 400);
    assert_eq!(status(ServiceError::InvalidIdentifier), 400);
    assert_eq!(status(ServiceError::NotFound), 404);
    assert_eq!(status(ServiceError::StorageFailure), 500);
}

#[test]
fn message_of_each_error() {
    assert_eq!(message(ServiceError::InvalidInput), "Invalid input");
    assert_eq!(message(ServiceError::InvalidIdentifier), "Invalid ID format");
    assert_eq!(message(ServiceError::NotFound), "Item not found");
    assert_eq!(message(ServiceError::StorageFailure), "Storage failure");
}

#[test]
fn error_reply_of_each_error() {
    assert_eq!(error_reply(ServiceError::InvalidInput), text(400, "Invalid input"));
    assert_eq!(error_reply(ServiceError::InvalidIdentifier), text(400, "Invalid ID format"));
    assert_eq!(error_reply(ServiceError::NotFound), text(404, "Item not found"));
    assert_eq!(error_reply(ServiceError::StorageFailure), text(500, "Storage failure"));
}

#[test]
fn failure_reply_carries_the_words_of_the_store() {
    assert_eq!(failure_reply("connection refused".to_string()), text(500, "connection refused"));
}

#[test]
fn health_reply_says_that_the_service_runs() {
    assert_eq!(health_reply(), text(200, "API is running!"));
    assert_eq!(health(), text(200, "API is running!"));
}

#[test]
fn item_reply_of_a_success_and_of_a_failure() {
    assert_eq!(
        item_reply(Ok(item("000000000000000000000000", "a", true))),
        HttpReply {
            status: 200,
            body: ReplyBody::Item(item("000000000000000000000000", "a", true)),
        }
    );
    assert_eq!(item_reply(Err(ServiceError::NotFound)), text(404, "Item not found"));
}

#[test]
fn list_reply_of_no_items_is_a_success() {
    assert_eq!(list_reply(Vec::new()), HttpReply { status: 200, body: ReplyBody::Items(vec![]) });
}

#[test]
fn delete_reply_of_a_success_and_of_a_failure() {
    assert_eq!(delete_reply(Ok(())), HttpReply { status: 204, body: ReplyBody::Empty });
    assert_eq!(delete_reply(Err(ServiceError::NotFound)), text(404, "Item not found"));
    assert_eq!(delete_reply(Err(ServiceError::InvalidIdentifier)), text(400, "Invalid ID format"));
}

#[test]
fn get_todos_on_an_empty_store() {
    let service = ItemService::new();
    assert_eq!(get_todos(&service), HttpReply { status: 200, body: ReplyBody::Items(vec![]) });
}

#[test]
fn create_todo_without_title_is_a_bad_request() {
    let mut service = ItemService::new();
    let empty = TodoCreateRequest { title: String::new() };
    assert_eq!(create_todo(&mut service, Some(&empty)), text(400, "Invalid input"));
    assert_eq!(create_todo(&mut service, None), text(400, "Invalid input"));
    assert_eq!(get_todos(&service), HttpReply { status: 200, body: ReplyBody::Items(vec![]) });
}

#[test]
fn malformed_identifier_is_a_bad_request() {
    let mut service = ItemService::new();
    let payload = Todo { title: "a".to_string(), completed: true };
    assert_eq!(get_todo(&service, "42"), text(400, "Invalid ID format"));
    assert_eq!(update_todo(&mut service, "42", &payload), text(400, "Invalid ID format"));
    assert_eq!(delete_todo(&mut service, "42"), text(400, "Invalid ID format"));
}

#[test]
fn absent_identifier_is_a_not_found() {
    let mut service = ItemService::new();
    let payload = Todo { title: "a".to_string(), completed: true };
    let id = "53e37d08776f724e42000000";
    let untitled = Todo { title: String::new(), completed: true };
    assert_eq!(get_todo(&service, id), text(404, "Item not found"));
    assert_eq!(update_todo(&mut service, id, &payload), text(404, "Item not found"));
    assert_eq!(update_todo(&mut service, id, &untitled), text(404, "Item not found"));
    assert_eq!(delete_todo(&mut service, id), text(404, "Item not found"));
}

#[test]
fn update_todo_without_title_is_a_bad_request_where_the_item_is_held() {
    let mut service = ItemService::new();
    create_todo(&mut service, Some(&TodoCreateRequest { title: "a".to_string() }));
    let untitled = Todo { title: String::new(), completed: true };
    assert_eq!(
        update_todo(&mut service, "000000000000000000000000", &untitled),
        text(400, "Invalid input")
    );
    assert_eq!(
        get_todo(&service, "000000000000000000000000"),
        HttpReply {
            status: 200,
            body: ReplyBody::Item(item("000000000000000000000000", "a", false)),
        }
    );
}

#[test]
fn buy_milk_from_creation_to_deletion() {
    let mut service = ItemService::new();
    let request = TodoCreateRequest { title: "Buy milk".to_string() };
    let created = create_todo(&mut service, Some(&request));
    assert_eq!(created.status, 200);
    let x = match created.body {
        ReplyBody::Item(item) => {
            assert_eq!(item.title, "Buy milk");
            assert!(!item.completed);
            item.id
        }
        other => panic!("no item in {:?}", other),
    };
    assert_eq!(
        get_todo(&service, &x),
        HttpReply { status: 200, body: ReplyBody::Item(item(&x, "Buy milk", false)) }
    );
    let payload = Todo { title: "Buy milk and eggs".to_string(), completed: true };
    assert_eq!(
        update_todo(&mut service, &x, &payload),
        HttpReply { status: 200, body: ReplyBody::Item(item(&x, "Buy milk and eggs", true)) }
    );
    assert_eq!(
        delete_todo(&mut service, &x),
        HttpReply { status: 204, body: ReplyBody::Empty }
    );
    assert_eq!(get_todo(&service, &x), text(404, "Item not found"));
}

#[test]
fn get_todos_lists_what_was_created() {
    let mut service = ItemService::new();
    create_todo(&mut service, Some(&TodoCreateRequest { title: "a".to_string() }));
    create_todo(&mut service, Some(&TodoCreateRequest { title: "b".to_string() }));
    assert_eq!(
        get_todos(&service),
        HttpReply {
            status: 200,
            body: ReplyBody::Items(vec![
                item("000000000000000000000000", "a", false),
                item("000000000000000000000001", "b", false),
            ]),
        }
    );
}
