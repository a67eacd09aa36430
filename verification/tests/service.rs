use todo_service::error::ServiceError;
use todo_service::ident::ItemId;
use todo_service::models::todo::{Todo, TodoCreateRequest, TodoItem};
use todo_service::service::{
    check_payload, draft, found, inserted, plan_update, refused_update, removed, render,
    render_all, replaced, ItemService, UpdateStep,
};
use todo_service::store::StoredTodo;

fn request(title: &str) -> TodoCreateRequest {
    TodoCreateRequest { title: title.to_string() }
}

fn todo(title: &str, completed: bool) -> Todo {
    Todo { title: title.to_string(), completed }
}

fn item(id: &str, title: &str, completed: bool) -> TodoItem {
    TodoItem { id: id.to_string(), title: title.to_string(), completed }
}

const ABSENT: &str = "53e37d08776f724e42000000";

#[test]
fn draft_starts_not_completed() {
    assert_eq!(draft(Some(&request("Buy milk"))), Ok(todo("Buy milk", false)));
}

#[test]
fn draft_refuses_an_empty_title() {
    assert_eq!(draft(Some(&request(""))), Err(ServiceError::InvalidInput));
}

#[test]
fn draft_refuses_a_missing_payload() {
    assert_eq!(draft(None), Err(ServiceError::InvalidInput));
}

#[test]
fn draft_keeps_a_title_of_blanks() {
    assert_eq!(draft(Some(&request(" "))), Ok(todo(" ", false)));
}

#[test]
fn check_payload_wants_a_title() {
    assert_eq!(check_payload(&todo("a", true)), Ok(()));
    assert_eq!(check_payload(&todo("", true)), Err(ServiceError::InvalidInput));
}

#[test]
fn plan_update_looks_at_the_identifier_first() {
    assert_eq!(plan_update("nonsense", &todo("", true)), Err(ServiceError::InvalidIdentifier));
    assert_eq!(plan_update("nonsense", &todo("a", true)), Err(ServiceError::InvalidIdentifier));
}

#[test]
fn plan_update_only_probes_for_a_payload_without_title() {
    let id = ItemId::parse(ABSENT).unwrap();
    assert_eq!(plan_update(ABSENT, &todo("", true)), Ok(UpdateStep::Probe(id)));
}

#[test]
fn plan_update_replaces_for_a_payload_with_title() {
    assert_eq!(
        plan_update("0000000000000000000000FF", &todo("a", true)),
        Ok(UpdateStep::Replace(ItemId::from_serial(255)))
    );
}

#[test]
fn refused_update_goes_by_the_presence_of_the_item() {
    assert_eq!(refused_update(true), ServiceError::InvalidInput);
    assert_eq!(refused_update(false), ServiceError::NotFound);
}

#[test]
fn render_writes_the_identifier_as_text() {
    assert_eq!(
        render(&ItemId::from_serial(0x1f), todo("a", true)),
        item("00000000000000000000001f", "a", true)
    );
}

#[test]
fn render_all_keeps_the_order() {
    let stored = vec![
        StoredTodo { id: ItemId::from_serial(2), todo: todo("b", true) },
        StoredTodo { id: ItemId::from_serial(1), todo: todo("a", false) },
    ];
    assert_eq!(
        render_all(stored),
        vec![
            item("000000000000000000000002", "b", true),
            item("000000000000000000000001", "a", false),
        ]
    );
    assert_eq!(render_all(Vec::new()), Vec::<TodoItem>::new());
}

#[test]
fn inserted_reports_the_assigned_identifier() {
    assert_eq!(
        inserted(Some(ItemId::from_serial(3)), todo("a", false)),
        Ok(item("000000000000000000000003", "a", false))
    );
}

#[test]
fn inserted_without_identifier_is_a_storage_failure() {
    assert_eq!(inserted(None, todo("a", false)), Err(ServiceError::StorageFailure));
}

#[test]
fn found_reports_what_the_store_holds() {
    let id = ItemId::parse("53E37D08776F724E42000000").unwrap();
    assert_eq!(found(&id, Some(todo("a", true))), Ok(item(ABSENT, "a", true)));
    assert_eq!(found(&id, None), Err(ServiceError::NotFound));
}

#[test]
fn replaced_goes_by_the_number_of_matches() {
    let id = ItemId::from_serial(1);
    assert_eq!(replaced(&id, todo("a", true), 0), Err(ServiceError::NotFound));
    assert_eq!(
        replaced(&id, todo("a", true), 1),
        Ok(item("000000000000000000000001", "a", true))
    );
    assert_eq!(
        replaced(&id, todo("a", true), 2),
        Ok(item("000000000000000000000001", "a", true))
    );
}

#[test]
fn removed_goes_by_the_number_of_deletions() {
    assert_eq!(removed(0), Err(ServiceError::NotFound));
    assert_eq!(removed(1), Ok(()));
    assert_eq!(removed(u64::MAX), Ok(()));
}

#[test]
fn create_then_get_returns_the_item() {
    let mut service = ItemService::new();
    let created = service.create(Some(&request("Read 20 pages of Python book"))).unwrap();
    assert_eq!(created.title, "Read 20 pages of Python book");
    assert!(!created.completed);
    assert_eq!(created.id, "000000000000000000000000");
    assert_eq!(service.get(&created.id), Ok(created));
}

#[test]
fn create_without_title_fails_and_changes_nothing() {
    let mut service = ItemService::new();
    service.create(Some(&request("a"))).unwrap();
    let before = service.list();
    assert_eq!(service.create(Some(&request(""))), Err(ServiceError::InvalidInput));
    assert_eq!(service.create(None), Err(ServiceError::InvalidInput));
    assert_eq!(service.list(), before);
    // The identifier that the refused requests did not use goes to the next item.
    assert_eq!(service.create(Some(&request("b"))).unwrap().id, "000000000000000000000001");
}

#[test]
fn absent_identifier_is_not_found() {
    let mut service = ItemService::new();
    assert_eq!(service.get(ABSENT), Err(ServiceError::NotFound));
    assert_eq!(service.update(ABSENT, &todo("a", true)), Err(ServiceError::NotFound));
    assert_eq!(service.delete(ABSENT), Err(ServiceError::NotFound));
    assert_eq!(service.list(), Vec::<TodoItem>::new());
}

#[test]
fn removed_identifier_is_not_found() {
    let mut service = ItemService::new();
    let created = service.create(Some(&request("a"))).unwrap();
    assert_eq!(service.delete(&created.id), Ok(()));
    assert_eq!(service.get(&created.id), Err(ServiceError::NotFound));
    assert_eq!(service.update(&created.id, &todo("b", true)), Err(ServiceError::NotFound));
    assert_eq!(service.delete(&created.id), Err(ServiceError::NotFound));
    let next = service.create(Some(&request("c"))).unwrap();
    assert_ne!(next.id, created.id);
    assert_eq!(service.get(&created.id), Err(ServiceError::NotFound));
}

#[test]
fn malformed_identifier_is_refused() {
    let mut service = ItemService::new();
    service.create(Some(&request("a"))).unwrap();
    for id in ["", "0", "00000000000000000000000", "00000000000000000000000g", "not an id"] {
        assert_eq!(service.get(id), Err(ServiceError::InvalidIdentifier));
        assert_eq!(service.update(id, &todo("b", true)), Err(ServiceError::InvalidIdentifier));
        assert_eq!(service.delete(id), Err(ServiceError::InvalidIdentifier));
    }
    assert_eq!(service.list(), vec![item("000000000000000000000000", "a", false)]);
}

#[test]
fn update_then_get_returns_the_new_state() {
    let mut service = ItemService::new();
    let created = service.create(Some(&request("t1"))).unwrap();
    let updated = service.update(&created.id, &todo("t2", true)).unwrap();
    assert_eq!(updated, item(&created.id, "t2", true));
    assert_eq!(service.get(&created.id), Ok(item(&created.id, "t2", true)));
}

#[test]
fn update_can_clear_the_flag() {
    let mut service = ItemService::new();
    let created = service.create(Some(&request("t1"))).unwrap();
    service.update(&created.id, &todo("t1", true)).unwrap();
    assert_eq!(service.update(&created.id, &todo("t1", false)), Ok(item(&created.id, "t1", false)));
    assert_eq!(service.get(&created.id), Ok(item(&created.id, "t1", false)));
}

#[test]
fn update_with_an_empty_title_is_refused_and_changes_nothing() {
    let mut service = ItemService::new();
    let created = service.create(Some(&request("t1"))).unwrap();
    assert_eq!(service.update(&created.id, &todo("", true)), Err(ServiceError::InvalidInput));
    assert_eq!(service.get(&created.id), Ok(item(&created.id, "t1", false)));
}

#[test]
fn update_of_an_absent_identifier_is_not_found_whatever_the_title() {
    let mut service = ItemService::new();
    let created = service.create(Some(&request("t1"))).unwrap();
    assert_eq!(service.update(ABSENT, &todo("", true)), Err(ServiceError::NotFound));
    assert_eq!(service.update(ABSENT, &todo("", false)), Err(ServiceError::NotFound));
    assert_eq!(service.update(ABSENT, &todo("t2", true)), Err(ServiceError::NotFound));
    assert_eq!(service.delete(&created.id), Ok(()));
    assert_eq!(service.update(&created.id, &todo("", true)), Err(ServiceError::NotFound));
    assert_eq!(service.list(), Vec::<TodoItem>::new());
}

#[test]
fn update_of_a_malformed_identifier_without_title_is_an_invalid_identifier() {
    let mut service = ItemService::new();
    assert_eq!(service.update("42", &todo("", true)), Err(ServiceError::InvalidIdentifier));
}

#[test]
fn update_leaves_the_other_items_alone() {
    let mut service = ItemService::new();
    let a = service.create(Some(&request("a"))).unwrap();
    let b = service.create(Some(&request("b"))).unwrap();
    let c = service.create(Some(&request("c"))).unwrap();
    service.update(&b.id, &todo("B", true)).unwrap();
    assert_eq!(
        service.list(),
        vec![item(&a.id, "a", false), item(&b.id, "B", true), item(&c.id, "c", false)]
    );
}

#[test]
fn identifier_is_found_in_either_case() {
    let mut service = ItemService::new();
    for _ in 0..11 {
        service.create(Some(&request("x"))).unwrap();
    }
    let a = service.create(Some(&request("a"))).unwrap();
    assert_eq!(a.id, "00000000000000000000000b");
    assert_eq!(service.get("00000000000000000000000B"), Ok(item(&a.id, "a", false)));
    assert_eq!(
        service.update("00000000000000000000000B", &todo("A", true)),
        Ok(item("00000000000000000000000b", "A", true))
    );
    assert_eq!(service.delete("00000000000000000000000B"), Ok(()));
    assert_eq!(service.get(&a.id), Err(ServiceError::NotFound));
}

#[test]
fn delete_then_list_omits_the_item() {
    let mut service = ItemService::new();
    let a = service.create(Some(&request("a"))).unwrap();
    let b = service.create(Some(&request("b"))).unwrap();
    let c = service.create(Some(&request("c"))).unwrap();
    assert_eq!(service.delete(&b.id), Ok(()));
    assert_eq!(service.get(&b.id), Err(ServiceError::NotFound));
    assert_eq!(service.list(), vec![item(&a.id, "a", false), item(&c.id, "c", false)]);
}

#[test]
fn list_of_an_empty_store_is_empty() {
    let service = ItemService::new();
    assert_eq!(service.list(), Vec::<TodoItem>::new());
}

#[test]
fn creates_get_distinct_identifiers_and_are_all_listed() {
    let mut service = ItemService::new();
    let mut created = Vec::new();
    for n in 0..40 {
        created.push(service.create(Some(&request(&format!("item {}", n)))).unwrap());
    }
    for i in 0..created.len() {
        for j in 0..i {
            assert_ne!(created[i].id, created[j].id);
        }
    }
    assert_eq!(service.list(), created);
}

#[test]
fn same_title_twice_gives_two_items() {
    let mut service = ItemService::new();
    let one = service.create(Some(&request("a"))).unwrap();
    let two = service.create(Some(&request("a"))).unwrap();
    assert_ne!(one.id, two.id);
    assert_eq!(service.list().len(), 2);
}
