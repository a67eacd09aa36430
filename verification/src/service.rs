//! The item service: validation, identifier handling and the outcome of each
//! of the five operations, stated over the state of a store.
//!
//! The first half of this file says what each operation does, as functions on
//! a [`StoreModel`]. The functions of the second half make the decisions one
//! by one, on plain values, so that a caller whose store sits behind a network
//! can use them around its own calls. [`ItemService`] puts them together over
//! a [`MemoryStore`].

use crate::error::ServiceError;
use crate::ident::{id_of_text, is_id_text, text_of_id, ItemId};
use crate::laws::{law_create_then_get, law_delete_then_get, law_update_then_get};
use crate::models::todo::{Todo, TodoCreateRequest, TodoItem, TodoItemView, TodoView};
use crate::store::{records_of, MemoryStore, Record, StoreModel, StoredTodo};
use vstd::prelude::*;

verus! {

/// Whether `title` may be stored: it is not empty.
pub open spec fn is_title(title: Seq<char>) -> bool {
    title.len() > 0
}

/// Whether every stored title is one that may be stored.
pub open spec fn titled(state: StoreModel) -> bool {
    forall|i: int| 0 <= i < state.records.len() ==> is_title((#[trigger] state.records[i]).todo.title)
}

/// The item that callers see for what is stored under `id`.
pub open spec fn item_of(id: Seq<u8>, todo: TodoView) -> TodoItemView {
    TodoItemView { id: text_of_id(id), title: todo.title, completed: todo.completed }
}

/// The items that callers see for a sequence of records.
pub open spec fn items_of(records: Seq<Record>) -> Seq<TodoItemView> {
    records.map_values(|record: Record| item_of(record.id, record.todo))
}

/// What a new item starts as: the given title, not completed. A title that
/// is missing or empty is refused.
pub open spec fn draft_of(title: Option<Seq<char>>) -> Result<TodoView, ServiceError> {
    match title {
        Some(text) => if is_title(text) {
            Ok(TodoView { title: text, completed: false })
        } else {
            Err(ServiceError::InvalidInput)
        },
        None => Err(ServiceError::InvalidInput),
    }
}

/// Whether a replacement may be stored.
pub open spec fn payload_check(payload: TodoView) -> Result<(), ServiceError> {
    if is_title(payload.title) {
        Ok(())
    } else {
        Err(ServiceError::InvalidInput)
    }
}

/// What creating an item returns.
pub open spec fn create_outcome(state: StoreModel, title: Option<Seq<char>>) -> Result<
    TodoItemView,
    ServiceError,
> {
    match draft_of(title) {
        Ok(todo) => if state.has_room() {
            Ok(item_of(state.next_id(), todo))
        } else {
            Err(ServiceError::StorageFailure)
        },
        Err(error) => Err(error),
    }
}

/// The store after creating an item.
pub open spec fn create_effect(state: StoreModel, title: Option<Seq<char>>) -> StoreModel {
    match draft_of(title) {
        Ok(todo) => state.insert(todo),
        Err(_) => state,
    }
}

/// What fetching the item under the identifier written as `id` returns.
pub open spec fn get_outcome(state: StoreModel, id: Seq<char>) -> Result<
    TodoItemView,
    ServiceError,
> {
    if !is_id_text(id) {
        Err(ServiceError::InvalidIdentifier)
    } else {
        match state.get(id_of_text(id)) {
            Some(todo) => Ok(item_of(id_of_text(id), todo)),
            None => Err(ServiceError::NotFound),
        }
    }
}

/// What replacing the item under `id` by `payload` returns. The identifier
/// is looked at first, then whether the store holds an item under it, then
/// the payload: under an identifier that the store does not hold the answer
/// is `NotFound`, whatever the payload.
pub open spec fn update_outcome(state: StoreModel, id: Seq<char>, payload: TodoView) -> Result<
    TodoItemView,
    ServiceError,
> {
    if !is_id_text(id) {
        Err(ServiceError::InvalidIdentifier)
    } else if !state.contains(id_of_text(id)) {
        Err(ServiceError::NotFound)
    } else if !is_title(payload.title) {
        Err(ServiceError::InvalidInput)
    } else {
        Ok(item_of(id_of_text(id), payload))
    }
}

/// Why a replacement whose payload cannot be stored is refused: for the
/// payload where the store holds the item, else because there is no item.
pub open spec fn update_refusal(present: bool) -> ServiceError {
    if present {
        ServiceError::InvalidInput
    } else {
        ServiceError::NotFound
    }
}

/// The store after replacing the item under `id` by `payload`.
pub open spec fn update_effect(state: StoreModel, id: Seq<char>, payload: TodoView) -> StoreModel {
    if update_outcome(state, id, payload) is Ok {
        state.replace(id_of_text(id), payload)
    } else {
        state
    }
}

/// What deleting the item under `id` returns.
pub open spec fn delete_outcome(state: StoreModel, id: Seq<char>) -> Result<(), ServiceError> {
    if !is_id_text(id) {
        Err(ServiceError::InvalidIdentifier)
    } else if !state.contains(id_of_text(id)) {
        Err(ServiceError::NotFound)
    } else {
        Ok(())
    }
}

/// The store after deleting the item under `id`.
pub open spec fn delete_effect(state: StoreModel, id: Seq<char>) -> StoreModel {
    if delete_outcome(state, id) is Ok {
        state.remove(id_of_text(id))
    } else {
        state
    }
}

/// What listing returns: every stored item, in insertion order.
pub open spec fn list_outcome(state: StoreModel) -> Seq<TodoItemView> {
    items_of(state.records)
}

/// The title that a creation payload carries, if there is a payload.
pub open spec fn title_of(request: Option<&TodoCreateRequest>) -> Option<Seq<char>> {
    match request {
        Some(payload) => Some(payload@),
        None => None,
    }
}

/// What a result that carries an item holds.
pub open spec fn item_result_view(result: Result<TodoItem, ServiceError>) -> Result<
    TodoItemView,
    ServiceError,
> {
    match result {
        Ok(item) => Ok(item@),
        Err(error) => Err(error),
    }
}

/// What a result that carries a stored value holds.
pub open spec fn todo_result_view(result: Result<Todo, ServiceError>) -> Result<
    TodoView,
    ServiceError,
> {
    match result {
        Ok(todo) => Ok(todo@),
        Err(error) => Err(error),
    }
}

/// What a sequence of items holds.
pub open spec fn items_view(items: Seq<TodoItem>) -> Seq<TodoItemView> {
    items.map_values(|item: TodoItem| item@)
}

/// Checks a creation payload and builds what is to be stored for it.
pub fn draft(request: Option<&TodoCreateRequest>) -> (drafted: Result<Todo, ServiceError>)
    ensures
        todo_result_view(drafted) == draft_of(title_of(request)),
{
    match request {
        Some(payload) => {
            if payload.title.as_str().is_empty() {
                Err(ServiceError::InvalidInput)
            } else {
                Ok(Todo { title: payload.title.clone(), completed: false })
            }
        },
        None => Err(ServiceError::InvalidInput),
    }
}

/// Checks a replacement payload.
pub fn check_payload(payload: &Todo) -> (checked: Result<(), ServiceError>)
    ensures
        checked == payload_check(payload@),
{
    if payload.title.as_str().is_empty() {
        Err(ServiceError::InvalidInput)
    } else {
        Ok(())
    }
}

/// What a replacement asks of the store.
#[derive(Clone, Copy, Debug, PartialEq, Eq)]
pub enum UpdateStep {
    /// The payload can be stored: replace what stands under the identifier.
    Replace(ItemId),
    /// The payload cannot be stored: only look whether an item stands under
    /// the identifier, and change nothing.
    Probe(ItemId),
}

/// Reads the identifier of a replacement and decides what to ask of the
/// store. A payload that cannot be stored never reaches the store; the store
/// is then only asked whether it holds the item, which decides the error.
pub fn plan_update(id: &str, payload: &Todo) -> (planned: Result<UpdateStep, ServiceError>)
    ensures
        match planned {
            Ok(UpdateStep::Replace(key)) => {
                &&& is_id_text(id@)
                &&& key@ == id_of_text(id@)
                &&& is_title(payload@.title)
            },
            Ok(UpdateStep::Probe(key)) => {
                &&& is_id_text(id@)
                &&& key@ == id_of_text(id@)
                &&& !is_title(payload@.title)
            },
            Err(error) => !is_id_text(id@) && error == ServiceError::InvalidIdentifier,
        },
{
    let key = match ItemId::parse(id) {
        Ok(key) => key,
        Err(error) => {
            return Err(error);
        },
    };
    match check_payload(payload) {
        Ok(()) => Ok(UpdateStep::Replace(key)),
        Err(_) => Ok(UpdateStep::Probe(key)),
    }
}

/// The error of a replacement whose payload cannot be stored, from whether
/// the store holds an item under the identifier.
pub fn refused_update(present: bool) -> (error: ServiceError)
    ensures
        error == update_refusal(present),
{
    if present {
        ServiceError::InvalidInput
    } else {
        ServiceError::NotFound
    }
}

/// The item that callers see for `todo` stored under `id`.
pub fn render(id: &ItemId, todo: Todo) -> (item: TodoItem)
    ensures
        item@ == item_of(id@, todo@),
{
    TodoItem { id: id.to_hex(), title: todo.title, completed: todo.completed }
}

/// The items that callers see for what a store listed.
pub fn render_all(stored: Vec<StoredTodo>) -> (items: Vec<TodoItem>)
    ensures
        items_view(items@) == items_of(records_of(stored@)),
{
    let mut items: Vec<TodoItem> = Vec::new();
    let mut i: usize = 0;
    while i < stored.len()
        invariant
            i <= stored.len(),
            items.len() == i,
            forall|k: int|
                0 <= k < i ==> (#[trigger] items@[k])@ == item_of(stored@[k].id@, stored@[k].todo@),
        decreases stored.len() - i,
    {
        let entry = stored[i].clone();
        items.push(render(&entry.id, entry.todo));
        i += 1;
    }
    assert(items_view(items@) =~= items_of(records_of(stored@)));
    items
}

/// The outcome of an insertion, from what the store answered: the identifier
/// it assigned, or none where it could not store the item.
pub fn inserted(assigned: Option<ItemId>, todo: Todo) -> (result: Result<TodoItem, ServiceError>)
    ensures
        item_result_view(result) == (match assigned {
            Some(id) => Ok::<TodoItemView, ServiceError>(item_of(id@, todo@)),
            None => Err(ServiceError::StorageFailure),
        }),
{
    match assigned {
        Some(id) => Ok(render(&id, todo)),
        None => Err(ServiceError::StorageFailure),
    }
}

/// The outcome of a fetch, from what the store holds under `id`.
pub fn found(id: &ItemId, stored: Option<Todo>) -> (result: Result<TodoItem, ServiceError>)
    ensures
        item_result_view(result) == (match stored {
            Some(todo) => Ok::<TodoItemView, ServiceError>(item_of(id@, todo@)),
            None => Err(ServiceError::NotFound),
        }),
{
    match stored {
        Some(todo) => Ok(render(id, todo)),
        None => Err(ServiceError::NotFound),
    }
}

/// The outcome of a replacement, from the number of items that the store
/// found under `id`.
pub fn replaced(id: &ItemId, payload: Todo, matched: u64) -> (result: Result<
    TodoItem,
    ServiceError,
>)
    ensures
        item_result_view(result) == (if matched > 0 {
            Ok::<TodoItemView, ServiceError>(item_of(id@, payload@))
        } else {
            Err(ServiceError::NotFound)
        }),
{
    if matched > 0 {
        Ok(render(id, payload))
    } else {
        Err(ServiceError::NotFound)
    }
}

/// The outcome of a removal, from the number of items that the store took
/// out.
pub fn removed(deleted: u64) -> (result: Result<(), ServiceError>)
    ensures
        result == (if deleted > 0 {
            Ok::<(), ServiceError>(())
        } else {
            Err(ServiceError::NotFound)
        }),
{
    if deleted > 0 {
        Ok(())
    } else {
        Err(ServiceError::NotFound)
    }
}

/// The item service over a store in memory.
pub struct ItemService {
    store: MemoryStore,
}

impl View for ItemService {
    type V = StoreModel;

    closed spec fn view(&self) -> StoreModel {
        self.store@
    }
}

impl ItemService {
    #[verifier::type_invariant]
    spec fn well_formed(self) -> bool {
        self@.wf() && titled(self@)
    }

    /// A service whose store holds nothing.
    pub fn new() -> (service: ItemService)
        ensures
            service@ == StoreModel::empty(),
            service@.wf(),
            titled(service@),
    {
        ItemService { store: MemoryStore::new() }
    }

    /// Creates an item with the title of `request`, not completed, and
    /// returns it with the identifier that the store assigned.
    pub fn create(&mut self, request: Option<&TodoCreateRequest>) -> (result: Result<
        TodoItem,
        ServiceError,
    >)
        ensures
            item_result_view(result) == create_outcome(old(self)@, title_of(request)),
            final(self)@ == create_effect(old(self)@, title_of(request)),
            final(self)@.wf(),
            titled(final(self)@),
            result matches Ok(item) ==> get_outcome(final(self)@, item@.id) == Ok::<
                TodoItemView,
                ServiceError,
            >(item@),
    {
        proof {
            use_type_invariant(&*self);
            if create_outcome(self@, title_of(request)) is Ok {
                law_create_then_get(self@, title_of(request)->0);
            }
        }
        let todo = match draft(request) {
            Ok(todo) => todo,
            Err(error) => {
                return Err(error);
            },
        };
        let mut store = MemoryStore::new();
        std::mem::swap(&mut store, &mut self.store);
        let assigned = store.insert(todo.clone());
        self.store = store;
        inserted(assigned, todo)
    }

    /// All items, in the order in which they were created.
    pub fn list(&self) -> (items: Vec<TodoItem>)
        ensures
            items_view(items@) == list_outcome(self@),
            self@.wf(),
            titled(self@),
    {
        proof {
            use_type_invariant(self);
        }
        render_all(self.store.list())
    }

    /// The item under the identifier written as `id`.
    pub fn get(&self, id: &str) -> (result: Result<TodoItem, ServiceError>)
        ensures
            item_result_view(result) == get_outcome(self@, id@),
            self@.wf(),
            titled(self@),
    {
        proof {
            use_type_invariant(self);
        }
        let key = match ItemId::parse(id) {
            Ok(key) => key,
            Err(error) => {
                return Err(error);
            },
        };
        found(&key, self.store.get(&key))
    }

    /// Replaces title and completion flag of the item under `id` by those of
    /// `payload`, and returns the item as it then is.
    pub fn update(&mut self, id: &str, payload: &Todo) -> (result: Result<TodoItem, ServiceError>)
        ensures
            item_result_view(result) == update_outcome(old(self)@, id@, payload@),
            final(self)@ == update_effect(old(self)@, id@, payload@),
            final(self)@.wf(),
            titled(final(self)@),
            result matches Ok(item) ==> get_outcome(final(self)@, id@) == Ok::<
                TodoItemView,
                ServiceError,
            >(item@),
    {
        proof {
            use_type_invariant(&*self);
            if update_outcome(self@, id@, payload@) is Ok {
                law_update_then_get(self@, id@, payload@);
            }
        }
        match plan_update(id, payload) {
            Ok(UpdateStep::Replace(key)) => {
                let mut store = MemoryStore::new();
                std::mem::swap(&mut store, &mut self.store);
                let matched: u64 = if store.replace(&key, payload.clone()) {
                    1
                } else {
                    0
                };
                self.store = store;
                replaced(&key, payload.clone(), matched)
            },
            Ok(UpdateStep::Probe(key)) => Err(refused_update(self.store.get(&key).is_some())),
            Err(error) => Err(error),
        }
    }

    /// Deletes the item under `id`.
    pub fn delete(&mut self, id: &str) -> (result: Result<(), ServiceError>)
        ensures
            result == delete_outcome(old(self)@, id@),
            final(self)@ == delete_effect(old(self)@, id@),
            final(self)@.wf(),
            titled(final(self)@),
            result is Ok ==> get_outcome(final(self)@, id@) == Err::<TodoItemView, ServiceError>(
                ServiceError::NotFound,
            ),
    {
        proof {
            use_type_invariant(&*self);
            if delete_outcome(self@, id@) is Ok {
                law_delete_then_get(self@, id@);
            }
        }
        let key = match ItemId::parse(id) {
            Ok(key) => key,
            Err(error) => {
                return Err(error);
            },
        };
        let mut store = MemoryStore::new();
        std::mem::swap(&mut store, &mut self.store);
        let deleted: u64 = if store.remove(&key) {
            1
        } else {
            0
        };
        self.store = store;
        removed(deleted)
    }
}

} // verus!
