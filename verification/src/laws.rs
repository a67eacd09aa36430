//! What holds of the operations taken together, over every state that a
//! store can be in.

use crate::error::ServiceError;
use crate::ident::{
    id_of_serial, id_of_text, is_id_text, lemma_serial_round_trip, lemma_text_is_injective,
    lemma_text_round_trip, serial_of, text_of_id,
};
use crate::models::todo::{TodoItemView, TodoView};
use crate::reply::{list_reply_of, BodyView, ReplyView, STATUS_OK};
use crate::service::{
    create_effect, create_outcome, delete_effect, delete_outcome, get_outcome, is_title, item_of,
    list_outcome, titled, update_effect, update_outcome, update_refusal,
};
use crate::store::{Record, StoreModel};
use vstd::prelude::*;

verus! {

/// An item that was created can be fetched under the identifier it was given,
/// and has the title it was created with and is not completed.
pub proof fn law_create_then_get(state: StoreModel, title: Seq<char>)
    requires
        state.wf(),
        state.has_room(),
        is_title(title),
    ensures
        create_outcome(state, Some(title)) == Ok::<TodoItemView, ServiceError>(
            TodoItemView { id: text_of_id(state.next_id()), title, completed: false },
        ),
        get_outcome(create_effect(state, Some(title)), text_of_id(state.next_id()))
            == create_outcome(state, Some(title)),
{
    state.lemma_next_id_is_new();
    state.lemma_insert(TodoView { title, completed: false }, state.next_id());
    lemma_text_round_trip(state.next_id());
}

/// Creating with a missing or an empty title is refused, and the store stays
/// as it was.
pub proof fn law_create_needs_a_title(state: StoreModel, title: Option<Seq<char>>)
    requires
        title matches Some(text) ==> !is_title(text),
    ensures
        create_outcome(state, title) == Err::<TodoItemView, ServiceError>(
            ServiceError::InvalidInput,
        ),
        create_effect(state, title) == state,
{
}

/// A store that was just made holds no item under any identifier.
pub proof fn law_new_store_holds_nothing(id: Seq<u8>)
    ensures
        StoreModel::empty().wf(),
        !StoreModel::empty().contains(id),
{
}

/// Under a well-formed identifier that the store does not hold, fetching and
/// deleting fail with `NotFound`, and deleting leaves the store as it was.
pub proof fn law_absent_id_is_not_found(state: StoreModel, id: Seq<char>)
    requires
        is_id_text(id),
        !state.contains(id_of_text(id)),
    ensures
        get_outcome(state, id) == Err::<TodoItemView, ServiceError>(ServiceError::NotFound),
        delete_outcome(state, id) == Err::<(), ServiceError>(ServiceError::NotFound),
        delete_effect(state, id) == state,
{
}

/// Under a well-formed identifier that the store does not hold, replacing
/// fails with `NotFound`, whatever the payload, and leaves the store as it
/// was.
pub proof fn law_absent_id_is_not_updated(state: StoreModel, id: Seq<char>, payload: TodoView)
    requires
        is_id_text(id),
        !state.contains(id_of_text(id)),
    ensures
        update_outcome(state, id, payload) == Err::<TodoItemView, ServiceError>(
            ServiceError::NotFound,
        ),
        update_effect(state, id, payload) == state,
{
}

/// An identifier that the store assigned once and does not hold now is not
/// held after any further insertion, replacement or removal: it is never
/// assigned again. The same then holds of the store that the operation left.
pub proof fn law_removed_id_never_returns(
    state: StoreModel,
    id: Seq<u8>,
    other: Seq<u8>,
    todo: TodoView,
)
    requires
        state.wf(),
        serial_of(id) < state.issued,
        !state.contains(id),
    ensures
        state.has_room() ==> state.next_id() != id,
        !state.insert(todo).contains(id),
        !state.replace(other, todo).contains(id),
        !state.remove(other).contains(id),
        serial_of(id) < state.insert(todo).issued,
        serial_of(id) < state.replace(other, todo).issued,
        serial_of(id) < state.remove(other).issued,
{
    if state.has_room() {
        state.lemma_next_id_is_new();
    }
    state.lemma_insert(todo, id);
    state.lemma_replace(other, todo, id);
    state.lemma_remove(other, id);
}

/// A replacement that goes by what the store answers gives the outcome of the
/// replacement: where the payload can be stored, by the number of items
/// that the store found and replaced; where it cannot, by whether the store
/// holds the item.
pub proof fn law_update_goes_by_the_store(
    state: StoreModel,
    id: Seq<char>,
    payload: TodoView,
    matched: u64,
    present: bool,
)
    requires
        is_id_text(id),
        (matched > 0) == state.contains(id_of_text(id)),
        present == state.contains(id_of_text(id)),
    ensures
        is_title(payload.title) ==> update_outcome(state, id, payload) == (if matched > 0 {
            Ok::<TodoItemView, ServiceError>(item_of(id_of_text(id), payload))
        } else {
            Err(ServiceError::NotFound)
        }),
        !is_title(payload.title) ==> update_outcome(state, id, payload) == Err::<
            TodoItemView,
            ServiceError,
        >(update_refusal(present)),
        !is_title(payload.title) ==> update_effect(state, id, payload) == state,
{
}

/// After an item was replaced, fetching it gives the new title and completion
/// flag under the same identifier; every record keeps its identifier and its
/// place, and the other records stay as they were.
pub proof fn law_update_then_get(state: StoreModel, id: Seq<char>, payload: TodoView)
    requires
        state.wf(),
        is_id_text(id),
        state.contains(id_of_text(id)),
        is_title(payload.title),
    ensures
        update_outcome(state, id, payload) == Ok::<TodoItemView, ServiceError>(
            TodoItemView {
                id: text_of_id(id_of_text(id)),
                title: payload.title,
                completed: payload.completed,
            },
        ),
        get_outcome(update_effect(state, id, payload), id) == update_outcome(state, id, payload),
        update_effect(state, id, payload).records.len() == state.records.len(),
        forall|i: int|
            0 <= i < state.records.len() ==> (#[trigger] update_effect(
                state,
                id,
                payload,
            ).records[i]).id == state.records[i].id,
        forall|i: int|
            0 <= i < state.records.len() && state.records[i].id != id_of_text(id)
                ==> #[trigger] update_effect(state, id, payload).records[i] == state.records[i],
{
    state.lemma_replace(id_of_text(id), payload, id_of_text(id));
}

/// After an item was deleted, fetching it fails with `NotFound`, the listing
/// holds no item with its identifier, and the other items are listed as
/// before, in the same order. The store no longer holds the identifier, but
/// counts it among those it has assigned.
pub proof fn law_delete_then_get(state: StoreModel, id: Seq<char>)
    requires
        state.wf(),
        is_id_text(id),
        state.contains(id_of_text(id)),
    ensures
        delete_outcome(state, id) == Ok::<(), ServiceError>(()),
        !delete_effect(state, id).contains(id_of_text(id)),
        serial_of(id_of_text(id)) < delete_effect(state, id).issued,
        get_outcome(delete_effect(state, id), id) == Err::<TodoItemView, ServiceError>(
            ServiceError::NotFound,
        ),
        forall|k: int|
            0 <= k < list_outcome(delete_effect(state, id)).len() ==> (#[trigger] list_outcome(
                delete_effect(state, id),
            )[k]).id != text_of_id(id_of_text(id)),
        list_outcome(delete_effect(state, id)) == list_outcome(state).remove(
            state.position(id_of_text(id)),
        ),
{
    let key = id_of_text(id);
    let p = state.position(key);
    let after = state.remove(key);
    state.lemma_remove(key, key);
    assert forall|k: int| 0 <= k < list_outcome(after).len() implies (#[trigger] list_outcome(
        after,
    )[k]).id != text_of_id(key) by {
        assert(after.records[k].id != key);
        if text_of_id(after.records[k].id) == text_of_id(key) {
            lemma_text_is_injective(after.records[k].id, key);
        }
    }
    assert(list_outcome(after) =~= list_outcome(state).remove(p));
}

/// Listing a store that holds nothing gives the empty sequence, and the reply
/// to it is a success that carries no item.
pub proof fn law_empty_store_lists_nothing()
    ensures
        list_outcome(StoreModel::empty()) == Seq::<TodoItemView>::empty(),
        list_reply_of(list_outcome(StoreModel::empty())) == (ReplyView {
            status: STATUS_OK,
            body: BodyView::Items(Seq::empty()),
        }),
{
    assert(list_outcome(StoreModel::empty()) =~= Seq::<TodoItemView>::empty());
}

/// Two items created one after the other get different identifiers, and the
/// listing then ends with the two of them, after all that was listed before.
pub proof fn law_created_ids_differ(state: StoreModel, first: Seq<char>, second: Seq<char>)
    requires
        state.wf(),
        state.issued + 1 < u64::MAX,
        is_title(first),
        is_title(second),
    ensures
        ({
            let middle = create_effect(state, Some(first));
            let last = create_effect(middle, Some(second));
            &&& create_outcome(state, Some(first)) matches Ok(one)
            &&& create_outcome(middle, Some(second)) matches Ok(two)
            &&& one.id != two.id
            &&& one.title == first
            &&& two.title == second
            &&& list_outcome(last) == list_outcome(state).push(one).push(two)
        }),
{
    let one = TodoView { title: first, completed: false };
    let two = TodoView { title: second, completed: false };
    let middle = state.insert(one);
    let last = middle.insert(two);
    state.lemma_next_id_is_new();
    state.lemma_insert(one, state.next_id());
    middle.lemma_next_id_is_new();
    if text_of_id(state.next_id()) == text_of_id(middle.next_id()) {
        lemma_text_is_injective(state.next_id(), middle.next_id());
    }
    assert(list_outcome(last) =~= list_outcome(state).push(item_of(state.next_id(), one)).push(
        item_of(middle.next_id(), two),
    ));
}

/// The store after an item was created for each of `titles`, in this order.
pub open spec fn create_all(state: StoreModel, titles: Seq<Seq<char>>) -> StoreModel
    decreases titles.len(),
{
    if titles.len() == 0 {
        state
    } else {
        create_effect(create_all(state, titles.drop_last()), Some(titles.last()))
    }
}

/// The record that the `k`-th of these creations leaves in the store.
pub open spec fn created_record(state: StoreModel, titles: Seq<Seq<char>>, k: int) -> Record {
    Record {
        id: id_of_serial((state.issued + k) as nat),
        todo: TodoView { title: titles[k], completed: false },
    }
}

/// Different serial numbers give identifiers with different texts.
pub proof fn lemma_serials_give_distinct_texts(first: nat, second: nat)
    requires
        first <= u64::MAX,
        second <= u64::MAX,
        first != second,
    ensures
        text_of_id(id_of_serial(first)) != text_of_id(id_of_serial(second)),
{
    lemma_serial_round_trip(first);
    lemma_serial_round_trip(second);
    if text_of_id(id_of_serial(first)) == text_of_id(id_of_serial(second)) {
        lemma_text_is_injective(id_of_serial(first), id_of_serial(second));
    }
}

/// What a run of creations leaves: the records that were there, then one
/// for each title, numbered on from where the store stood.
pub proof fn lemma_create_all(state: StoreModel, titles: Seq<Seq<char>>)
    requires
        state.wf(),
        state.issued + titles.len() <= u64::MAX,
        forall|k: int| 0 <= k < titles.len() ==> is_title(#[trigger] titles[k]),
    ensures
        create_all(state, titles).wf(),
        create_all(state, titles).issued == state.issued + titles.len(),
        create_all(state, titles).records == state.records + Seq::new(
            titles.len(),
            |k: int| created_record(state, titles, k),
        ),
    decreases titles.len(),
{
    if titles.len() == 0 {
        assert(create_all(state, titles).records =~= state.records + Seq::new(
            titles.len(),
            |k: int| created_record(state, titles, k),
        ));
    } else {
        let front = titles.drop_last();
        let before = create_all(state, front);
        lemma_create_all(state, front);
        let todo = TodoView { title: titles.last(), completed: false };
        before.lemma_insert(todo, before.next_id());
        assert(create_all(state, titles) == before.insert(todo));
        assert(before.insert(todo).records =~= state.records + Seq::new(
            titles.len(),
            |k: int| created_record(state, titles, k),
        ));
    }
}

/// However many creations the store serves, and in whatever order: each
/// succeeds, no two of them get the same identifier, and the listing
/// afterwards holds all that was listed before and then every created item,
/// in the order in which the store served them.
pub proof fn law_creations_in_any_order(state: StoreModel, titles: Seq<Seq<char>>)
    requires
        state.wf(),
        state.issued + titles.len() <= u64::MAX,
        forall|k: int| 0 <= k < titles.len() ==> is_title(#[trigger] titles[k]),
    ensures
        forall|k: int|
            0 <= k < titles.len() ==> #[trigger] create_outcome(
                create_all(state, titles.take(k)),
                Some(titles[k]),
            ) == Ok::<TodoItemView, ServiceError>(
                item_of(created_record(state, titles, k).id, created_record(state, titles, k).todo),
            ),
        forall|i: int, j: int|
            0 <= i < j < titles.len() ==> text_of_id(
                (#[trigger] created_record(state, titles, i)).id,
            ) != text_of_id((#[trigger] created_record(state, titles, j)).id),
        list_outcome(create_all(state, titles)) == list_outcome(state) + Seq::new(
            titles.len(),
            |k: int|
                item_of(created_record(state, titles, k).id, created_record(state, titles, k).todo),
        ),
{
    assert forall|k: int| 0 <= k < titles.len() implies #[trigger] create_outcome(
        create_all(state, titles.take(k)),
        Some(titles[k]),
    ) == Ok::<TodoItemView, ServiceError>(
        item_of(created_record(state, titles, k).id, created_record(state, titles, k).todo),
    ) by {
        lemma_create_all(state, titles.take(k));
    }
    assert forall|i: int, j: int| 0 <= i < j < titles.len() implies text_of_id(
        (#[trigger] created_record(state, titles, i)).id,
    ) != text_of_id((#[trigger] created_record(state, titles, j)).id) by {
        lemma_serials_give_distinct_texts((state.issued + i) as nat, (state.issued + j) as nat);
    }
    lemma_create_all(state, titles);
    assert(list_outcome(create_all(state, titles)) =~= list_outcome(state) + Seq::new(
        titles.len(),
        |k: int|
            item_of(created_record(state, titles, k).id, created_record(state, titles, k).todo),
    ));
}

/// No two records of a well-formed store have the same identifier, and no two
/// listed items the same identifier text.
pub proof fn law_ids_are_unique(state: StoreModel, i: int, j: int)
    requires
        state.wf(),
        0 <= i < state.records.len(),
        0 <= j < state.records.len(),
        i != j,
    ensures
        state.records[i].id != state.records[j].id,
        list_outcome(state)[i].id != list_outcome(state)[j].id,
{
    if i < j {
        assert(serial_of(state.records[i].id) < serial_of(state.records[j].id));
    } else {
        assert(serial_of(state.records[j].id) < serial_of(state.records[i].id));
    }
    if text_of_id(state.records[i].id) == text_of_id(state.records[j].id) {
        lemma_text_is_injective(state.records[i].id, state.records[j].id);
    }
}

/// Creating, replacing or deleting one item leaves every other item as it
/// was: under any identifier but the one that the operation is about, the
/// same is fetched after it as before.
pub proof fn law_other_items_stay(
    state: StoreModel,
    title: Option<Seq<char>>,
    id: Seq<char>,
    payload: TodoView,
    other: Seq<char>,
)
    requires
        state.wf(),
        is_id_text(id),
        is_id_text(other),
        id_of_text(other) != id_of_text(id),
    ensures
        id_of_text(other) != state.next_id() ==> get_outcome(create_effect(state, title), other)
            == get_outcome(state, other),
        get_outcome(update_effect(state, id, payload), other) == get_outcome(state, other),
        get_outcome(delete_effect(state, id), other) == get_outcome(state, other),
{
    match title {
        Some(text) => {
            state.lemma_insert(TodoView { title: text, completed: false }, id_of_text(other));
        },
        None => {},
    }
    state.lemma_replace(id_of_text(id), payload, id_of_text(other));
    state.lemma_remove(id_of_text(id), id_of_text(other));
}

/// Every operation keeps the store well formed and every stored title
/// non-empty.
pub proof fn law_operations_keep_the_invariants(
    state: StoreModel,
    title: Option<Seq<char>>,
    id: Seq<char>,
    payload: TodoView,
)
    requires
        state.wf(),
        titled(state),
    ensures
        create_effect(state, title).wf(),
        titled(create_effect(state, title)),
        update_effect(state, id, payload).wf(),
        titled(update_effect(state, id, payload)),
        delete_effect(state, id).wf(),
        titled(delete_effect(state, id)),
{
    match title {
        Some(text) => {
            state.lemma_insert(TodoView { title: text, completed: false }, state.next_id());
        },
        None => {},
    }
    state.lemma_replace(id_of_text(id), payload, id_of_text(id));
    state.lemma_remove(id_of_text(id), id_of_text(id));
}

} // verus!
