//! The in-memory item store: items kept in the order in which they were
//! inserted, each under an identifier that the store assigns and never
//! assigns again.

use crate::ident::{id_of_serial, lemma_serial_round_trip, serial_of, ItemId};
use crate::models::todo::{Todo, TodoView};
use vstd::prelude::*;

verus! {

/// One stored item: its identifier and what is stored under it.
pub struct Record {
    pub id: Seq<u8>,
    pub todo: TodoView,
}

/// The state of a store: its records in insertion order, and the number of
/// identifiers it has assigned so far.
pub struct StoreModel {
    pub records: Seq<Record>,
    pub issued: nat,
}

impl StoreModel {
    /// The store that holds nothing and has assigned no identifier.
    pub open spec fn empty() -> StoreModel {
        StoreModel { records: Seq::empty(), issued: 0 }
    }

    /// Identifiers are numbered in the order of their assignment, every
    /// stored one was assigned by this store, and the records stand in that
    /// order. So no identifier occurs twice.
    pub open spec fn wf(self) -> bool {
        &&& self.issued <= u64::MAX
        &&& forall|i: int|
            0 <= i < self.records.len() ==> {
                &&& (#[trigger] self.records[i]).id.len() == 12
                &&& serial_of(self.records[i].id) < self.issued
            }
        &&& forall|i: int, j: int|
            0 <= i < j < self.records.len() ==> serial_of((#[trigger] self.records[i]).id)
                < serial_of((#[trigger] self.records[j]).id)
    }

    /// Whether an item is stored under `id`.
    pub open spec fn contains(self, id: Seq<u8>) -> bool {
        exists|i: int| 0 <= i < self.records.len() && (#[trigger] self.records[i]).id == id
    }

    /// Where the item under `id` stands, if there is one.
    pub open spec fn position(self, id: Seq<u8>) -> int {
        choose|i: int| 0 <= i < self.records.len() && (#[trigger] self.records[i]).id == id
    }

    /// What is stored under `id`.
    pub open spec fn get(self, id: Seq<u8>) -> Option<TodoView> {
        if self.contains(id) {
            Some(self.records[self.position(id)].todo)
        } else {
            None
        }
    }

    /// Whether the store can still assign an identifier.
    pub open spec fn has_room(self) -> bool {
        self.issued < u64::MAX
    }

    /// The identifier that the next insertion assigns.
    pub open spec fn next_id(self) -> Seq<u8> {
        id_of_serial(self.issued)
    }

    /// The store after `todo` was inserted: it stands last, under the next
    /// identifier. A store without room stays as it is.
    pub open spec fn insert(self, todo: TodoView) -> StoreModel {
        if self.has_room() {
            StoreModel {
                records: self.records.push(Record { id: self.next_id(), todo }),
                issued: self.issued + 1,
            }
        } else {
            self
        }
    }

    /// The store after what is under `id` was replaced by `todo`: the record
    /// keeps its identifier and its place. Without such a record the store
    /// stays as it is.
    pub open spec fn replace(self, id: Seq<u8>, todo: TodoView) -> StoreModel {
        if self.contains(id) {
            StoreModel {
                records: self.records.update(self.position(id), Record { id, todo }),
                issued: self.issued,
            }
        } else {
            self
        }
    }

    /// The store after the record under `id` was taken out: the others keep
    /// their order. Without such a record the store stays as it is.
    pub open spec fn remove(self, id: Seq<u8>) -> StoreModel {
        if self.contains(id) {
            StoreModel { records: self.records.remove(self.position(id)), issued: self.issued }
        } else {
            self
        }
    }

    /// In a well-formed store a record is found where it stands.
    pub proof fn lemma_position(self, id: Seq<u8>, i: int)
        requires
            self.wf(),
            0 <= i < self.records.len(),
            self.records[i].id == id,
        ensures
            self.contains(id),
            self.position(id) == i,
            self.get(id) == Some(self.records[i].todo),
    {
        let p = self.position(id);
        assert(0 <= p < self.records.len() && self.records[p].id == id);
        if p < i {
            assert(serial_of(self.records[p].id) < serial_of(self.records[i].id));
        } else if i < p {
            assert(serial_of(self.records[i].id) < serial_of(self.records[p].id));
        }
    }

    /// No record of a well-formed store stands under the next identifier.
    pub proof fn lemma_next_id_is_new(self)
        requires
            self.wf(),
            self.has_room(),
        ensures
            !self.contains(self.next_id()),
            self.next_id().len() == 12,
            serial_of(self.next_id()) == self.issued,
    {
        lemma_serial_round_trip(self.issued);
    }

    /// Inserting keeps a store well formed. Where there is room, the new
    /// item is then found under the next identifier, under which nothing
    /// stood before. Under any other identifier is found what was found
    /// before.
    pub proof fn lemma_insert(self, todo: TodoView, other: Seq<u8>)
        requires
            self.wf(),
        ensures
            self.insert(todo).wf(),
            self.has_room() ==> !self.contains(self.next_id()),
            self.has_room() ==> self.insert(todo).get(self.next_id()) == Some(todo),
            !self.has_room() || other != self.next_id() ==> self.insert(todo).get(other)
                == self.get(other),
    {
        if self.has_room() {
            let after = self.insert(todo);
            let last = self.records.len() as int;
            self.lemma_next_id_is_new();
            after.lemma_position(self.next_id(), last);
            if other != self.next_id() {
                if self.contains(other) {
                    let p = self.position(other);
                    assert(after.records[p] == self.records[p]);
                    self.lemma_position(other, p);
                    after.lemma_position(other, p);
                } else {
                    assert forall|i: int| 0 <= i < after.records.len() implies (
                    #[trigger] after.records[i]).id != other by {
                        if i < last {
                            assert(after.records[i] == self.records[i]);
                        }
                    }
                }
            }
        }
    }

    /// Replacing keeps a store well formed. Where an item stood under `id`,
    /// the replacement is then found there. Under any other identifier is
    /// found what was found before.
    pub proof fn lemma_replace(self, id: Seq<u8>, todo: TodoView, other: Seq<u8>)
        requires
            self.wf(),
        ensures
            self.replace(id, todo).wf(),
            self.contains(id) ==> self.replace(id, todo).get(id) == Some(todo),
            other != id ==> self.replace(id, todo).get(other) == self.get(other),
            self.replace(id, todo).contains(other) == self.contains(other),
    {
        if self.contains(id) {
            let after = self.replace(id, todo);
            let p = self.position(id);
            after.lemma_position(id, p);
            if other != id {
                if self.contains(other) {
                    let q = self.position(other);
                    assert(after.records[q] == self.records[q]);
                    self.lemma_position(other, q);
                    after.lemma_position(other, q);
                } else {
                    assert forall|i: int| 0 <= i < after.records.len() implies (
                    #[trigger] after.records[i]).id != other by {
                        if i != p {
                            assert(after.records[i] == self.records[i]);
                        }
                    }
                }
            }
        }
    }

    /// Removing keeps a store well formed, and nothing stands under `id`
    /// afterwards. Under any other identifier is found what was found
    /// before.
    pub proof fn lemma_remove(self, id: Seq<u8>, other: Seq<u8>)
        requires
            self.wf(),
        ensures
            self.remove(id).wf(),
            !self.remove(id).contains(id),
            other != id ==> self.remove(id).get(other) == self.get(other),
    {
        if self.contains(id) {
            let after = self.remove(id);
            let p = self.position(id);
            assert forall|k: int| 0 <= k < after.records.len() implies (
            #[trigger] after.records[k]).id != id by {
                let j = if k < p {
                    k
                } else {
                    k + 1
                };
                assert(after.records[k] == self.records[j]);
                if self.records[j].id == id {
                    self.lemma_position(id, j);
                }
            }
            if other != id {
                if self.contains(other) {
                    let q = self.position(other);
                    let k = if q < p {
                        q
                    } else {
                        q - 1
                    };
                    assert(after.records[k] == self.records[q]);
                    self.lemma_position(other, q);
                    after.lemma_position(other, k);
                } else {
                    assert forall|k: int| 0 <= k < after.records.len() implies (
                    #[trigger] after.records[k]).id != other by {
                        let j = if k < p {
                            k
                        } else {
                            k + 1
                        };
                        assert(after.records[k] == self.records[j]);
                    }
                }
            }
        }
    }
}

/// An item as the store holds it and lists it.
#[derive(Debug, PartialEq, Eq)]
pub struct StoredTodo {
    pub id: ItemId,
    pub todo: Todo,
}

impl View for StoredTodo {
    type V = Record;

    open spec fn view(&self) -> Record {
        Record { id: self.id@, todo: self.todo@ }
    }
}

impl Clone for StoredTodo {
    fn clone(&self) -> (copy: Self)
        ensures
            copy@ == self@,
    {
        StoredTodo { id: self.id, todo: self.todo.clone() }
    }
}

/// The records that a sequence of stored items stands for.
pub open spec fn records_of(items: Seq<StoredTodo>) -> Seq<Record> {
    items.map_values(|item: StoredTodo| item@)
}

/// An item store that lives in memory.
pub struct MemoryStore {
    entries: Vec<StoredTodo>,
    next: u64,
}

impl View for MemoryStore {
    type V = StoreModel;

    closed spec fn view(&self) -> StoreModel {
        StoreModel { records: records_of(self.entries@), issued: self.next as nat }
    }
}

impl MemoryStore {
    #[verifier::type_invariant]
    spec fn well_formed(self) -> bool {
        self@.wf()
    }

    /// A store that holds nothing.
    pub fn new() -> (store: MemoryStore)
        ensures
            store@ == StoreModel::empty(),
            store@.wf(),
    {
        let store = MemoryStore { entries: Vec::new(), next: 0 };
        assert(store@.records =~= Seq::empty());
        store
    }

    /// Where the entry under `id` stands.
    fn find(&self, id: &ItemId) -> (place: Option<usize>)
        ensures
            self@.wf(),
            match place {
                Some(i) => i < self.entries.len() && self@.records[i as int].id == id@
                    && self@.contains(id@) && self@.position(id@) == i,
                None => !self@.contains(id@),
            },
    {
        proof {
            use_type_invariant(self);
        }
        let mut i: usize = 0;
        while i < self.entries.len()
            invariant
                i <= self.entries.len(),
                self@.wf(),
                forall|k: int| 0 <= k < i ==> (#[trigger] self@.records[k]).id != id@,
            decreases self.entries.len() - i,
        {
            if self.entries[i].id.same_as(id) {
                proof {
                    self@.lemma_position(id@, i as int);
                }
                return Some(i);
            }
            i += 1;
        }
        None
    }

    /// Stores `todo` under a new identifier and returns that identifier. The
    /// store refuses only when it has no identifier left to assign.
    pub fn insert(&mut self, todo: Todo) -> (assigned: Option<ItemId>)
        ensures
            final(self)@ == old(self)@.insert(todo@),
            final(self)@.wf(),
            match assigned {
                Some(id) => {
                    &&& old(self)@.has_room()
                    &&& id@ == old(self)@.next_id()
                    &&& !old(self)@.contains(id@)
                    &&& final(self)@.get(id@) == Some(todo@)
                },
                None => !old(self)@.has_room(),
            },
    {
        proof {
            use_type_invariant(&*self);
            self@.lemma_insert(todo@, self@.next_id());
        }
        if self.next == u64::MAX {
            return None;
        }
        let id = ItemId::from_serial(self.next);
        let mut entries: Vec<StoredTodo> = Vec::new();
        std::mem::swap(&mut entries, &mut self.entries);
        entries.push(StoredTodo { id, todo });
        assert(records_of(entries@) =~= old(self)@.insert(todo@).records);
        self.next = self.next + 1;
        self.entries = entries;
        Some(id)
    }

    /// A copy of what is stored under `id`.
    pub fn get(&self, id: &ItemId) -> (found: Option<Todo>)
        ensures
            self@.wf(),
            match found {
                Some(todo) => self@.get(id@) == Some(todo@),
                None => self@.get(id@) is None,
            },
    {
        match self.find(id) {
            Some(i) => Some(self.entries[i].todo.clone()),
            None => None,
        }
    }

    /// Copies of all stored items, in insertion order.
    pub fn list(&self) -> (items: Vec<StoredTodo>)
        ensures
            self@.wf(),
            records_of(items@) == self@.records,
    {
        proof {
            use_type_invariant(self);
        }
        let mut items: Vec<StoredTodo> = Vec::new();
        let mut i: usize = 0;
        while i < self.entries.len()
            invariant
                i <= self.entries.len(),
                items.len() == i,
                forall|k: int| 0 <= k < i ==> (#[trigger] items@[k])@ == self.entries@[k]@,
            decreases self.entries.len() - i,
        {
            items.push(self.entries[i].clone());
            i += 1;
        }
        assert(records_of(items@) =~= self@.records);
        items
    }

    /// Replaces what is stored under `id` by `todo` and says whether there
    /// was such an item.
    pub fn replace(&mut self, id: &ItemId, todo: Todo) -> (updated: bool)
        ensures
            updated == old(self)@.contains(id@),
            final(self)@ == old(self)@.replace(id@, todo@),
            final(self)@.wf(),
            updated ==> final(self)@.get(id@) == Some(todo@),
    {
        proof {
            use_type_invariant(&*self);
            self@.lemma_replace(id@, todo@, id@);
        }
        match self.find(id) {
            Some(i) => {
                let mut entries: Vec<StoredTodo> = Vec::new();
                std::mem::swap(&mut entries, &mut self.entries);
                entries[i] = StoredTodo { id: *id, todo };
                assert(records_of(entries@) =~= old(self)@.replace(id@, todo@).records);
                self.entries = entries;
                true
            },
            None => false,
        }
    }

    /// Takes out the item stored under `id` and says whether there was one.
    pub fn remove(&mut self, id: &ItemId) -> (removed: bool)
        ensures
            removed == old(self)@.contains(id@),
            final(self)@ == old(self)@.remove(id@),
            final(self)@.wf(),
            !final(self)@.contains(id@),
    {
        proof {
            use_type_invariant(&*self);
            self@.lemma_remove(id@, id@);
        }
        match self.find(id) {
            Some(i) => {
                let mut entries: Vec<StoredTodo> = Vec::new();
                std::mem::swap(&mut entries, &mut self.entries);
                entries.remove(i);
                assert(records_of(entries@) =~= old(self)@.remove(id@).records);
                self.entries = entries;
                true
            },
            None => false,
        }
    }
}

} // verus!
