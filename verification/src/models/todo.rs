//! To-do items and the payloads that create and replace them.

use vstd::prelude::*;

verus! {

/// A to-do item as callers see it: the stored title and completion flag,
/// together with the identifier in its text form.
#[derive(Debug, PartialEq, Eq)]
pub struct TodoItem {
    pub id: String,
    pub title: String,
    pub completed: bool,
}

/// The payload that creates an item. It carries no identifier and no
/// completion flag: the store assigns the first, and the second starts false.
#[derive(Debug, PartialEq, Eq)]
pub struct TodoCreateRequest {
    pub title: String,
}

/// What is stored under an identifier, and the payload that replaces it.
#[derive(Debug, PartialEq, Eq)]
pub struct Todo {
    pub title: String,
    pub completed: bool,
}

/// What a [`TodoItem`] holds.
pub struct TodoItemView {
    pub id: Seq<char>,
    pub title: Seq<char>,
    pub completed: bool,
}

/// What a [`Todo`] holds.
pub struct TodoView {
    pub title: Seq<char>,
    pub completed: bool,
}

impl View for TodoItem {
    type V = TodoItemView;

    open spec fn view(&self) -> TodoItemView {
        TodoItemView { id: self.id@, title: self.title@, completed: self.completed }
    }
}

impl View for Todo {
    type V = TodoView;

    open spec fn view(&self) -> TodoView {
        TodoView { title: self.title@, completed: self.completed }
    }
}

impl View for TodoCreateRequest {
    type V = Seq<char>;

    open spec fn view(&self) -> Seq<char> {
        self.title@
    }
}

impl Clone for TodoItem {
    fn clone(&self) -> (copy: Self)
        ensures
            copy@ == self@,
    {
        TodoItem { id: self.id.clone(), title: self.title.clone(), completed: self.completed }
    }
}

impl Clone for Todo {
    fn clone(&self) -> (copy: Self)
        ensures
            copy@ == self@,
    {
        Todo { title: self.title.clone(), completed: self.completed }
    }
}

} // verus!
