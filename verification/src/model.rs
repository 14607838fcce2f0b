use vstd::prelude::*;

verus! {

/// A stored task record: the persisted entity of the service.
///
/// `id` and `created_at` are server-generated at creation and never mutated
/// afterwards; `title` and `completed` may change through partial updates.
#[derive(Debug)]
pub struct Todo {
    pub id: u128,
    pub title: String,
    pub completed: bool,
    pub created_at: i64,
}

/// The mathematical image of a `Todo`: the identifier, the title's
/// characters, the completion flag, and the creation time in microseconds
/// since the Unix epoch.
pub struct TodoView {
    pub id: u128,
    pub title: Seq<char>,
    pub completed: bool,
    pub created_at: i64,
}

impl View for Todo {
    type V = TodoView;

    open spec fn view(&self) -> TodoView {
        TodoView {
            id: self.id,
            title: self.title@,
            completed: self.completed,
            created_at: self.created_at,
        }
    }
}

impl Todo {
    /// An explicit copy whose image equals this record's.
    pub fn duplicate(&self) -> (r: Todo)
        ensures
            r@ == self@,
    {
        Todo {
            id: self.id,
            title: self.title.clone(),
            completed: self.completed,
            created_at: self.created_at,
        }
    }
}

/// The decoded body of a creation request: only the title is client-supplied;
/// the identifier, the completion flag and the timestamp are server-assigned.
#[derive(Debug)]
pub struct CreateTodo {
    pub title: String,
}

/// The decoded body of a partial-update request: each field is independently
/// optional, and an absent field leaves the stored value unchanged.
#[derive(Debug)]
pub struct UpdateTodo {
    pub title: Option<String>,
    pub completed: Option<bool>,
}

} // verus!
