//! A to-do list the agent keeps for itself.
use vstd::prelude::*;

verus! {

/// Where a to-do item stands.
#[derive(Debug, Clone, Copy, PartialEq, Eq, Structural)]
pub enum TodoState {
    Pending,
    Processing,
    Completed,
}

/// One item of the list.
#[derive(Debug)]
pub struct Todo {
    pub id: u32,
    pub state: TodoState,
    pub desc: String,
}

/// The list of to-do items.
#[derive(Debug)]
pub struct TodoTool {
    todos: Vec<Todo>,
}

impl TodoTool {
    /// An empty list.
    pub fn new() -> (r: Self)
        ensures
            r.todos().len() == 0,
    {
        Self { todos: Vec::new() }
    }

    pub closed spec fn todos(&self) -> Seq<Todo> {
        self.todos@
    }

    /// The items, in the order they were added.
    pub fn items(&self) -> (r: &[Todo])
        ensures
            r@ == self.todos(),
    {
        self.todos.as_slice()
    }
}

} // verus!
