//! The task entity and the stored row it is loaded from.

use vstd::prelude::*;

verus! {

/// One to-do item as it travels between the client and the table.
///
/// `id` is absent until the table has assigned one; the client never chooses it.
#[derive(Debug, Clone, PartialEq, Eq)]
pub struct Task {
    pub id: Option<u32>,
    pub description: String,
    pub is_completed: bool,
}

/// What a [`Task`] says, with the description as a sequence of characters.
pub ghost struct TaskView {
    pub id: Option<u32>,
    pub description: Seq<char>,
    pub is_completed: bool,
}

impl View for Task {
    type V = TaskView;

    open spec fn view(&self) -> TaskView {
        TaskView { id: self.id, description: self.description@, is_completed: self.is_completed }
    }
}

/// One row of the `tasks` table. A stored row always has its identifier.
#[derive(Debug, Clone, PartialEq, Eq)]
pub struct Row {
    pub id: u32,
    pub description: String,
    pub is_completed: bool,
}

/// What a [`Row`] holds.
pub ghost struct RowView {
    pub id: u32,
    pub description: Seq<char>,
    pub is_completed: bool,
}

impl View for Row {
    type V = RowView;

    open spec fn view(&self) -> RowView {
        RowView { id: self.id, description: self.description@, is_completed: self.is_completed }
    }
}

impl RowView {
    /// The task that a stored row stands for: the same fields, the identifier present.
    pub open spec fn task(self) -> TaskView {
        TaskView { id: Some(self.id), description: self.description, is_completed: self.is_completed }
    }
}

/// The views of a sequence of rows, in the same order.
pub open spec fn row_views(rows: Seq<Row>) -> Seq<RowView> {
    rows.map_values(|r: Row| r@)
}

/// The tasks that a sequence of rows stands for, in the same order.
pub open spec fn tasks_of(rows: Seq<RowView>) -> Seq<TaskView> {
    rows.map_values(|row: RowView| row.task())
}

/// The views of a sequence of tasks, in the same order.
pub open spec fn task_views(tasks: Seq<Task>) -> Seq<TaskView> {
    tasks.map_values(|t: Task| t@)
}

impl Task {
    /// A task that has not been stored yet.
    pub fn new(description: String, is_completed: bool) -> (task: Task)
        ensures
            task@ == (TaskView { id: None, description: description@, is_completed }),
    {
        Task { id: None, description, is_completed }
    }

    /// A second task with the same contents.
    pub fn duplicate(&self) -> (copy: Task)
        ensures
            copy@ == self@,
    {
        Task { id: self.id, description: self.description.clone(), is_completed: self.is_completed }
    }
}

impl Row {
    /// A second row with the same contents.
    pub fn duplicate(&self) -> (copy: Row)
        ensures
            copy@ == self@,
    {
        Row { id: self.id, description: self.description.clone(), is_completed: self.is_completed }
    }

    /// The task loaded from this row.
    pub fn into_task(self) -> (task: Task)
        ensures
            task@ == self@.task(),
    {
        Task { id: Some(self.id), description: self.description, is_completed: self.is_completed }
    }
}

} // verus!
