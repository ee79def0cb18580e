//! The task repository: which statement each request sends first, and what the
//! database's reply means for the client.
//!
//! A reply of the wrong shape (rows where none were asked for, or the reverse)
//! counts as a storage failure, like a statement that did not run.

use crate::statement::{Reply, ReplyView, Statement, StatementView};
use crate::task::{row_views, task_views, tasks_of, Task, TaskView};
use vstd::prelude::*;

verus! {

/// A fault that is reported to the client as a server error.
#[derive(Debug, Clone, Copy, PartialEq, Eq, Structural)]
pub enum ServiceError {
    /// No connection could be borrowed from the pool.
    PoolUnavailable,
    /// A statement failed, or the database answered out of turn.
    StorageError,
}

/// What a client asks of the service.
#[derive(Debug, Clone, PartialEq, Eq)]
pub enum Request {
    /// Make sure the table exists. Sent once, before any client is served.
    InitDb,
    /// Every task.
    List,
    /// The task with this identifier.
    Get { id: u32 },
    /// Store a new task. An identifier in `task` is ignored.
    Create { task: Task },
    /// Overwrite the task with this identifier. An identifier in `task` is ignored.
    Update { id: u32, task: Task },
    /// Remove the task with this identifier.
    Delete { id: u32 },
}

pub ghost enum RequestView {
    InitDb,
    List,
    Get { id: u32 },
    Create { task: TaskView },
    Update { id: u32, task: TaskView },
    Delete { id: u32 },
}

impl View for Request {
    type V = RequestView;

    open spec fn view(&self) -> RequestView {
        match self {
            Request::InitDb => RequestView::InitDb,
            Request::List => RequestView::List,
            Request::Get { id } => RequestView::Get { id: *id },
            Request::Create { task } => RequestView::Create { task: task@ },
            Request::Update { id, task } => RequestView::Update { id: *id, task: task@ },
            Request::Delete { id } => RequestView::Delete { id: *id },
        }
    }
}

/// How a request ended.
#[derive(Debug, Clone, PartialEq, Eq)]
pub enum Outcome {
    /// All tasks, in the order the database gave them.
    Listed(Vec<Task>),
    /// The task that was asked for, or the task as it stands after an update.
    Found(Task),
    /// The new task, with the identifier that the table assigned.
    Created(Task),
    /// Done, with nothing to show.
    NoContent,
    /// No task has the identifier that was named. This is no fault.
    NotFound,
    /// The request could not be carried out.
    Failed(ServiceError),
}

pub ghost enum OutcomeView {
    Listed(Seq<TaskView>),
    Found(TaskView),
    Created(TaskView),
    NoContent,
    NotFound,
    Failed(ServiceError),
}

impl View for Outcome {
    type V = OutcomeView;

    open spec fn view(&self) -> OutcomeView {
        match self {
            Outcome::Listed(tasks) => OutcomeView::Listed(task_views(tasks@)),
            Outcome::Found(task) => OutcomeView::Found(task@),
            Outcome::Created(task) => OutcomeView::Created(task@),
            Outcome::NoContent => OutcomeView::NoContent,
            Outcome::NotFound => OutcomeView::NotFound,
            Outcome::Failed(error) => OutcomeView::Failed(*error),
        }
    }
}

/// What an update does once its statement has been answered.
#[derive(Debug, Clone, PartialEq, Eq)]
pub enum Progress {
    /// Send this statement next, on the same connection.
    Continue(Statement),
    /// Nothing more to send.
    Finish(Outcome),
}

pub ghost enum ProgressView {
    Continue(StatementView),
    Finish(OutcomeView),
}

impl View for Progress {
    type V = ProgressView;

    open spec fn view(&self) -> ProgressView {
        match self {
            Progress::Continue(statement) => ProgressView::Continue(statement@),
            Progress::Finish(outcome) => ProgressView::Finish(outcome@),
        }
    }
}

impl RequestView {
    /// The statement that the request sends first.
    pub open spec fn statement(self) -> StatementView {
        match self {
            RequestView::InitDb => StatementView::CreateTable,
            RequestView::List => StatementView::SelectAll,
            RequestView::Get { id } => StatementView::SelectById { id },
            RequestView::Create { task } => StatementView::Insert {
                description: task.description,
                is_completed: task.is_completed,
            },
            RequestView::Update { id, task } => StatementView::Update {
                id,
                description: task.description,
                is_completed: task.is_completed,
            },
            RequestView::Delete { id } => StatementView::Delete { id },
        }
    }
}

/// A statement that changes rows ran, or it did not.
pub open spec fn completed(reply: ReplyView) -> OutcomeView {
    if reply is Completed {
        OutcomeView::NoContent
    } else {
        OutcomeView::Failed(ServiceError::StorageError)
    }
}

/// All rows of a reply as tasks, in the reply's order.
pub open spec fn listed(reply: ReplyView) -> OutcomeView {
    match reply {
        ReplyView::Rows(rows) => OutcomeView::Listed(tasks_of(rows)),
        _ => OutcomeView::Failed(ServiceError::StorageError),
    }
}

/// The first row of a reply as a task, `NotFound` if the reply has no row.
pub open spec fn found(reply: ReplyView) -> OutcomeView {
    match reply {
        ReplyView::Rows(rows) => if rows.len() == 0 {
            OutcomeView::NotFound
        } else {
            OutcomeView::Found(rows[0].task())
        },
        _ => OutcomeView::Failed(ServiceError::StorageError),
    }
}

/// The task that was sent, under the identifier that the insert was given. The
/// identifier is cut to 32 bits; the `id` column holds no larger one.
pub open spec fn created(task: TaskView, reply: ReplyView) -> OutcomeView {
    match reply {
        ReplyView::Completed { last_insert_id } => OutcomeView::Created(
            TaskView {
                id: Some(last_insert_id as u32),
                description: task.description,
                is_completed: task.is_completed,
            },
        ),
        _ => OutcomeView::Failed(ServiceError::StorageError),
    }
}

/// After the update statement: read the row back, or give up.
pub open spec fn updated(task_id: u32, reply: ReplyView) -> ProgressView {
    if reply is Completed {
        ProgressView::Continue(StatementView::SelectById { id: task_id })
    } else {
        ProgressView::Finish(OutcomeView::Failed(ServiceError::StorageError))
    }
}

impl RequestView {
    /// What a request does with the reply to its first statement. Only an update
    /// sends a second one.
    pub open spec fn decide(self, reply: ReplyView) -> ProgressView {
        match self {
            RequestView::InitDb => ProgressView::Finish(completed(reply)),
            RequestView::List => ProgressView::Finish(listed(reply)),
            RequestView::Get { .. } => ProgressView::Finish(found(reply)),
            RequestView::Create { task } => ProgressView::Finish(created(task, reply)),
            RequestView::Update { id, .. } => updated(id, reply),
            RequestView::Delete { .. } => ProgressView::Finish(completed(reply)),
        }
    }
}

impl Request {
    /// The statement to send once a connection has been borrowed.
    pub fn statement(&self) -> (statement: Statement)
        ensures
            statement@ == self@.statement(),
    {
        match self {
            Request::InitDb => Statement::CreateTable,
            Request::List => Statement::SelectAll,
            Request::Get { id } => Statement::SelectById { id: *id },
            Request::Create { task } => Statement::Insert {
                description: task.description.clone(),
                is_completed: task.is_completed,
            },
            Request::Update { id, task } => Statement::Update {
                id: *id,
                description: task.description.clone(),
                is_completed: task.is_completed,
            },
            Request::Delete { id } => Statement::Delete { id: *id },
        }
    }
}

/// The table is in place if the statement ran. A table that was there already
/// is left as it is, so this may be asked at every start.
pub fn init_db(reply: Reply) -> (outcome: Outcome)
    ensures
        outcome@ == completed(reply@),
{
    match reply {
        Reply::Completed { .. } => Outcome::NoContent,
        _ => Outcome::Failed(ServiceError::StorageError),
    }
}

/// Every row that came back, as a task. No rows give an empty list.
pub fn list_tasks(reply: Reply) -> (outcome: Outcome)
    ensures
        outcome@ == listed(reply@),
{
    match reply {
        Reply::Rows(rows) => {
            let ghost all = rows@;
            let mut tasks: Vec<Task> = Vec::new();
            for row in it: rows
                invariant
                    it.seq() == all,
                    tasks@.len() == it.index(),
                    forall|k: int| 0 <= k < tasks@.len() ==> (#[trigger] tasks@[k])@ == all[k]@.task(),
            {
                tasks.push(row.into_task());
            }
            assert(task_views(tasks@) =~= tasks_of(row_views(all)));
            Outcome::Listed(tasks)
        },
        _ => Outcome::Failed(ServiceError::StorageError),
    }
}

/// The first row that came back, as a task; `NotFound` if none came back.
pub fn get_task(reply: Reply) -> (outcome: Outcome)
    ensures
        outcome@ == found(reply@),
{
    match reply {
        Reply::Rows(rows) => {
            if rows.len() == 0 {
                Outcome::NotFound
            } else {
                Outcome::Found(rows[0].duplicate().into_task())
            }
        },
        _ => Outcome::Failed(ServiceError::StorageError),
    }
}

/// The stored task: what the client sent, under the identifier that the insert
/// was given on this connection. An identifier that the client sent is dropped.
pub fn create_task(task: Task, reply: Reply) -> (outcome: Outcome)
    ensures
        outcome@ == created(task@, reply@),
{
    match reply {
        Reply::Completed { last_insert_id } => {
            let id: u32 = #[verifier::truncate]
            (last_insert_id as u32);
            Outcome::Created(
                Task { id: Some(id), description: task.description, is_completed: task.is_completed },
            )
        },
        _ => Outcome::Failed(ServiceError::StorageError),
    }
}

/// After the update statement ran, the row is read back on the same connection:
/// the statement's own reply does not tell a missing row from one that already
/// held these values. A statement that did not run ends the request as a failure.
pub fn update_task(task_id: u32, reply: Reply) -> (progress: Progress)
    ensures
        progress@ == updated(task_id, reply@),
{
    match reply {
        Reply::Completed { .. } => Progress::Continue(Statement::SelectById { id: task_id }),
        _ => Progress::Finish(Outcome::Failed(ServiceError::StorageError)),
    }
}

/// Removing succeeds whenever the statement ran, whether or not a row was there.
pub fn delete_task(reply: Reply) -> (outcome: Outcome)
    ensures
        outcome@ == completed(reply@),
{
    match reply {
        Reply::Completed { .. } => Outcome::NoContent,
        _ => Outcome::Failed(ServiceError::StorageError),
    }
}

impl Request {
    /// Settles the request on the reply to its first statement, or names the
    /// statement to send next.
    pub fn decide(self, reply: Reply) -> (progress: Progress)
        ensures
            progress@ == self@.decide(reply@),
    {
        match self {
            Request::InitDb => Progress::Finish(init_db(reply)),
            Request::List => Progress::Finish(list_tasks(reply)),
            Request::Get { .. } => Progress::Finish(get_task(reply)),
            Request::Create { task } => Progress::Finish(create_task(task, reply)),
            Request::Update { id, .. } => update_task(id, reply),
            Request::Delete { .. } => Progress::Finish(delete_task(reply)),
        }
    }
}

} // verus!
