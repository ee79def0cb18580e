//! What holds of the requests, on every well-formed table.
//!
//! The statements are about [`TableModel::perform`], which is what
//! [`TaskTable::run`](crate::table::TaskTable::run) computes and what an
//! operation comes to on a database that answers as the model does.

use crate::repository::{OutcomeView, RequestView, ServiceError};
use crate::statement::{StatementView, MAX_ID};
use crate::model::{
    has_id, lacks_id, lemma_filter_all, lemma_filter_keeps, lemma_filter_member, lemma_filter_none,
    overwrite, TableModel,
};
use crate::task::{tasks_of, RowView, TaskView};
use vstd::prelude::*;

verus! {

/// A request leaves the table well formed, and never lowers the next identifier.
pub proof fn law_perform_keeps_well_formed(table: TableModel, request: RequestView)
    requires
        table.well_formed(),
    ensures
        table.perform(request).0.well_formed(),
        table.perform(request).0.next_id >= table.next_id,
{
    table.lemma_answer_keeps_well_formed(request.statement());
}

/// Making sure that the table exists changes nothing in a table that is there,
/// however often it is asked.
pub proof fn law_init_db_changes_nothing(table: TableModel)
    ensures
        table.perform(RequestView::InitDb) == (table, OutcomeView::NoContent),
{
}

/// Creating succeeds as long as the table has an identifier left, and fails as a
/// storage error after that. The task that comes back is the one that was
/// sent, under the table's next identifier, whatever identifier was sent with it.
pub proof fn law_create_assigns_next_id(table: TableModel, task: TaskView)
    requires
        table.well_formed(),
    ensures
        table.perform(RequestView::Create { task }).1 == if table.next_id <= MAX_ID {
            OutcomeView::Created(
                TaskView {
                    id: Some(table.next_id as u32),
                    description: task.description,
                    is_completed: task.is_completed,
                },
            )
        } else {
            OutcomeView::Failed(ServiceError::StorageError)
        },
        table.next_id > MAX_ID ==> table.perform(RequestView::Create { task }).0 == table,
{
}

/// A task that was created is found under the identifier it was given, with the
/// description and the completion flag that were sent.
pub proof fn law_create_then_get(table: TableModel, task: TaskView)
    requires
        table.well_formed(),
    ensures
        ({
            let (stored, outcome) = table.perform(RequestView::Create { task });
            outcome matches OutcomeView::Created(made) ==> {
                &&& made.id matches Some(id)
                &&& made.description == task.description
                &&& made.is_completed == task.is_completed
                &&& stored.perform(RequestView::Get { id }) == (stored, OutcomeView::Found(made))
            }
        }),
{
    if table.next_id <= MAX_ID {
        let id = table.next_id as u32;
        let row = RowView { id, description: task.description, is_completed: task.is_completed };
        lemma_filter_none(table.rows, has_id(id));
        table.rows.lemma_filter_push(row, has_id(id));
    }
}

/// After a task was created, the list of all tasks holds it.
pub proof fn law_list_after_create(table: TableModel, task: TaskView)
    requires
        table.well_formed(),
    ensures
        ({
            let (stored, outcome) = table.perform(RequestView::Create { task });
            outcome matches OutcomeView::Created(made) ==> {
                &&& stored.perform(RequestView::List).1 matches OutcomeView::Listed(tasks)
                &&& tasks.contains(made)
            }
        }),
{
    if table.next_id <= MAX_ID {
        let stored = table.perform(RequestView::Create { task }).0;
        let tasks = tasks_of(stored.rows);
        assert(tasks[tasks.len() - 1] == stored.rows[stored.rows.len() - 1].task());
    }
}

/// The list of an empty table is empty.
pub proof fn law_list_of_empty_table()
    ensures
        TableModel::empty().perform(RequestView::List) == (
            TableModel::empty(),
            OutcomeView::Listed(Seq::<TaskView>::empty()),
        ),
{
    assert(tasks_of(TableModel::empty().rows) =~= Seq::<TaskView>::empty());
}

/// Getting a task that is not there is `NotFound`, and no failure.
pub proof fn law_get_of_missing_task(table: TableModel, id: u32)
    requires
        !table.has(id),
    ensures
        table.perform(RequestView::Get { id }) == (table, OutcomeView::NotFound),
{
    lemma_filter_none(table.rows, has_id(id));
}

/// Updating a task that is not there is `NotFound`: no failure, no task made up,
/// and the table stays as it was.
pub proof fn law_update_of_missing_task(table: TableModel, id: u32, task: TaskView)
    requires
        !table.has(id),
    ensures
        table.perform(RequestView::Update { id, task }) == (table, OutcomeView::NotFound),
{
    let written = table.rows.map_values(overwrite(id, task.description, task.is_completed));
    assert(written =~= table.rows);
    lemma_filter_none(table.rows, has_id(id));
}

/// Updating a task that is there answers with the task as it now stands: the
/// identifier that was named, the contents that were sent. Getting it afterwards
/// gives the same.
pub proof fn law_update_of_stored_task(table: TableModel, id: u32, task: TaskView)
    requires
        table.has(id),
    ensures
        ({
            let (stored, outcome) = table.perform(RequestView::Update { id, task });
            &&& outcome == OutcomeView::Found(
                TaskView {
                    id: Some(id),
                    description: task.description,
                    is_completed: task.is_completed,
                },
            )
            &&& stored.perform(RequestView::Get { id }) == (stored, outcome)
            &&& stored.rows.len() == table.rows.len()
            &&& stored.next_id == table.next_id
        }),
{
    let written = table.rows.map_values(overwrite(id, task.description, task.is_completed));
    let k = choose|k: int| 0 <= k < table.rows.len() && (#[trigger] table.rows[k]).id == id;
    lemma_filter_keeps(written, has_id(id), k);
    lemma_filter_member(written, has_id(id), 0);
}

/// Deleting succeeds whether or not the task is there, and a second time as
/// well; after either no row has the identifier, and the second changes nothing.
pub proof fn law_delete_is_idempotent(table: TableModel, id: u32)
    ensures
        ({
            let (once, first) = table.perform(RequestView::Delete { id });
            let (twice, second) = once.perform(RequestView::Delete { id });
            &&& first == OutcomeView::NoContent
            &&& second == OutcomeView::NoContent
            &&& !once.has(id)
            &&& twice == once
        }),
{
    let once = table.perform(RequestView::Delete { id }).0;
    lemma_filter_all(once.rows, lacks_id(id));
}

/// Two tasks that were created never share an identifier, whatever statements
/// the table answered between the two, for these or for other requests.
pub proof fn law_created_ids_differ(
    table: TableModel,
    first: TaskView,
    between: Seq<StatementView>,
    second: TaskView,
)
    requires
        table.well_formed(),
    ensures
        ({
            let (stored, earlier) = table.perform(RequestView::Create { task: first });
            let later = stored.after(between).perform(RequestView::Create { task: second }).1;
            earlier matches OutcomeView::Created(a) ==> later matches OutcomeView::Created(b) ==> {
                &&& a.id matches Some(x)
                &&& b.id matches Some(y)
                &&& x < y
            }
        }),
{
    let stored = table.perform(RequestView::Create { task: first }).0;
    table.lemma_answer_keeps_well_formed(RequestView::Create { task: first }.statement());
    stored.lemma_after_keeps_well_formed(between);
}

} // verus!
