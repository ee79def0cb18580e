//! The `tasks` table as the service expects it to behave: what it holds, what
//! it answers to each statement, and what a request comes to on it.
//!
//! This is the service's picture of the database, not the database. What is
//! proved of requests is proved of a table that answers as [`TableModel::answer`]
//! says.

use crate::operation::{ActionView, EventView, OperationView, StepView};
use crate::repository::{found, OutcomeView, RequestView, ServiceError};
use crate::statement::{ReplyView, StatementView, MAX_ID};
use crate::task::{tasks_of, RowView, TaskView};
use vstd::prelude::*;

verus! {

/// The rows with this identifier.
pub open spec fn has_id(id: u32) -> spec_fn(RowView) -> bool {
    |row: RowView| row.id == id
}

/// The rows with another identifier.
pub open spec fn lacks_id(id: u32) -> spec_fn(RowView) -> bool {
    |row: RowView| row.id != id
}

/// Puts the new contents into the rows with this identifier and keeps the others.
pub open spec fn overwrite(id: u32, description: Seq<char>, is_completed: bool) -> spec_fn(
    RowView,
) -> RowView {
    |row: RowView|
        if row.id == id {
            RowView { id, description, is_completed }
        } else {
            row
        }
}

/// No two rows share an identifier.
pub open spec fn unique_ids(rows: Seq<RowView>) -> bool {
    forall|i: int, j: int| 0 <= i < j < rows.len() ==> rows[i].id != rows[j].id
}

/// The table's state: its rows in the order the table keeps them, and the
/// identifier that the next insert gets.
pub ghost struct TableModel {
    pub rows: Seq<RowView>,
    pub next_id: nat,
}

impl TableModel {
    /// The table right after it was created.
    pub open spec fn empty() -> TableModel {
        TableModel { rows: Seq::empty(), next_id: 1 }
    }

    /// Identifiers start at 1, are handed out in rising order, and none is held
    /// by two rows. Once the column's range is used up, `next_id` stays one past it.
    pub open spec fn well_formed(self) -> bool {
        &&& 1 <= self.next_id <= MAX_ID + 1
        &&& forall|i: int| 0 <= i < self.rows.len() ==> 1 <= (#[trigger] self.rows[i]).id < self.next_id
        &&& unique_ids(self.rows)
    }

    /// Whether a row has this identifier.
    pub open spec fn has(self, id: u32) -> bool {
        exists|i: int| 0 <= i < self.rows.len() && (#[trigger] self.rows[i]).id == id
    }

    /// The table's answer to a statement, and the table afterwards.
    ///
    /// An insert fails, and changes nothing, once the identifiers are used up.
    /// Updating or deleting a row that is not there changes nothing and is no failure.
    pub open spec fn answer(self, statement: StatementView) -> (TableModel, ReplyView) {
        match statement {
            StatementView::CreateTable => (self, ReplyView::Completed { last_insert_id: 0 }),
            StatementView::SelectAll => (self, ReplyView::Rows(self.rows)),
            StatementView::SelectById { id } => (self, ReplyView::Rows(self.rows.filter(has_id(id)))),
            StatementView::Insert { description, is_completed } => if self.next_id <= MAX_ID {
                (
                    TableModel {
                        rows: self.rows.push(
                            RowView { id: self.next_id as u32, description, is_completed },
                        ),
                        next_id: self.next_id + 1,
                    },
                    ReplyView::Completed { last_insert_id: self.next_id as u64 },
                )
            } else {
                (self, ReplyView::Failed)
            },
            StatementView::Update { id, description, is_completed } => (
                TableModel {
                    rows: self.rows.map_values(overwrite(id, description, is_completed)),
                    next_id: self.next_id,
                },
                ReplyView::Completed { last_insert_id: 0 },
            ),
            StatementView::Delete { id } => (
                TableModel { rows: self.rows.filter(lacks_id(id)), next_id: self.next_id },
                ReplyView::Completed { last_insert_id: 0 },
            ),
        }
    }

    /// The table after a run of statements, each answered in turn.
    pub open spec fn after(self, statements: Seq<StatementView>) -> TableModel
        decreases statements.len(),
    {
        if statements.len() == 0 {
            self
        } else {
            self.after(statements.drop_last()).answer(statements.last()).0
        }
    }

    /// The task with this identifier, `NotFound` if no row has it.
    pub open spec fn lookup(self, id: u32) -> OutcomeView {
        found(ReplyView::Rows(self.rows.filter(has_id(id))))
    }

    /// What a request comes to on this table, and the table afterwards, when a
    /// connection is to be had and nobody else writes in between.
    pub open spec fn perform(self, request: RequestView) -> (TableModel, OutcomeView) {
        match request {
            RequestView::InitDb => (self, OutcomeView::NoContent),
            RequestView::List => (self, OutcomeView::Listed(tasks_of(self.rows))),
            RequestView::Get { id } => (self, self.lookup(id)),
            RequestView::Create { task } => if self.next_id <= MAX_ID {
                (
                    self.answer(request.statement()).0,
                    OutcomeView::Created(
                        TaskView {
                            id: Some(self.next_id as u32),
                            description: task.description,
                            is_completed: task.is_completed,
                        },
                    ),
                )
            } else {
                (self, OutcomeView::Failed(ServiceError::StorageError))
            },
            RequestView::Update { id, .. } => {
                let table = self.answer(request.statement()).0;
                (table, table.lookup(id))
            },
            RequestView::Delete { .. } => (
                self.answer(request.statement()).0,
                OutcomeView::NoContent,
            ),
        }
    }

    /// What an operation that stands at `operation`, with `action` asked of the
    /// caller, comes to when the caller carries out every action on this table
    /// and always gets a connection.
    pub open spec fn drive(self, operation: OperationView, action: ActionView) -> (
        TableModel,
        OutcomeView,
    )
        decreases operation.remaining(),
    {
        let (table, event) = match action {
            ActionView::Acquire => (self, EventView::Acquired),
            ActionView::Execute(statement) => {
                let (table, reply) = self.answer(statement);
                (table, EventView::Replied(reply))
            },
            ActionView::Release => (self, EventView::Released),
        };
        match operation.step(event) {
            StepView::Next(next, then) => table.drive(next, then),
            StepView::Done(outcome) => (table, outcome),
        }
    }
}


/// Filtering rows keeps their identifiers apart.
pub proof fn lemma_filter_keeps_unique(rows: Seq<RowView>, keep: spec_fn(RowView) -> bool)
    requires
        unique_ids(rows),
    ensures
        unique_ids(rows.filter(keep)),
    decreases rows.len(),
{
    broadcast use vstd::seq_lib::group_filter_ensures;

    if rows.len() > 0 {
        let front = rows.drop_last();
        let last = rows.last();
        assert(rows =~= front.push(last));
        front.lemma_filter_push(last, keep);
        lemma_filter_keeps_unique(front, keep);
        if keep(last) {
            let kept = front.filter(keep);
            assert forall|i: int| 0 <= i < kept.len() implies kept[i].id != last.id by {
                front.lemma_filter_contains_rev(keep, kept[i]);
            }
        }
    }
}

/// A row that filtering kept was there before, and passed the filter.
pub proof fn lemma_filter_member(rows: Seq<RowView>, keep: spec_fn(RowView) -> bool, i: int)
    requires
        0 <= i < rows.filter(keep).len(),
    ensures
        keep(rows.filter(keep)[i]),
        exists|k: int| 0 <= k < rows.len() && rows[k] == rows.filter(keep)[i],
{
    broadcast use vstd::seq_lib::group_filter_ensures;

    rows.lemma_filter_contains_rev(keep, rows.filter(keep)[i]);
}

/// A row that passes the filter is kept.
pub proof fn lemma_filter_keeps(rows: Seq<RowView>, keep: spec_fn(RowView) -> bool, k: int)
    requires
        0 <= k < rows.len(),
        keep(rows[k]),
    ensures
        exists|i: int| 0 <= i < rows.filter(keep).len() && rows.filter(keep)[i] == rows[k],
{
    broadcast use vstd::seq_lib::group_filter_ensures;

    assert(rows.filter(keep).contains(rows[k]));
}

/// Filtering keeps nothing where no row passes.
pub proof fn lemma_filter_none(rows: Seq<RowView>, keep: spec_fn(RowView) -> bool)
    requires
        forall|i: int| 0 <= i < rows.len() ==> !keep(#[trigger] rows[i]),
    ensures
        rows.filter(keep) == Seq::<RowView>::empty(),
{
    if rows.filter(keep).len() > 0 {
        lemma_filter_member(rows, keep, 0);
    }
}

/// Filtering changes nothing where every row passes.
pub proof fn lemma_filter_all(rows: Seq<RowView>, keep: spec_fn(RowView) -> bool)
    requires
        forall|i: int| 0 <= i < rows.len() ==> keep(#[trigger] rows[i]),
    ensures
        rows.filter(keep) == rows,
    decreases rows.len(),
{
    broadcast use vstd::seq_lib::group_filter_ensures;

    if rows.len() > 0 {
        let front = rows.drop_last();
        assert(rows =~= front.push(rows.last()));
        front.lemma_filter_push(rows.last(), keep);
        lemma_filter_all(front, keep);
    }
}

impl TableModel {
    /// No statement breaks the table: identifiers stay apart and in range, and
    /// the next identifier never falls.
    pub proof fn lemma_answer_keeps_well_formed(self, statement: StatementView)
        requires
            self.well_formed(),
        ensures
            self.answer(statement).0.well_formed(),
            self.answer(statement).0.next_id >= self.next_id,
    {
        let table = self.answer(statement).0;
        match statement {
            StatementView::Delete { id } => {
                lemma_filter_keeps_unique(self.rows, lacks_id(id));
                assert forall|i: int| 0 <= i < table.rows.len() implies 1 <= (
                #[trigger] table.rows[i]).id < table.next_id by {
                    lemma_filter_member(self.rows, lacks_id(id), i);
                }
            },
            _ => {},
        }
    }

    /// A run of statements leaves the table well formed, with a next identifier
    /// that is no smaller than before.
    pub proof fn lemma_after_keeps_well_formed(self, statements: Seq<StatementView>)
        requires
            self.well_formed(),
        ensures
            self.after(statements).well_formed(),
            self.after(statements).next_id >= self.next_id,
        decreases statements.len(),
    {
        if statements.len() > 0 {
            self.lemma_after_keeps_well_formed(statements.drop_last());
            self.after(statements.drop_last()).lemma_answer_keeps_well_formed(statements.last());
        }
    }

    /// An operation carried through on the table comes to what `perform` says.
    pub proof fn lemma_drive_is_perform(self, request: RequestView)
        ensures
            self.drive(OperationView::AwaitingConnection(request), ActionView::Acquire)
                == self.perform(request),
    {
        reveal_with_fuel(TableModel::drive, 5);
    }
}

} // verus!
