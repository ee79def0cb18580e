//! A `tasks` table in memory: a database to run requests against where no
//! server is at hand. It answers every statement as the model says.

use crate::model::{has_id, lacks_id, overwrite, TableModel};
use crate::operation::{Action, Event, Operation, Step};
use crate::repository::{Outcome, Request};
use crate::statement::{Reply, Statement, MAX_ID};
use crate::task::{row_views, Row, RowView};
use vstd::prelude::*;

verus! {

/// A `tasks` table in memory.
#[derive(Debug, PartialEq, Eq)]
pub struct TaskTable {
    rows: Vec<Row>,
    next_id: u64,
}

impl View for TaskTable {
    type V = TableModel;

    closed spec fn view(&self) -> TableModel {
        TableModel { rows: row_views(self.rows@), next_id: self.next_id as nat }
    }
}

/// A copy of every row, in order.
fn copy_rows(rows: &Vec<Row>) -> (copies: Vec<Row>)
    ensures
        row_views(copies@) == row_views(rows@),
{
    let mut copies: Vec<Row> = Vec::new();
    let mut i: usize = 0;
    while i < rows.len()
        invariant
            i <= rows.len(),
            copies@.len() == i,
            forall|k: int| 0 <= k < i ==> (#[trigger] copies@[k])@ == rows@[k]@,
        decreases rows.len() - i,
    {
        copies.push(rows[i].duplicate());
        i = i + 1;
    }
    copies
}

/// A copy of the rows with this identifier (`with_id`) or of all the others, in order.
fn pick_rows(rows: &Vec<Row>, id: u32, with_id: bool) -> (picked: Vec<Row>)
    ensures
        row_views(picked@) == row_views(rows@).filter(
            if with_id {
                has_id(id)
            } else {
                lacks_id(id)
            },
        ),
{
    let ghost all = row_views(rows@);
    let ghost keep = if with_id {
        has_id(id)
    } else {
        lacks_id(id)
    };
    let mut picked: Vec<Row> = Vec::new();
    let mut i: usize = 0;
    while i < rows.len()
        invariant
            i <= rows.len(),
            all == row_views(rows@),
            keep == if with_id {
                has_id(id)
            } else {
                lacks_id(id)
            },
            row_views(picked@) =~= all.take(i as int).filter(keep),
        decreases rows.len() - i,
    {
        proof {
            assert(all.take(i + 1) =~= all.take(i as int).push(all[i as int]));
            all.take(i as int).lemma_filter_push(all[i as int], keep);
        }
        if (rows[i].id == id) == with_id {
            picked.push(rows[i].duplicate());
        }
        i = i + 1;
    }
    assert(all.take(rows.len() as int) =~= all);
    picked
}

/// A copy of the rows in which those with this identifier hold the new contents.
fn overwrite_rows(rows: &Vec<Row>, id: u32, description: &String, is_completed: bool) -> (written:
    Vec<Row>)
    ensures
        row_views(written@) == row_views(rows@).map_values(
            overwrite(id, description@, is_completed),
        ),
{
    let mut written: Vec<Row> = Vec::new();
    let mut i: usize = 0;
    while i < rows.len()
        invariant
            i <= rows.len(),
            written@.len() == i,
            forall|k: int|
                0 <= k < i ==> (#[trigger] written@[k])@ == overwrite(
                    id,
                    description@,
                    is_completed,
                )(rows@[k]@),
        decreases rows.len() - i,
    {
        if rows[i].id == id {
            written.push(Row { id, description: description.clone(), is_completed });
        } else {
            written.push(rows[i].duplicate());
        }
        i = i + 1;
    }
    written
}

impl TaskTable {
    #[verifier::type_invariant]
    spec fn holds_a_table(self) -> bool {
        self@.well_formed()
    }

    /// A table without rows, as `CREATE TABLE` leaves it.
    pub fn new() -> (table: TaskTable)
        ensures
            table@ == TableModel::empty(),
            table@.well_formed(),
    {
        let rows: Vec<Row> = Vec::new();
        assert(row_views(rows@) =~= Seq::<RowView>::empty());
        TaskTable { rows, next_id: 1 }
    }

    /// Executes one statement and answers as the model says.
    pub fn execute(&mut self, statement: &Statement) -> (reply: Reply)
        ensures
            (final(self)@, reply@) == old(self)@.answer(statement@),
            final(self)@.well_formed(),
    {
        proof {
            use_type_invariant(&*self);
            self@.lemma_answer_keeps_well_formed(statement@);
        }
        match statement {
            Statement::CreateTable => Reply::Completed { last_insert_id: 0 },
            Statement::SelectAll => Reply::Rows(copy_rows(&self.rows)),
            Statement::SelectById { id } => Reply::Rows(pick_rows(&self.rows, *id, true)),
            Statement::Insert { description, is_completed } => {
                if self.next_id <= MAX_ID as u64 {
                    let id = self.next_id;
                    let mut taken = TaskTable::new();
                    std::mem::swap(self, &mut taken);
                    let mut rows = taken.rows;
                    let ghost before = rows@;
                    rows.push(
                        Row {
                            id: id as u32,
                            description: description.clone(),
                            is_completed: *is_completed,
                        },
                    );
                    assert(row_views(rows@) =~= row_views(before).push(
                        RowView {
                            id: id as u32,
                            description: description@,
                            is_completed: *is_completed,
                        },
                    ));
                    *self = TaskTable { rows, next_id: id + 1 };
                    Reply::Completed { last_insert_id: id }
                } else {
                    Reply::Failed
                }
            },
            Statement::Update { id, description, is_completed } => {
                let rows = overwrite_rows(&self.rows, *id, description, *is_completed);
                *self = TaskTable { rows, next_id: self.next_id };
                Reply::Completed { last_insert_id: 0 }
            },
            Statement::Delete { id } => {
                let rows = pick_rows(&self.rows, *id, false);
                *self = TaskTable { rows, next_id: self.next_id };
                Reply::Completed { last_insert_id: 0 }
            },
        }
    }

    /// Carries a request through on this table: every connection is to be had,
    /// every statement is executed here, and the outcome is what the operation settles on.
    pub fn run(&mut self, request: Request) -> (outcome: Outcome)
        ensures
            (final(self)@, outcome@) == old(self)@.perform(request@),
            final(self)@.well_formed(),
    {
        let ghost goal = self@.perform(request@);
        proof {
            use_type_invariant(&*self);
            self@.lemma_drive_is_perform(request@);
        }
        let (mut operation, mut action) = Operation::begin(request);
        loop
            invariant
                self@.drive(operation@, action@) == goal,
                goal == old(self)@.perform(request@),
                self@.well_formed(),
            decreases operation@.remaining(),
        {
            let event = match action {
                Action::Acquire => Event::Acquired,
                Action::Execute(statement) => Event::Replied(self.execute(&statement)),
                Action::Release => Event::Released,
            };
            match operation.step(event) {
                Step::Next(next, then) => {
                    operation = next;
                    action = then;
                },
                Step::Done(outcome) => {
                    return outcome;
                },
            }
        }
    }
}

} // verus!
