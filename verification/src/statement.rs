//! The statements sent to the database. Each has a fixed text with named
//! placeholders; what varies travels in the parameters, never in the text.

use crate::task::{Row, RowView};
use vstd::prelude::*;

verus! {

pub const CREATE_TABLE: &'static str =
    "CREATE TABLE IF NOT EXISTS tasks (id INT PRIMARY KEY AUTO_INCREMENT, description TEXT NOT NULL, is_completed BOOLEAN NOT NULL DEFAULT false)";

pub const SELECT_ALL: &'static str = "SELECT id, description, is_completed FROM tasks";

pub const SELECT_BY_ID: &'static str =
    "SELECT id, description, is_completed FROM tasks WHERE id = :id";

pub const INSERT: &'static str =
    "INSERT INTO tasks (description, is_completed) VALUES (:description, :is_completed)";

pub const UPDATE: &'static str =
    "UPDATE tasks SET description = :description, is_completed = :is_completed WHERE id = :id";

pub const DELETE: &'static str = "DELETE FROM tasks WHERE id = :id";

/// The largest identifier that the `id` column can hold.
pub const MAX_ID: u32 = 2147483647;

/// A value bound to a placeholder.
#[derive(Debug, Clone, PartialEq, Eq)]
pub enum Value {
    UInt(u32),
    Text(String),
    Bool(bool),
}

pub ghost enum ValueView {
    UInt(u32),
    Text(Seq<char>),
    Bool(bool),
}

impl View for Value {
    type V = ValueView;

    open spec fn view(&self) -> ValueView {
        match self {
            Value::UInt(n) => ValueView::UInt(*n),
            Value::Text(s) => ValueView::Text(s@),
            Value::Bool(b) => ValueView::Bool(*b),
        }
    }
}

/// A placeholder's name, without the colon, and the value bound to it.
#[derive(Debug, Clone, PartialEq, Eq)]
pub struct Param {
    pub name: &'static str,
    pub value: Value,
}

pub ghost struct ParamView {
    pub name: Seq<char>,
    pub value: ValueView,
}

impl View for Param {
    type V = ParamView;

    open spec fn view(&self) -> ParamView {
        ParamView { name: self.name@, value: self.value@ }
    }
}

/// The views of a sequence of parameters, in the same order.
pub open spec fn param_views(params: Seq<Param>) -> Seq<ParamView> {
    params.map_values(|p: Param| p@)
}

/// One statement against the `tasks` table.
#[derive(Debug, Clone, PartialEq, Eq)]
pub enum Statement {
    /// Creates the table unless it is there already.
    CreateTable,
    /// Reads every row.
    SelectAll,
    /// Reads the row with this identifier, if there is one.
    SelectById { id: u32 },
    /// Stores a new row; the table assigns its identifier.
    Insert { description: String, is_completed: bool },
    /// Overwrites the row with this identifier, if there is one.
    Update { id: u32, description: String, is_completed: bool },
    /// Removes the row with this identifier, if there is one.
    Delete { id: u32 },
}

pub ghost enum StatementView {
    CreateTable,
    SelectAll,
    SelectById { id: u32 },
    Insert { description: Seq<char>, is_completed: bool },
    Update { id: u32, description: Seq<char>, is_completed: bool },
    Delete { id: u32 },
}

impl View for Statement {
    type V = StatementView;

    open spec fn view(&self) -> StatementView {
        match self {
            Statement::CreateTable => StatementView::CreateTable,
            Statement::SelectAll => StatementView::SelectAll,
            Statement::SelectById { id } => StatementView::SelectById { id: *id },
            Statement::Insert { description, is_completed } => StatementView::Insert {
                description: description@,
                is_completed: *is_completed,
            },
            Statement::Update { id, description, is_completed } => StatementView::Update {
                id: *id,
                description: description@,
                is_completed: *is_completed,
            },
            Statement::Delete { id } => StatementView::Delete { id: *id },
        }
    }
}

impl StatementView {
    /// The statement's text. It depends on the kind of statement alone.
    pub open spec fn sql(self) -> Seq<char> {
        match self {
            StatementView::CreateTable => CREATE_TABLE@,
            StatementView::SelectAll => SELECT_ALL@,
            StatementView::SelectById { .. } => SELECT_BY_ID@,
            StatementView::Insert { .. } => INSERT@,
            StatementView::Update { .. } => UPDATE@,
            StatementView::Delete { .. } => DELETE@,
        }
    }

    /// The values bound to the text's placeholders, each under its name.
    pub open spec fn params(self) -> Seq<ParamView> {
        match self {
            StatementView::CreateTable => seq![],
            StatementView::SelectAll => seq![],
            StatementView::SelectById { id } => seq![
                ParamView { name: "id"@, value: ValueView::UInt(id) },
            ],
            StatementView::Insert { description, is_completed } => seq![
                ParamView { name: "description"@, value: ValueView::Text(description) },
                ParamView { name: "is_completed"@, value: ValueView::Bool(is_completed) },
            ],
            StatementView::Update { id, description, is_completed } => seq![
                ParamView { name: "id"@, value: ValueView::UInt(id) },
                ParamView { name: "description"@, value: ValueView::Text(description) },
                ParamView { name: "is_completed"@, value: ValueView::Bool(is_completed) },
            ],
            StatementView::Delete { id } => seq![
                ParamView { name: "id"@, value: ValueView::UInt(id) },
            ],
        }
    }

    /// Whether the statement asks for rows rather than changing them.
    pub open spec fn is_query(self) -> bool {
        self is SelectAll || self is SelectById
    }
}

impl Statement {
    /// The text to prepare.
    pub fn sql(&self) -> (text: &'static str)
        ensures
            text@ == self@.sql(),
    {
        match self {
            Statement::CreateTable => CREATE_TABLE,
            Statement::SelectAll => SELECT_ALL,
            Statement::SelectById { .. } => SELECT_BY_ID,
            Statement::Insert { .. } => INSERT,
            Statement::Update { .. } => UPDATE,
            Statement::Delete { .. } => DELETE,
        }
    }

    /// The parameters to execute the prepared text with.
    pub fn params(&self) -> (params: Vec<Param>)
        ensures
            param_views(params@) == self@.params(),
    {
        let mut params: Vec<Param> = Vec::new();
        match self {
            Statement::CreateTable => {},
            Statement::SelectAll => {},
            Statement::SelectById { id } => {
                params.push(Param { name: "id", value: Value::UInt(*id) });
            },
            Statement::Insert { description, is_completed } => {
                params.push(Param { name: "description", value: Value::Text(description.clone()) });
                params.push(Param { name: "is_completed", value: Value::Bool(*is_completed) });
            },
            Statement::Update { id, description, is_completed } => {
                params.push(Param { name: "id", value: Value::UInt(*id) });
                params.push(Param { name: "description", value: Value::Text(description.clone()) });
                params.push(Param { name: "is_completed", value: Value::Bool(*is_completed) });
            },
            Statement::Delete { id } => {
                params.push(Param { name: "id", value: Value::UInt(*id) });
            },
        }
        params
    }

    /// Whether the database answers this statement with rows.
    pub fn is_query(&self) -> (query: bool)
        ensures
            query == self@.is_query(),
    {
        match self {
            Statement::SelectAll => true,
            Statement::SelectById { .. } => true,
            _ => false,
        }
    }
}

/// No statement binds two values under one name, so the driver never has to
/// choose between them.
pub proof fn law_param_names_differ(statement: StatementView, i: int, j: int)
    requires
        0 <= i < j < statement.params().len(),
    ensures
        statement.params()[i].name != statement.params()[j].name,
{
    reveal_strlit("id");
    reveal_strlit("description");
    reveal_strlit("is_completed");
    assert("description"@.len() == 11);
    assert("is_completed"@.len() == 12);
}

/// What the database said to one statement.
#[derive(Debug, Clone, PartialEq, Eq)]
pub enum Reply {
    /// The rows that a query found, in the order the database gave them.
    Rows(Vec<Row>),
    /// The statement ran and returned no rows. `last_insert_id` is the identifier
    /// that this connection's latest insert was given, 0 if the statement was no insert.
    Completed { last_insert_id: u64 },
    /// The statement did not run to its end.
    Failed,
}

pub ghost enum ReplyView {
    Rows(Seq<RowView>),
    Completed { last_insert_id: u64 },
    Failed,
}

impl View for Reply {
    type V = ReplyView;

    open spec fn view(&self) -> ReplyView {
        match self {
            Reply::Rows(rows) => ReplyView::Rows(crate::task::row_views(rows@)),
            Reply::Completed { last_insert_id } => ReplyView::Completed {
                last_insert_id: *last_insert_id,
            },
            Reply::Failed => ReplyView::Failed,
        }
    }
}

} // verus!
