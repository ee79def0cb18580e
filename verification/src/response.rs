//! What the transport tells the client: a status, a body where there is one,
//! and for a new task the place where it can be fetched.

use crate::repository::{Outcome, OutcomeView};
use crate::task::{task_views, Task, TaskView};
use vstd::prelude::*;
use vstd::string::StringExecFns;

verus! {

/// The request succeeded and the body shows the result.
pub const OK: u16 = 200;

/// A task was stored; the body shows it and `location` names it.
pub const CREATED: u16 = 201;

/// The request succeeded and there is nothing to show.
pub const NO_CONTENT: u16 = 204;

/// No task has the identifier that was named.
pub const NOT_FOUND: u16 = 404;

/// The request failed on the service's side.
pub const INTERNAL_SERVER_ERROR: u16 = 500;

/// The path under which the tasks are served, up to the identifier.
pub const TASKS_PATH: &'static str = "/tasks/";

/// What is sent as the body.
#[derive(Debug, Clone, PartialEq, Eq)]
pub enum Body {
    /// No body.
    Empty,
    /// One task.
    One(Task),
    /// A list of tasks, possibly empty.
    Many(Vec<Task>),
}

pub ghost enum BodyView {
    Empty,
    One(TaskView),
    Many(Seq<TaskView>),
}

impl View for Body {
    type V = BodyView;

    open spec fn view(&self) -> BodyView {
        match self {
            Body::Empty => BodyView::Empty,
            Body::One(task) => BodyView::One(task@),
            Body::Many(tasks) => BodyView::Many(task_views(tasks@)),
        }
    }
}

/// The answer to one request.
#[derive(Debug, Clone, PartialEq, Eq)]
pub struct Response {
    pub status: u16,
    /// The `Location` header, set for a task that was created.
    pub location: Option<String>,
    pub body: Body,
}

pub ghost struct ResponseView {
    pub status: u16,
    pub location: Option<Seq<char>>,
    pub body: BodyView,
}

impl View for Response {
    type V = ResponseView;

    open spec fn view(&self) -> ResponseView {
        ResponseView {
            status: self.status,
            location: match self.location {
                Some(path) => Some(path@),
                None => None,
            },
            body: self.body@,
        }
    }
}

/// The character for one decimal digit.
pub open spec fn digit(d: nat) -> char {
    if d == 0 {
        '0'
    } else if d == 1 {
        '1'
    } else if d == 2 {
        '2'
    } else if d == 3 {
        '3'
    } else if d == 4 {
        '4'
    } else if d == 5 {
        '5'
    } else if d == 6 {
        '6'
    } else if d == 7 {
        '7'
    } else if d == 8 {
        '8'
    } else {
        '9'
    }
}

/// A number in decimal, without sign or leading zeros; zero is `0`.
pub open spec fn decimal(n: nat) -> Seq<char>
    decreases n,
{
    if n < 10 {
        seq![digit(n)]
    } else {
        decimal(n / 10).push(digit(n % 10))
    }
}

/// The path of the task with this identifier.
pub open spec fn task_path(id: u32) -> Seq<char> {
    TASKS_PATH@ + decimal(id as nat)
}

impl OutcomeView {
    /// The response that tells the client of this outcome.
    ///
    /// Absence and failure are told apart from success and from each other by
    /// the status alone; neither has a body.
    pub open spec fn response(self) -> ResponseView {
        match self {
            OutcomeView::Listed(tasks) => ResponseView {
                status: OK,
                location: None,
                body: BodyView::Many(tasks),
            },
            OutcomeView::Found(task) => ResponseView {
                status: OK,
                location: None,
                body: BodyView::One(task),
            },
            OutcomeView::Created(task) => ResponseView {
                status: CREATED,
                location: match task.id {
                    Some(id) => Some(task_path(id)),
                    None => None,
                },
                body: BodyView::One(task),
            },
            OutcomeView::NoContent => ResponseView {
                status: NO_CONTENT,
                location: None,
                body: BodyView::Empty,
            },
            OutcomeView::NotFound => ResponseView {
                status: NOT_FOUND,
                location: None,
                body: BodyView::Empty,
            },
            OutcomeView::Failed(_) => ResponseView {
                status: INTERNAL_SERVER_ERROR,
                location: None,
                body: BodyView::Empty,
            },
        }
    }
}

/// One decimal digit as text.
fn digit_text(d: u32) -> (text: &'static str)
    requires
        d < 10,
    ensures
        text@ == seq![digit(d as nat)],
{
    proof {
        reveal_strlit("0");
        reveal_strlit("1");
        reveal_strlit("2");
        reveal_strlit("3");
        reveal_strlit("4");
        reveal_strlit("5");
        reveal_strlit("6");
        reveal_strlit("7");
        reveal_strlit("8");
        reveal_strlit("9");
    }
    let text = if d == 0 {
        "0"
    } else if d == 1 {
        "1"
    } else if d == 2 {
        "2"
    } else if d == 3 {
        "3"
    } else if d == 4 {
        "4"
    } else if d == 5 {
        "5"
    } else if d == 6 {
        "6"
    } else if d == 7 {
        "7"
    } else if d == 8 {
        "8"
    } else {
        "9"
    };
    text
}

/// Writes a number in decimal at the end of a text.
pub fn append_decimal(text: &mut String, n: u32)
    ensures
        final(text)@ == old(text)@ + decimal(n as nat),
    decreases n,
{
    if n >= 10 {
        append_decimal(text, n / 10);
    }
    text.append(digit_text(n % 10));
}

/// The path under which a task can be fetched: `/tasks/` and its identifier in decimal.
pub fn location(id: u32) -> (path: String)
    ensures
        path@ == task_path(id),
{
    let mut path = String::from_str(TASKS_PATH);
    append_decimal(&mut path, id);
    path
}

/// Tells the client how its request ended.
pub fn respond(outcome: Outcome) -> (response: Response)
    ensures
        response@ == outcome@.response(),
{
    match outcome {
        Outcome::Listed(tasks) => Response { status: OK, location: None, body: Body::Many(tasks) },
        Outcome::Found(task) => Response { status: OK, location: None, body: Body::One(task) },
        Outcome::Created(task) => {
            let place = match task.id {
                Some(id) => Some(location(id)),
                None => None,
            };
            Response { status: CREATED, location: place, body: Body::One(task) }
        },
        Outcome::NoContent => Response { status: NO_CONTENT, location: None, body: Body::Empty },
        Outcome::NotFound => Response { status: NOT_FOUND, location: None, body: Body::Empty },
        Outcome::Failed(_) => Response {
            status: INTERNAL_SERVER_ERROR,
            location: None,
            body: Body::Empty,
        },
    }
}

} // verus!
