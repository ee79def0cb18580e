//! The life of one request: borrow a connection, send the statements, hand the
//! connection back, answer.
//!
//! The caller performs each [`Action`] and reports what happened as an
//! [`Event`]. The connection pool is the caller's; an operation only decides
//! when a connection is borrowed and when it is returned, and it returns every
//! connection it borrowed before it answers, whatever the database said.

use crate::repository::{
    found, get_task, Outcome, OutcomeView, Progress, ProgressView, Request, RequestView,
    ServiceError,
};
use crate::statement::{Reply, ReplyView, Statement, StatementView};
use vstd::prelude::*;

verus! {

/// What the caller is asked to do next.
#[derive(Debug, Clone, PartialEq, Eq)]
pub enum Action {
    /// Borrow a connection from the pool, waiting until one is free.
    Acquire,
    /// Execute this statement on the borrowed connection.
    Execute(Statement),
    /// Return the borrowed connection to the pool.
    Release,
}

pub ghost enum ActionView {
    Acquire,
    Execute(StatementView),
    Release,
}

impl View for Action {
    type V = ActionView;

    open spec fn view(&self) -> ActionView {
        match self {
            Action::Acquire => ActionView::Acquire,
            Action::Execute(statement) => ActionView::Execute(statement@),
            Action::Release => ActionView::Release,
        }
    }
}

/// What happened when the caller performed an action.
#[derive(Debug, Clone, PartialEq, Eq)]
pub enum Event {
    /// A connection was borrowed.
    Acquired,
    /// The pool gave no connection.
    Unavailable,
    /// The database answered the statement.
    Replied(Reply),
    /// The connection is back in the pool.
    Released,
}

pub ghost enum EventView {
    Acquired,
    Unavailable,
    Replied(ReplyView),
    Released,
}

impl View for Event {
    type V = EventView;

    open spec fn view(&self) -> EventView {
        match self {
            Event::Acquired => EventView::Acquired,
            Event::Unavailable => EventView::Unavailable,
            Event::Replied(reply) => EventView::Replied(reply@),
            Event::Released => EventView::Released,
        }
    }
}

impl EventView {
    /// The database's answer that an event carries. An event that carries none
    /// stands for a statement that did not run.
    pub open spec fn reply(self) -> ReplyView {
        match self {
            EventView::Replied(reply) => reply,
            _ => ReplyView::Failed,
        }
    }
}

/// A request under way.
#[derive(Debug, Clone, PartialEq, Eq)]
pub enum Operation {
    /// Waiting for a connection; nothing has been sent.
    AwaitingConnection(Request),
    /// The request's first statement is with the database.
    Executing(Request),
    /// An update's statement ran; the row is being read back.
    Confirming,
    /// The connection is on its way back to the pool; the outcome is settled.
    Releasing(Outcome),
}

pub ghost enum OperationView {
    AwaitingConnection(RequestView),
    Executing(RequestView),
    Confirming,
    Releasing(OutcomeView),
}

impl View for Operation {
    type V = OperationView;

    open spec fn view(&self) -> OperationView {
        match self {
            Operation::AwaitingConnection(request) => OperationView::AwaitingConnection(request@),
            Operation::Executing(request) => OperationView::Executing(request@),
            Operation::Confirming => OperationView::Confirming,
            Operation::Releasing(outcome) => OperationView::Releasing(outcome@),
        }
    }
}

/// Where an operation stands after an event.
#[derive(Debug, Clone, PartialEq, Eq)]
pub enum Step {
    /// The operation goes on: perform the action and report back.
    Next(Operation, Action),
    /// The operation is over; this is the answer for the client.
    Done(Outcome),
}

pub ghost enum StepView {
    Next(OperationView, ActionView),
    Done(OutcomeView),
}

impl View for Step {
    type V = StepView;

    open spec fn view(&self) -> StepView {
        match self {
            Step::Next(operation, action) => StepView::Next(operation@, action@),
            Step::Done(outcome) => StepView::Done(outcome@),
        }
    }
}

impl OperationView {
    /// Whether the operation has a connection that it has not yet been told to return.
    pub open spec fn holds_connection(self) -> bool {
        self is Executing || self is Confirming
    }

    /// An upper bound on the events that the operation still takes.
    pub open spec fn remaining(self) -> nat {
        match self {
            OperationView::AwaitingConnection(_) => 4,
            OperationView::Executing(_) => 3,
            OperationView::Confirming => 2,
            OperationView::Releasing(_) => 1,
        }
    }

    /// The operation's move on an event.
    ///
    /// An event other than the one awaited counts as the failure of what was
    /// awaited: no connection, or a statement that did not run.
    pub open spec fn step(self, event: EventView) -> StepView {
        match self {
            OperationView::AwaitingConnection(request) => if event is Acquired {
                StepView::Next(
                    OperationView::Executing(request),
                    ActionView::Execute(request.statement()),
                )
            } else {
                StepView::Done(OutcomeView::Failed(ServiceError::PoolUnavailable))
            },
            OperationView::Executing(request) => match request.decide(event.reply()) {
                ProgressView::Continue(statement) => StepView::Next(
                    OperationView::Confirming,
                    ActionView::Execute(statement),
                ),
                ProgressView::Finish(outcome) => StepView::Next(
                    OperationView::Releasing(outcome),
                    ActionView::Release,
                ),
            },
            OperationView::Confirming => StepView::Next(
                OperationView::Releasing(found(event.reply())),
                ActionView::Release,
            ),
            OperationView::Releasing(outcome) => StepView::Done(outcome),
        }
    }
}

impl Event {
    /// The reply that the event carries, `Failed` if it carries none.
    pub fn into_reply(self) -> (reply: Reply)
        ensures
            reply@ == self@.reply(),
    {
        match self {
            Event::Replied(reply) => reply,
            _ => Reply::Failed,
        }
    }
}

impl Operation {
    /// Starts on a request. Nothing is sent before a connection has been borrowed.
    pub fn begin(request: Request) -> (start: (Operation, Action))
        ensures
            start.0@ == OperationView::AwaitingConnection(request@),
            start.1@ == ActionView::Acquire,
    {
        (Operation::AwaitingConnection(request), Action::Acquire)
    }

    /// Takes the event that answers the last action and says what comes next.
    pub fn step(self, event: Event) -> (step: Step)
        ensures
            step@ == self@.step(event@),
    {
        match self {
            Operation::AwaitingConnection(request) => match event {
                Event::Acquired => {
                    let statement = request.statement();
                    Step::Next(Operation::Executing(request), Action::Execute(statement))
                },
                _ => Step::Done(Outcome::Failed(ServiceError::PoolUnavailable)),
            },
            Operation::Executing(request) => match request.decide(event.into_reply()) {
                Progress::Continue(statement) => Step::Next(
                    Operation::Confirming,
                    Action::Execute(statement),
                ),
                Progress::Finish(outcome) => Step::Next(
                    Operation::Releasing(outcome),
                    Action::Release,
                ),
            },
            Operation::Confirming => Step::Next(
                Operation::Releasing(get_task(event.into_reply())),
                Action::Release,
            ),
            Operation::Releasing(outcome) => Step::Done(outcome),
        }
    }
}

/// Every connection that was borrowed is returned before the client is answered.
///
/// While an operation holds a connection it does not end: it sends another
/// statement and keeps the connection, or it asks for the release and no longer
/// holds one. It asks for a release only while it holds a connection, and it
/// comes to hold one only by being given it at its start.
pub proof fn law_connection_is_released(operation: OperationView, event: EventView)
    ensures
        match operation.step(event) {
            StepView::Next(next, action) => {
                &&& action is Execute <==> next.holds_connection()
                &&& action is Release <==> operation.holds_connection() && !next.holds_connection()
                &&& action is Release ==> next is Releasing
                &&& !operation.holds_connection() ==> operation is AwaitingConnection && event
                    is Acquired
            },
            StepView::Done(_) => !operation.holds_connection(),
        },
{
}

/// Faults are reported for what they are. Without a connection the request
/// fails with `PoolUnavailable` and nothing is sent. A statement that did not
/// run fails the request with `StorageError`, after the connection was returned.
pub proof fn law_faults_are_reported(request: RequestView, event: EventView)
    ensures
        !(event is Acquired) ==> OperationView::AwaitingConnection(request).step(event)
            == StepView::Done(OutcomeView::Failed(ServiceError::PoolUnavailable)),
        event.reply() is Failed ==> OperationView::Executing(request).step(event) == StepView::Next(
            OperationView::Releasing(OutcomeView::Failed(ServiceError::StorageError)),
            ActionView::Release,
        ),
        event.reply() is Failed ==> OperationView::Confirming.step(event) == StepView::Next(
            OperationView::Releasing(OutcomeView::Failed(ServiceError::StorageError)),
            ActionView::Release,
        ),
{
}

/// Every operation ends: each event brings it closer to its answer, and none
/// takes more than four.
pub proof fn law_operation_ends(operation: OperationView, event: EventView)
    ensures
        1 <= operation.remaining() <= 4,
        operation.step(event) matches StepView::Next(next, _) ==> next.remaining()
            < operation.remaining(),
        operation.remaining() == 1 ==> operation.step(event) is Done,
{
}

} // verus!
