use task_service::operation::{Action, Event, Operation, Step};
use task_service::repository::{Outcome, Progress, Request, ServiceError};
use task_service::statement::{Reply, Statement};
use task_service::task::{Row, Task};

fn milk() -> Task {
    Task { id: None, description: String::from("buy milk"), is_completed: false }
}

fn next(step: Step) -> (Operation, Action) {
    match step {
        Step::Next(operation, action) => (operation, action),
        Step::Done(outcome) => panic!("ended early with {:?}", outcome),
    }
}

fn done(step: Step) -> Outcome {
    match step {
        Step::Done(outcome) => outcome,
        Step::Next(_, action) => panic!("went on with {:?}", action),
    }
}

#[test]
fn operation_starts_by_borrowing_a_connection() {
    let (operation, action) = Operation::begin(Request::List);
    assert_eq!(operation, Operation::AwaitingConnection(Request::List));
    assert_eq!(action, Action::Acquire);
}

#[test]
fn unavailable_pool_fails_before_anything_is_sent() {
    let (operation, _) = Operation::begin(Request::Create { task: milk() });
    assert_eq!(
        operation.step(Event::Unavailable),
        Step::Done(Outcome::Failed(ServiceError::PoolUnavailable))
    );
}

#[test]
fn event_out_of_turn_counts_as_no_connection() {
    let (operation, _) = Operation::begin(Request::List);
    assert_eq!(
        operation.step(Event::Released),
        Step::Done(Outcome::Failed(ServiceError::PoolUnavailable))
    );
}

#[test]
fn get_runs_acquire_execute_release_answer() {
    let (operation, action) = Operation::begin(Request::Get { id: 1 });
    assert_eq!(action, Action::Acquire);
    let (operation, action) = next(operation.step(Event::Acquired));
    assert_eq!(operation, Operation::Executing(Request::Get { id: 1 }));
    assert_eq!(action, Action::Execute(Statement::SelectById { id: 1 }));
    let found = Row { id: 1, description: String::from("buy milk"), is_completed: false };
    let (operation, action) = next(operation.step(Event::Replied(Reply::Rows(vec![found]))));
    assert_eq!(action, Action::Release);
    let outcome = done(operation.step(Event::Released));
    assert_eq!(
        outcome,
        Outcome::Found(Task {
            id: Some(1),
            description: String::from("buy milk"),
            is_completed: false
        })
    );
}

#[test]
fn create_reads_the_id_from_the_inserts_reply() {
    let (operation, _) = Operation::begin(Request::Create { task: milk() });
    let (operation, action) = next(operation.step(Event::Acquired));
    assert_eq!(
        action,
        Action::Execute(Statement::Insert {
            description: String::from("buy milk"),
            is_completed: false
        })
    );
    let (operation, action) =
        next(operation.step(Event::Replied(Reply::Completed { last_insert_id: 41 })));
    assert_eq!(action, Action::Release);
    assert_eq!(
        done(operation.step(Event::Released)),
        Outcome::Created(Task {
            id: Some(41),
            description: String::from("buy milk"),
            is_completed: false
        })
    );
}

#[test]
fn update_sends_two_statements_on_one_connection() {
    let sent = Task { id: Some(500), description: String::from("buy milk"), is_completed: true };
    let (operation, _) = Operation::begin(Request::Update { id: 1, task: sent });
    let (operation, action) = next(operation.step(Event::Acquired));
    assert_eq!(
        action,
        Action::Execute(Statement::Update {
            id: 1,
            description: String::from("buy milk"),
            is_completed: true
        })
    );
    let (operation, action) =
        next(operation.step(Event::Replied(Reply::Completed { last_insert_id: 0 })));
    assert_eq!(operation, Operation::Confirming);
    assert_eq!(action, Action::Execute(Statement::SelectById { id: 1 }));
    let stored = Row { id: 1, description: String::from("buy milk"), is_completed: true };
    let (operation, action) = next(operation.step(Event::Replied(Reply::Rows(vec![stored]))));
    assert_eq!(action, Action::Release);
    assert_eq!(
        done(operation.step(Event::Released)),
        Outcome::Found(Task {
            id: Some(1),
            description: String::from("buy milk"),
            is_completed: true
        })
    );
}

#[test]
fn update_without_a_row_is_not_found() {
    let (operation, _) = Operation::begin(Request::Update { id: 9, task: milk() });
    let (operation, _) = next(operation.step(Event::Acquired));
    let (operation, _) =
        next(operation.step(Event::Replied(Reply::Completed { last_insert_id: 0 })));
    let (operation, action) = next(operation.step(Event::Replied(Reply::Rows(vec![]))));
    assert_eq!(action, Action::Release);
    assert_eq!(done(operation.step(Event::Released)), Outcome::NotFound);
}

#[test]
fn failed_update_releases_without_reading_back() {
    let (operation, _) = Operation::begin(Request::Update { id: 9, task: milk() });
    let (operation, _) = next(operation.step(Event::Acquired));
    let (operation, action) = next(operation.step(Event::Replied(Reply::Failed)));
    assert_eq!(action, Action::Release);
    assert_eq!(
        done(operation.step(Event::Released)),
        Outcome::Failed(ServiceError::StorageError)
    );
}

#[test]
fn failed_read_back_releases_and_fails() {
    let (operation, _) = Operation::begin(Request::Update { id: 9, task: milk() });
    let (operation, _) = next(operation.step(Event::Acquired));
    let (operation, _) =
        next(operation.step(Event::Replied(Reply::Completed { last_insert_id: 0 })));
    let (operation, action) = next(operation.step(Event::Replied(Reply::Failed)));
    assert_eq!(action, Action::Release);
    assert_eq!(
        done(operation.step(Event::Released)),
        Outcome::Failed(ServiceError::StorageError)
    );
}

#[test]
fn failed_statement_still_releases_the_connection() {
    let requests = vec![
        Request::InitDb,
        Request::List,
        Request::Get { id: 1 },
        Request::Create { task: milk() },
        Request::Delete { id: 1 },
    ];
    for request in requests {
        let (operation, _) = Operation::begin(request);
        let (operation, _) = next(operation.step(Event::Acquired));
        let (operation, action) = next(operation.step(Event::Replied(Reply::Failed)));
        assert_eq!(action, Action::Release);
        assert_eq!(
            done(operation.step(Event::Released)),
            Outcome::Failed(ServiceError::StorageError)
        );
    }
}

#[test]
fn missing_reply_counts_as_a_failed_statement() {
    let (operation, _) = Operation::begin(Request::Delete { id: 1 });
    let (operation, _) = next(operation.step(Event::Acquired));
    let (operation, action) = next(operation.step(Event::Acquired));
    assert_eq!(action, Action::Release);
    assert_eq!(
        done(operation.step(Event::Released)),
        Outcome::Failed(ServiceError::StorageError)
    );
}

#[test]
fn delete_and_init_db_answer_with_no_content() {
    for request in vec![Request::Delete { id: 3 }, Request::InitDb] {
        let (operation, _) = Operation::begin(request);
        let (operation, _) = next(operation.step(Event::Acquired));
        let (operation, action) =
            next(operation.step(Event::Replied(Reply::Completed { last_insert_id: 0 })));
        assert_eq!(action, Action::Release);
        assert_eq!(done(operation.step(Event::Released)), Outcome::NoContent);
    }
}

#[test]
fn event_reply_defaults_to_failed() {
    assert_eq!(Event::Acquired.into_reply(), Reply::Failed);
    assert_eq!(Event::Unavailable.into_reply(), Reply::Failed);
    assert_eq!(Event::Released.into_reply(), Reply::Failed);
    assert_eq!(Event::Replied(Reply::Rows(vec![])).into_reply(), Reply::Rows(vec![]));
}

#[test]
fn request_decides_on_the_first_reply() {
    assert_eq!(
        Request::Get { id: 2 }.decide(Reply::Rows(vec![])),
        Progress::Finish(Outcome::NotFound)
    );
    assert_eq!(
        Request::Update { id: 2, task: milk() }.decide(Reply::Completed { last_insert_id: 0 }),
        Progress::Continue(Statement::SelectById { id: 2 })
    );
}
