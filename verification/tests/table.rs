use task_service::repository::{Outcome, Request, ServiceError};
use task_service::response::{respond, Body, Response};
use task_service::statement::{Reply, Statement};
use task_service::table::TaskTable;
use task_service::task::{Row, Task};

fn new_task(description: &str, is_completed: bool) -> Task {
    Task { id: None, description: String::from(description), is_completed }
}

fn task(id: u32, description: &str, is_completed: bool) -> Task {
    Task { id: Some(id), description: String::from(description), is_completed }
}

fn row(id: u32, description: &str, is_completed: bool) -> Row {
    Row { id, description: String::from(description), is_completed }
}

#[test]
fn create_get_update_delete_example() {
    let mut table = TaskTable::new();
    assert_eq!(table.run(Request::InitDb), Outcome::NoContent);

    let created = respond(table.run(Request::Create { task: new_task("buy milk", false) }));
    assert_eq!(
        created,
        Response {
            status: 201,
            location: Some(String::from("/tasks/1")),
            body: Body::One(task(1, "buy milk", false)),
        }
    );

    let fetched = respond(table.run(Request::Get { id: 1 }));
    assert_eq!(
        fetched,
        Response { status: 200, location: None, body: Body::One(task(1, "buy milk", false)) }
    );

    let updated =
        respond(table.run(Request::Update { id: 1, task: new_task("buy milk", true) }));
    assert_eq!(
        updated,
        Response { status: 200, location: None, body: Body::One(task(1, "buy milk", true)) }
    );

    let deleted = respond(table.run(Request::Delete { id: 1 }));
    assert_eq!(deleted, Response { status: 204, location: None, body: Body::Empty });

    let gone = respond(table.run(Request::Get { id: 1 }));
    assert_eq!(gone, Response { status: 404, location: None, body: Body::Empty });
}

#[test]
fn get_on_empty_table_is_not_found() {
    let mut table = TaskTable::new();
    assert_eq!(table.run(Request::Get { id: 999 }), Outcome::NotFound);
}

#[test]
fn create_then_get_yields_the_same_task() {
    let mut table = TaskTable::new();
    table.run(Request::Create { task: new_task("first", true) });
    let made = match table.run(Request::Create { task: new_task("second", false) }) {
        Outcome::Created(made) => made,
        other => panic!("not created: {:?}", other),
    };
    assert_eq!(made, task(2, "second", false));
    assert_eq!(table.run(Request::Get { id: 2 }), Outcome::Found(made));
}

#[test]
fn create_ignores_the_clients_id() {
    let mut table = TaskTable::new();
    assert_eq!(
        table.run(Request::Create { task: task(40, "buy milk", false) }),
        Outcome::Created(task(1, "buy milk", false))
    );
    assert_eq!(table.run(Request::Get { id: 40 }), Outcome::NotFound);
}

#[test]
fn empty_description_is_stored_as_it_is() {
    let mut table = TaskTable::new();
    assert_eq!(
        table.run(Request::Create { task: new_task("", true) }),
        Outcome::Created(task(1, "", true))
    );
    assert_eq!(table.run(Request::Get { id: 1 }), Outcome::Found(task(1, "", true)));
}

#[test]
fn init_db_leaves_the_rows_alone() {
    let mut table = TaskTable::new();
    table.run(Request::Create { task: new_task("a", false) });
    assert_eq!(table.run(Request::InitDb), Outcome::NoContent);
    assert_eq!(table.run(Request::InitDb), Outcome::NoContent);
    assert_eq!(table.run(Request::List), Outcome::Listed(vec![task(1, "a", false)]));
}

#[test]
fn list_of_empty_table_is_empty() {
    let mut table = TaskTable::new();
    assert_eq!(table.run(Request::List), Outcome::Listed(vec![]));
}

#[test]
fn list_after_create_holds_the_task() {
    let mut table = TaskTable::new();
    table.run(Request::Create { task: new_task("a", false) });
    let made = match table.run(Request::Create { task: new_task("b", true) }) {
        Outcome::Created(made) => made,
        other => panic!("not created: {:?}", other),
    };
    match table.run(Request::List) {
        Outcome::Listed(tasks) => {
            assert!(tasks.contains(&made));
            assert_eq!(tasks, vec![task(1, "a", false), task(2, "b", true)]);
        },
        other => panic!("not listed: {:?}", other),
    }
}

#[test]
fn update_of_missing_id_is_not_found_and_stores_nothing() {
    let mut table = TaskTable::new();
    table.run(Request::Create { task: new_task("a", false) });
    assert_eq!(
        table.run(Request::Update { id: 2, task: new_task("ghost", true) }),
        Outcome::NotFound
    );
    assert_eq!(table.run(Request::Get { id: 2 }), Outcome::NotFound);
    assert_eq!(table.run(Request::List), Outcome::Listed(vec![task(1, "a", false)]));
}

#[test]
fn update_with_the_same_values_succeeds() {
    let mut table = TaskTable::new();
    table.run(Request::Create { task: new_task("a", false) });
    assert_eq!(
        table.run(Request::Update { id: 1, task: new_task("a", false) }),
        Outcome::Found(task(1, "a", false))
    );
}

#[test]
fn update_takes_the_id_from_the_path() {
    let mut table = TaskTable::new();
    table.run(Request::Create { task: new_task("a", false) });
    table.run(Request::Create { task: new_task("b", false) });
    assert_eq!(
        table.run(Request::Update { id: 2, task: task(1, "b2", true) }),
        Outcome::Found(task(2, "b2", true))
    );
    assert_eq!(table.run(Request::Get { id: 1 }), Outcome::Found(task(1, "a", false)));
}

#[test]
fn delete_twice_succeeds_twice() {
    let mut table = TaskTable::new();
    table.run(Request::Create { task: new_task("a", false) });
    table.run(Request::Create { task: new_task("b", false) });
    assert_eq!(table.run(Request::Delete { id: 1 }), Outcome::NoContent);
    assert_eq!(table.run(Request::Get { id: 1 }), Outcome::NotFound);
    assert_eq!(table.run(Request::Delete { id: 1 }), Outcome::NoContent);
    assert_eq!(table.run(Request::Get { id: 1 }), Outcome::NotFound);
    assert_eq!(table.run(Request::List), Outcome::Listed(vec![task(2, "b", false)]));
}

#[test]
fn delete_of_missing_id_is_no_error() {
    let mut table = TaskTable::new();
    assert_eq!(table.run(Request::Delete { id: 5 }), Outcome::NoContent);
}

#[test]
fn ids_are_not_reused_after_delete() {
    let mut table = TaskTable::new();
    assert_eq!(
        table.run(Request::Create { task: new_task("a", false) }),
        Outcome::Created(task(1, "a", false))
    );
    table.run(Request::Delete { id: 1 });
    assert_eq!(
        table.run(Request::Create { task: new_task("b", false) }),
        Outcome::Created(task(2, "b", false))
    );
}

#[test]
fn interleaved_creates_get_distinct_ids() {
    let mut table = TaskTable::new();
    let mut ids = Vec::new();
    for round in 0..20u32 {
        table.execute(&Statement::Update {
            id: round,
            description: String::from("touched"),
            is_completed: true,
        });
        match table.run(Request::Create { task: new_task("t", false) }) {
            Outcome::Created(made) => ids.push(made.id.unwrap()),
            other => panic!("not created: {:?}", other),
        }
        table.execute(&Statement::Delete { id: round / 2 });
    }
    for i in 0..ids.len() {
        for j in 0..i {
            assert_ne!(ids[i], ids[j]);
        }
    }
    assert_eq!(ids, (1..=20).collect::<Vec<u32>>());
}

#[test]
fn table_answers_each_statement() {
    let mut table = TaskTable::new();
    assert_eq!(table.execute(&Statement::CreateTable), Reply::Completed { last_insert_id: 0 });
    assert_eq!(table.execute(&Statement::SelectAll), Reply::Rows(vec![]));
    assert_eq!(
        table.execute(&Statement::Insert { description: String::from("a"), is_completed: false }),
        Reply::Completed { last_insert_id: 1 }
    );
    assert_eq!(
        table.execute(&Statement::Insert { description: String::from("b"), is_completed: true }),
        Reply::Completed { last_insert_id: 2 }
    );
    assert_eq!(
        table.execute(&Statement::SelectById { id: 2 }),
        Reply::Rows(vec![row(2, "b", true)])
    );
    assert_eq!(table.execute(&Statement::SelectById { id: 3 }), Reply::Rows(vec![]));
    assert_eq!(
        table.execute(&Statement::Update {
            id: 1,
            description: String::from("a2"),
            is_completed: true
        }),
        Reply::Completed { last_insert_id: 0 }
    );
    assert_eq!(
        table.execute(&Statement::SelectAll),
        Reply::Rows(vec![row(1, "a2", true), row(2, "b", true)])
    );
    assert_eq!(table.execute(&Statement::Delete { id: 1 }), Reply::Completed { last_insert_id: 0 });
    assert_eq!(table.execute(&Statement::SelectAll), Reply::Rows(vec![row(2, "b", true)]));
    assert_eq!(table.execute(&Statement::CreateTable), Reply::Completed { last_insert_id: 0 });
    assert_eq!(table.execute(&Statement::SelectAll), Reply::Rows(vec![row(2, "b", true)]));
}

#[test]
fn storage_error_is_told_apart_from_not_found() {
    assert_ne!(Outcome::Failed(ServiceError::StorageError), Outcome::NotFound);
    assert_ne!(
        Outcome::Failed(ServiceError::StorageError),
        Outcome::Failed(ServiceError::PoolUnavailable)
    );
}
