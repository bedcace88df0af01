use todo_service::handlers::{
    begin, create_todo, delete_todo, get_todo, list_todos, resume, update_todo, Pending, Request,
    Step, UpdateStage,
};
use todo_service::reply::Reply;
use todo_service::statement::{Outcome, Statement};
use todo_service::todo::{CreateTodo, Todo, UpdateTodo};

fn milk() -> Todo {
    Todo { id: 1, title: "buy milk".to_string(), completed: false }
}

fn every_outcome() -> Vec<Outcome> {
    vec![
        Outcome::Rows(vec![milk()]),
        Outcome::Row(milk()),
        Outcome::NoRow,
        Outcome::Done,
        Outcome::Failed,
    ]
}

#[test]
fn begin_list_selects_all() {
    assert_eq!(begin(Request::List), Step::Run(Statement::SelectAll, Pending::List));
}

#[test]
fn begin_create_inserts_the_title() {
    let request = Request::Create { payload: CreateTodo { title: "buy milk".to_string() } };
    assert_eq!(
        begin(request),
        Step::Run(Statement::Insert { title: "buy milk".to_string() }, Pending::Create)
    );
}

#[test]
fn begin_create_passes_an_empty_title_on() {
    let request = Request::Create { payload: CreateTodo { title: String::new() } };
    assert_eq!(begin(request), Step::Run(Statement::Insert { title: String::new() }, Pending::Create));
}

#[test]
fn begin_get_selects_by_id() {
    assert_eq!(
        begin(Request::Get { id: 7 }),
        Step::Run(Statement::SelectById { id: 7 }, Pending::Get)
    );
    assert_eq!(
        begin(Request::Get { id: -3 }),
        Step::Run(Statement::SelectById { id: -3 }, Pending::Get)
    );
}

#[test]
fn begin_update_reads_first() {
    let patch = UpdateTodo { title: None, completed: Some(true) };
    assert_eq!(
        begin(Request::Update { id: 4, patch }),
        Step::Run(
            Statement::SelectById { id: 4 },
            Pending::Update(UpdateStage::Reading {
                id: 4,
                patch: UpdateTodo { title: None, completed: Some(true) },
            })
        )
    );
}

#[test]
fn begin_delete_deletes_by_id() {
    assert_eq!(
        begin(Request::Delete { id: 9 }),
        Step::Run(Statement::DeleteById { id: 9 }, Pending::Delete)
    );
}

#[test]
fn list_todos_passes_rows_on_in_order() {
    let rows = vec![
        Todo { id: 3, title: "c".to_string(), completed: true },
        Todo { id: 1, title: "a".to_string(), completed: false },
    ];
    let expected = vec![
        Todo { id: 3, title: "c".to_string(), completed: true },
        Todo { id: 1, title: "a".to_string(), completed: false },
    ];
    assert_eq!(list_todos(Outcome::Rows(rows)), Reply::Todos(expected));
    assert_eq!(list_todos(Outcome::Rows(vec![])), Reply::Todos(vec![]));
}

#[test]
fn list_todos_fails_on_anything_but_rows() {
    assert_eq!(list_todos(Outcome::Row(milk())), Reply::ServerError);
    assert_eq!(list_todos(Outcome::NoRow), Reply::ServerError);
    assert_eq!(list_todos(Outcome::Done), Reply::ServerError);
    assert_eq!(list_todos(Outcome::Failed), Reply::ServerError);
}

#[test]
fn create_todo_returns_the_stored_row() {
    assert_eq!(create_todo(Outcome::Row(milk())), Reply::Todo(milk()));
}

#[test]
fn create_todo_fails_on_anything_but_a_row() {
    assert_eq!(create_todo(Outcome::Rows(vec![milk()])), Reply::ServerError);
    assert_eq!(create_todo(Outcome::NoRow), Reply::ServerError);
    assert_eq!(create_todo(Outcome::Done), Reply::ServerError);
    assert_eq!(create_todo(Outcome::Failed), Reply::ServerError);
}

#[test]
fn get_todo_returns_the_row() {
    assert_eq!(get_todo(Outcome::Row(milk())), Reply::Todo(milk()));
}

#[test]
fn get_todo_without_a_row_is_not_found() {
    assert_eq!(get_todo(Outcome::NoRow), Reply::NotFound);
    assert_eq!(get_todo(Outcome::NoRow).status_code(), 404);
}

#[test]
fn get_todo_fails_on_a_failed_table() {
    assert_eq!(get_todo(Outcome::Failed), Reply::ServerError);
    assert_eq!(get_todo(Outcome::Done), Reply::ServerError);
    assert_eq!(get_todo(Outcome::Rows(vec![])), Reply::ServerError);
}

#[test]
fn delete_todo_succeeds_once_the_statement_ran() {
    assert_eq!(delete_todo(Outcome::Done), Reply::Empty);
    assert_eq!(delete_todo(Outcome::Done).status_code(), 200);
}

#[test]
fn delete_todo_fails_on_anything_else() {
    assert_eq!(delete_todo(Outcome::Failed), Reply::ServerError);
    assert_eq!(delete_todo(Outcome::NoRow), Reply::ServerError);
    assert_eq!(delete_todo(Outcome::Row(milk())), Reply::ServerError);
    assert_eq!(delete_todo(Outcome::Rows(vec![])), Reply::ServerError);
}

#[test]
fn update_todo_with_only_completed_keeps_the_title() {
    let stage = UpdateStage::Reading {
        id: 1,
        patch: UpdateTodo { title: None, completed: Some(true) },
    };
    assert_eq!(
        update_todo(stage, Outcome::Row(milk())),
        Step::Run(
            Statement::Update { id: 1, title: "buy milk".to_string(), completed: true },
            Pending::Update(UpdateStage::Writing)
        )
    );
}

#[test]
fn update_todo_with_only_title_keeps_the_flag() {
    let current = Todo { id: 2, title: "old".to_string(), completed: true };
    let stage = UpdateStage::Reading {
        id: 2,
        patch: UpdateTodo { title: Some("new".to_string()), completed: None },
    };
    assert_eq!(
        update_todo(stage, Outcome::Row(current)),
        Step::Run(
            Statement::Update { id: 2, title: "new".to_string(), completed: true },
            Pending::Update(UpdateStage::Writing)
        )
    );
}

#[test]
fn update_todo_with_both_fields_replaces_both() {
    let stage = UpdateStage::Reading {
        id: 1,
        patch: UpdateTodo { title: Some("buy oat milk".to_string()), completed: Some(true) },
    };
    assert_eq!(
        update_todo(stage, Outcome::Row(milk())),
        Step::Run(
            Statement::Update { id: 1, title: "buy oat milk".to_string(), completed: true },
            Pending::Update(UpdateStage::Writing)
        )
    );
}

#[test]
fn update_todo_with_no_field_writes_the_row_back() {
    let stage = UpdateStage::Reading { id: 1, patch: UpdateTodo { title: None, completed: None } };
    assert_eq!(
        update_todo(stage, Outcome::Row(milk())),
        Step::Run(
            Statement::Update { id: 1, title: "buy milk".to_string(), completed: false },
            Pending::Update(UpdateStage::Writing)
        )
    );
}

#[test]
fn update_todo_writes_under_the_key_of_the_request() {
    let stage = UpdateStage::Reading {
        id: 5,
        patch: UpdateTodo { title: None, completed: Some(true) },
    };
    let step = update_todo(stage, Outcome::Row(milk()));
    assert_eq!(
        step,
        Step::Run(
            Statement::Update { id: 5, title: "buy milk".to_string(), completed: true },
            Pending::Update(UpdateStage::Writing)
        )
    );
}

#[test]
fn update_todo_of_a_missing_row_is_not_found() {
    let stage = UpdateStage::Reading {
        id: 1,
        patch: UpdateTodo { title: None, completed: Some(true) },
    };
    assert_eq!(update_todo(stage, Outcome::NoRow), Step::Finish(Reply::NotFound));
}

#[test]
fn update_todo_fails_when_the_read_fails() {
    for outcome in vec![Outcome::Failed, Outcome::Done, Outcome::Rows(vec![milk()])] {
        let stage = UpdateStage::Reading {
            id: 1,
            patch: UpdateTodo { title: None, completed: Some(true) },
        };
        assert_eq!(update_todo(stage, outcome), Step::Finish(Reply::ServerError));
    }
}

#[test]
fn update_todo_finishes_with_the_written_row() {
    let written = Todo { id: 1, title: "buy milk".to_string(), completed: true };
    let expected = Todo { id: 1, title: "buy milk".to_string(), completed: true };
    assert_eq!(
        update_todo(UpdateStage::Writing, Outcome::Row(written)),
        Step::Finish(Reply::Todo(expected))
    );
}

#[test]
fn update_todo_of_a_row_that_vanished_is_not_found() {
    assert_eq!(update_todo(UpdateStage::Writing, Outcome::NoRow), Step::Finish(Reply::NotFound));
}

#[test]
fn update_todo_fails_when_the_write_fails() {
    assert_eq!(
        update_todo(UpdateStage::Writing, Outcome::Failed),
        Step::Finish(Reply::ServerError)
    );
}

#[test]
fn resume_hands_the_outcome_to_the_waiting_handler() {
    assert_eq!(
        resume(Pending::List, Outcome::Rows(vec![milk()])),
        Step::Finish(Reply::Todos(vec![milk()]))
    );
    assert_eq!(resume(Pending::Create, Outcome::Row(milk())), Step::Finish(Reply::Todo(milk())));
    assert_eq!(resume(Pending::Get, Outcome::NoRow), Step::Finish(Reply::NotFound));
    assert_eq!(resume(Pending::Delete, Outcome::Done), Step::Finish(Reply::Empty));
    assert_eq!(
        resume(Pending::Update(UpdateStage::Writing), Outcome::Row(milk())),
        Step::Finish(Reply::Todo(milk()))
    );
    assert_eq!(
        resume(
            Pending::Update(UpdateStage::Reading {
                id: 1,
                patch: UpdateTodo { title: Some("x".to_string()), completed: None },
            }),
            Outcome::Row(milk())
        ),
        Step::Run(
            Statement::Update { id: 1, title: "x".to_string(), completed: false },
            Pending::Update(UpdateStage::Writing)
        )
    );
}

#[test]
fn resume_turns_every_failure_into_a_server_error() {
    assert_eq!(resume(Pending::List, Outcome::Failed), Step::Finish(Reply::ServerError));
    assert_eq!(resume(Pending::Create, Outcome::Failed), Step::Finish(Reply::ServerError));
    assert_eq!(resume(Pending::Get, Outcome::Failed), Step::Finish(Reply::ServerError));
    assert_eq!(resume(Pending::Delete, Outcome::Failed), Step::Finish(Reply::ServerError));
    assert_eq!(
        resume(Pending::Update(UpdateStage::Writing), Outcome::Failed),
        Step::Finish(Reply::ServerError)
    );
}

#[test]
fn no_handler_asks_for_more_than_two_statements() {
    let requests = vec![
        Request::List,
        Request::Create { payload: CreateTodo { title: "a".to_string() } },
        Request::Get { id: 1 },
        Request::Update { id: 1, patch: UpdateTodo { title: None, completed: Some(true) } },
        Request::Delete { id: 1 },
    ];
    for request in requests {
        for first in every_outcome() {
            let pending = match begin(request.clone()) {
                Step::Run(_, pending) => pending,
                Step::Finish(_) => panic!("a request starts with a statement"),
            };
            if let Step::Run(_, pending) = resume(pending, first) {
                for second in every_outcome() {
                    assert!(matches!(request, Request::Update { .. }));
                    assert_eq!(pending, Pending::Update(UpdateStage::Writing));
                    assert!(matches!(resume(pending.clone(), second), Step::Finish(_)));
                }
            }
        }
    }
}

#[test]
fn status_codes() {
    assert_eq!(Reply::Todos(vec![]).status_code(), 200);
    assert_eq!(Reply::Todo(milk()).status_code(), 200);
    assert_eq!(Reply::Empty.status_code(), 200);
    assert_eq!(Reply::NotFound.status_code(), 404);
    assert_eq!(Reply::ServerError.status_code(), 500);
}

#[test]
fn apply_lays_the_patch_over_the_record() {
    let current = Todo { id: 8, title: "water plants".to_string(), completed: false };
    let patch = UpdateTodo { title: Some(String::new()), completed: None };
    assert_eq!(patch.apply(current), Todo { id: 8, title: String::new(), completed: false });
}

#[test]
fn clone_copies_every_field() {
    let todo = Todo { id: i64::MAX, title: "last".to_string(), completed: true };
    assert_eq!(todo.clone(), Todo { id: i64::MAX, title: "last".to_string(), completed: true });
}
