use resource_store::models::{Todo, TodoDTO};
use resource_store::relational::{
    interpret_affected, interpret_returned_row, interpret_selected_row, params_for,
    statement_text, DbEvent, DbRequest, Session, SqlParam, TodoOp, TodoReply, POOL_MAX_HANDLES,
};
use resource_store::service::ServiceError;

fn dto(title: &str, completed: bool) -> TodoDTO {
    TodoDTO { title: title.to_string(), completed }
}

fn param_int(p: &SqlParam) -> i64 {
    match p {
        SqlParam::Int(n) => *n,
        _ => panic!("expected an integer parameter"),
    }
}

fn param_text(p: &SqlParam) -> String {
    match p {
        SqlParam::Text(s) => s.clone(),
        _ => panic!("expected a text parameter"),
    }
}

fn param_flag(p: &SqlParam) -> bool {
    match p {
        SqlParam::Flag(b) => *b,
        _ => panic!("expected a boolean parameter"),
    }
}

/// A stand-in backend: rows live in a vector, identifiers are assigned
/// from a counter starting at 1, exactly as a relational table with a
/// serial key behaves.
struct FakeBackend {
    rows: Vec<Todo>,
    next_id: i64,
}

impl FakeBackend {
    fn new() -> FakeBackend {
        FakeBackend { rows: Vec::new(), next_id: 1 }
    }

    fn execute(&mut self, sql: &str, params: &[SqlParam]) -> DbEvent {
        if sql.starts_with("INSERT INTO todos") {
            let todo = Todo {
                id: self.next_id,
                title: param_text(&params[0]),
                completed: param_flag(&params[1]),
            };
            self.next_id += 1;
            self.rows.push(todo.clone());
            DbEvent::Rows(vec![todo])
        } else if sql.starts_with("SELECT") && sql.contains("WHERE") {
            let id = param_int(&params[0]);
            DbEvent::Rows(self.rows.iter().filter(|t| t.id == id).cloned().collect())
        } else if sql.starts_with("SELECT") {
            DbEvent::Rows(self.rows.clone())
        } else if sql.starts_with("UPDATE todos") {
            let id = param_int(&params[2]);
            match self.rows.iter_mut().find(|t| t.id == id) {
                Some(t) => {
                    t.title = param_text(&params[0]);
                    t.completed = param_flag(&params[1]);
                    DbEvent::Rows(vec![t.clone()])
                }
                None => DbEvent::Rows(Vec::new()),
            }
        } else if sql.starts_with("DELETE FROM todos") {
            let id = param_int(&params[0]);
            let before = self.rows.len();
            self.rows.retain(|t| t.id != id);
            DbEvent::Affected((before - self.rows.len()) as u64)
        } else {
            DbEvent::Failed
        }
    }
}

/// Drive one session to completion against the stand-in backend,
/// following the requested actions to the letter.
fn run(backend: &mut FakeBackend, op: TodoOp) -> Result<TodoReply, ServiceError> {
    let mut session = Session::start(op);
    let mut prepared_sql: &'static str = "";
    loop {
        match session.request() {
            None => return session.outcome(),
            Some(DbRequest::Acquire) => session.step(DbEvent::Acquired),
            Some(DbRequest::Prepare(sql)) => {
                prepared_sql = sql;
                session.step(DbEvent::Prepared);
            }
            Some(DbRequest::Execute(params, _wants_rows)) => {
                let ev = backend.execute(prepared_sql, &params);
                session.step(ev);
            }
            Some(DbRequest::Release) => session.step(DbEvent::Released),
        }
    }
}

fn one(r: Result<TodoReply, ServiceError>) -> Todo {
    match r {
        Ok(TodoReply::One(t)) => t,
        other => panic!("expected a single record, got {:?}", kind_of(&other)),
    }
}

fn kind_of(r: &Result<TodoReply, ServiceError>) -> &'static str {
    match r {
        Ok(TodoReply::One(_)) => "one record",
        Ok(TodoReply::Many(_)) => "a row set",
        Ok(TodoReply::Deleted) => "a delete acknowledgement",
        Err(ServiceError::Validation) => "a validation error",
        Err(ServiceError::NotFound) => "not found",
        Err(ServiceError::Backend) => "a backend fault",
    }
}

#[test]
fn test_create_todo() {
    let mut backend = FakeBackend::new();
    let body = one(run(&mut backend, TodoOp::Create(dto("Test Title", false))));
    assert_eq!(body.title, "Test Title");
    assert_eq!(body.completed, false);
}

#[test]
fn test_get_todos() {
    let mut backend = FakeBackend::new();
    one(run(&mut backend, TodoOp::Create(dto("Test Title", false))));
    let response_body = match run(&mut backend, TodoOp::List) {
        Ok(TodoReply::Many(rows)) => rows,
        other => panic!("expected a row set, got {:?}", kind_of(&other)),
    };
    assert_eq!(response_body[response_body.len() - 1].title, "Test Title");
    assert_eq!(response_body[response_body.len() - 1].completed, false);
}

#[test]
fn test_get_todo() {
    let mut backend = FakeBackend::new();
    let body = one(run(&mut backend, TodoOp::Create(dto("Test Title", false))));
    let response_body = one(run(&mut backend, TodoOp::Get(body.id)));
    assert_eq!(response_body.title, "Test Title");
    assert_eq!(response_body.completed, false);
}

#[test]
fn test_update_todo() {
    let mut backend = FakeBackend::new();
    let body = one(run(&mut backend, TodoOp::Create(dto("Test Title", false))));
    let response_body = one(run(
        &mut backend,
        TodoOp::Update(body.id, dto("Test Title_update", true)),
    ));
    assert_eq!(response_body.title, "Test Title_update");
    assert_eq!(response_body.completed, true);
}

#[test]
fn test_delete_todo() {
    let mut backend = FakeBackend::new();
    let body = one(run(&mut backend, TodoOp::Create(dto("Test Title", false))));
    let reply = run(&mut backend, TodoOp::Delete(body.id));
    assert!(matches!(reply, Ok(TodoReply::Deleted)));
}

#[test]
fn relational_scenario() {
    let mut backend = FakeBackend::new();
    let body = one(run(&mut backend, TodoOp::Create(dto("buy milk", false))));
    assert!(body.id >= 1);
    assert_eq!(body.title, "buy milk");
    assert_eq!(body.completed, false);
    one(run(&mut backend, TodoOp::Update(body.id, dto("buy milk", true))));
    let read = one(run(&mut backend, TodoOp::Get(body.id)));
    assert_eq!(read.completed, true);
    assert!(matches!(
        run(&mut backend, TodoOp::Delete(body.id)),
        Ok(TodoReply::Deleted)
    ));
    // a repeat delete affects zero rows: NotFound, not success
    assert!(matches!(
        run(&mut backend, TodoOp::Delete(body.id)),
        Err(ServiceError::NotFound)
    ));
}

#[test]
fn get_absent_todo_is_not_found() {
    let mut backend = FakeBackend::new();
    assert!(matches!(
        run(&mut backend, TodoOp::Get(99)),
        Err(ServiceError::NotFound)
    ));
    assert!(matches!(
        run(&mut backend, TodoOp::Update(99, dto("x", true))),
        Err(ServiceError::NotFound)
    ));
    assert!(matches!(
        run(&mut backend, TodoOp::Delete(99)),
        Err(ServiceError::NotFound)
    ));
}

#[test]
fn empty_title_never_reaches_the_backend() {
    let mut session = Session::start(TodoOp::Create(dto("", false)));
    assert!(session.finished());
    assert!(matches!(session.outcome(), Err(ServiceError::Validation)));
}

#[test]
fn denied_pool_handle_is_a_backend_fault() {
    let mut session = Session::start(TodoOp::Get(1));
    assert!(matches!(session.request(), Some(DbRequest::Acquire)));
    session.step(DbEvent::Failed);
    assert!(session.finished());
    assert!(matches!(session.outcome(), Err(ServiceError::Backend)));
}

#[test]
fn execution_failure_still_releases_the_handle() {
    let mut session = Session::start(TodoOp::Get(1));
    session.step(DbEvent::Acquired);
    session.step(DbEvent::Prepared);
    session.step(DbEvent::Failed);
    // the outcome is decided, but the session insists on the release
    assert!(!session.finished());
    assert!(matches!(session.request(), Some(DbRequest::Release)));
    session.step(DbEvent::Released);
    assert!(session.finished());
    assert!(matches!(session.outcome(), Err(ServiceError::Backend)));
}

#[test]
fn statement_texts_are_the_expected_sql() {
    assert_eq!(
        statement_text(&TodoOp::Create(dto("t", false))),
        "INSERT INTO todos (title, completed) VALUES ($1, $2) RETURNING id, title, completed"
    );
    assert_eq!(statement_text(&TodoOp::List), "SELECT id, title, completed FROM todos");
    assert_eq!(
        statement_text(&TodoOp::Get(1)),
        "SELECT id, title, completed FROM todos WHERE id = $1"
    );
    assert_eq!(
        statement_text(&TodoOp::Update(1, dto("t", false))),
        "UPDATE todos SET title = $1, completed = $2 WHERE id = $3 RETURNING id, title, completed"
    );
    assert_eq!(statement_text(&TodoOp::Delete(1)), "DELETE FROM todos WHERE id = $1");
}

#[test]
fn parameters_bind_positionally() {
    let ps = params_for(&TodoOp::Update(7, dto("walk", true)));
    assert_eq!(ps.len(), 3);
    assert_eq!(param_text(&ps[0]), "walk");
    assert_eq!(param_flag(&ps[1]), true);
    assert_eq!(param_int(&ps[2]), 7);
    assert_eq!(params_for(&TodoOp::List).len(), 0);
    assert_eq!(param_int(&params_for(&TodoOp::Delete(3))[0]), 3);
}

#[test]
fn row_interpretation_edge_cases() {
    let t = Todo { id: 4, title: "t".to_string(), completed: false };
    assert!(matches!(interpret_returned_row(vec![t.clone()]), Ok(_)));
    assert!(matches!(
        interpret_returned_row(Vec::new()),
        Err(ServiceError::Backend)
    ));
    assert!(matches!(
        interpret_selected_row(Vec::new()),
        Err(ServiceError::NotFound)
    ));
    assert!(matches!(
        interpret_selected_row(vec![t.clone(), t.clone()]),
        Err(ServiceError::Backend)
    ));
    assert!(matches!(interpret_affected(0), Err(ServiceError::NotFound)));
    assert!(matches!(interpret_affected(2), Ok(())));
}

#[test]
fn pool_capacity_is_fixed() {
    assert_eq!(POOL_MAX_HANDLES, 16);
}
