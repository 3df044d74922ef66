//! The pooled relational store's call core. The backend round trips
//! themselves are I/O and happen outside the library; what is verified
//! here is everything the store decides per call: which parameterized
//! statement each operation runs, the positional order of its bound
//! values, how returned rows and affected-row counts map onto results,
//! and the statement lifecycle — acquire a handle, prepare, execute,
//! release on every exit path, then report the outcome.
//!
//! A driver owns one `Session` per CRUD call. It repeatedly asks
//! `request` what to do against the backend, performs that one action,
//! and feeds the observed `DbEvent` back through `step`, until
//! `finished`. The contracts pin the whole transition relation, so any
//! driver that follows them inherits the store contract.

use vstd::prelude::*;
use crate::models::{Todo, TodoDTO};
use crate::service::{check_todo_payload, todo_payload_valid, ServiceError};

verus! {

/// The fixed capacity of the connection pool: at most this many
/// backend handles exist at once. A caller that finds all of them held
/// waits until one is released; the wait is unbounded by design.
pub const POOL_MAX_HANDLES: usize = 16;

/// One CRUD operation against the todo collection.
pub enum TodoOp {
    Create(TodoDTO),
    List,
    Get(i64),
    Update(i64, TodoDTO),
    Delete(i64),
}

/// A value bound positionally into a prepared statement.
pub enum SqlParam {
    Int(i64),
    Text(String),
    Flag(bool),
}

/// Abstract value of a `SqlParam`.
pub enum SqlParamV {
    Int(i64),
    Text(Seq<char>),
    Flag(bool),
}

impl View for SqlParam {
    type V = SqlParamV;

    open spec fn view(&self) -> SqlParamV {
        match self {
            SqlParam::Int(n) => SqlParamV::Int(*n),
            SqlParam::Text(s) => SqlParamV::Text(s@),
            SqlParam::Flag(b) => SqlParamV::Flag(*b),
        }
    }
}

/// One backend action a driver performs on the session's behalf.
pub enum DbRequest {
    /// Take a handle from the pool, waiting if all are held.
    Acquire,
    /// Prepare this statement text on the held handle.
    Prepare(&'static str),
    /// Execute the prepared statement with these positional values;
    /// the flag says whether a row set (true) or an affected-row
    /// count (false) is expected back.
    Execute(Vec<SqlParam>, bool),
    /// Return the held handle to the pool.
    Release,
}

/// What the driver observed the backend do.
pub enum DbEvent {
    /// A pool handle was granted.
    Acquired,
    /// The statement was prepared.
    Prepared,
    /// The statement ran and returned these rows, decoded in the fixed
    /// column order: identifier, then fields in declaration order.
    Rows(Vec<Todo>),
    /// The statement ran and affected this many rows.
    Affected(u64),
    /// The backend action failed (pool, preparation or execution).
    Failed,
    /// The handle went back to the pool.
    Released,
}

/// What a finished call reports.
pub enum TodoReply {
    /// The single record a create, get or update produced.
    One(Todo),
    /// Every record, for a list.
    Many(Vec<Todo>),
    /// The acknowledgement a delete produces; it carries no record.
    Deleted,
}

/// Where a call stands. A handle is held exactly in `Prepare`,
/// `Execute` and `Settle`.
pub enum Phase {
    /// Waiting for a pool handle.
    Connect,
    /// Handle held; the statement must be prepared.
    Prepare,
    /// Statement prepared; it must be executed.
    Execute,
    /// The outcome is decided but the handle is still held; the one
    /// remaining action is to release it.
    Settle(Result<TodoReply, ServiceError>),
    /// Finished; the handle is not held.
    Done(Result<TodoReply, ServiceError>),
}

/// Whether a well-formed payload backs the operation; operations
/// without a payload are always well-formed.
pub open spec fn todo_op_valid(op: TodoOp) -> bool {
    match op {
        TodoOp::Create(d) => todo_payload_valid(d@),
        TodoOp::Update(_, d) => todo_payload_valid(d@),
        _ => true,
    }
}

/// Whether the operation's statement returns rows (true) or an
/// affected-row count (false).
pub open spec fn op_wants_rows(op: TodoOp) -> bool {
    !(op matches TodoOp::Delete(_))
}

/// The statement text per operation. Create and update use a returning
/// form: one round trip both applies the write and reads the record
/// back, so a concurrent delete cannot slip in between an update and a
/// follow-up read — zero returned rows then simply means NotFound.
pub open spec fn spec_statement_text(op: TodoOp) -> Seq<char> {
    match op {
        TodoOp::Create(_) => "INSERT INTO todos (title, completed) VALUES ($1, $2) RETURNING id, title, completed"@,
        TodoOp::List => "SELECT id, title, completed FROM todos"@,
        TodoOp::Get(_) => "SELECT id, title, completed FROM todos WHERE id = $1"@,
        TodoOp::Update(_, _) => "UPDATE todos SET title = $1, completed = $2 WHERE id = $3 RETURNING id, title, completed"@,
        TodoOp::Delete(_) => "DELETE FROM todos WHERE id = $1"@,
    }
}

/// The statement text for `op`.
pub fn statement_text(op: &TodoOp) -> (r: &'static str)
    ensures
        r@ == spec_statement_text(*op),
{
    match op {
        TodoOp::Create(_) => "INSERT INTO todos (title, completed) VALUES ($1, $2) RETURNING id, title, completed",
        TodoOp::List => "SELECT id, title, completed FROM todos",
        TodoOp::Get(_) => "SELECT id, title, completed FROM todos WHERE id = $1",
        TodoOp::Update(_, _) => "UPDATE todos SET title = $1, completed = $2 WHERE id = $3 RETURNING id, title, completed",
        TodoOp::Delete(_) => "DELETE FROM todos WHERE id = $1",
    }
}

/// The values bound into the statement, in positional order: payload
/// fields in declaration order, then the identifier where the
/// statement filters by it.
pub open spec fn spec_params(op: TodoOp) -> Seq<SqlParamV> {
    match op {
        TodoOp::Create(d) => seq![SqlParamV::Text(d.title@), SqlParamV::Flag(d.completed)],
        TodoOp::List => seq![],
        TodoOp::Get(id) => seq![SqlParamV::Int(id)],
        TodoOp::Update(id, d) => seq![
            SqlParamV::Text(d.title@),
            SqlParamV::Flag(d.completed),
            SqlParamV::Int(id),
        ],
        TodoOp::Delete(id) => seq![SqlParamV::Int(id)],
    }
}

/// The concrete bound values for `op`, in the order `spec_params`
/// states.
pub fn params_for(op: &TodoOp) -> (r: Vec<SqlParam>)
    ensures
        r@.len() == spec_params(*op).len(),
        forall|i: int| 0 <= i < r@.len() ==> (#[trigger] r@[i])@ == spec_params(*op)[i],
{
    let mut out: Vec<SqlParam> = Vec::new();
    match op {
        TodoOp::Create(d) => {
            out.push(SqlParam::Text(d.title.clone()));
            out.push(SqlParam::Flag(d.completed));
        }
        TodoOp::List => {}
        TodoOp::Get(id) => {
            out.push(SqlParam::Int(*id));
        }
        TodoOp::Update(id, d) => {
            out.push(SqlParam::Text(d.title.clone()));
            out.push(SqlParam::Flag(d.completed));
            out.push(SqlParam::Int(*id));
        }
        TodoOp::Delete(id) => {
            out.push(SqlParam::Int(*id));
        }
    }
    out
}

/// Interpret the row set of an insert-returning statement: the one
/// returned row is the created record; any other shape is a backend
/// fault.
pub fn interpret_returned_row(rows: Vec<Todo>) -> (r: Result<Todo, ServiceError>)
    ensures
        match r {
            Ok(t) => rows@.len() == 1 && t == rows@[0],
            Err(e) => e == ServiceError::Backend && rows@.len() != 1,
        },
{
    let mut rows = rows;
    if rows.len() == 1 {
        match rows.pop() {
            Some(t) => Ok(t),
            None => Err(ServiceError::Backend),
        }
    } else {
        Err(ServiceError::Backend)
    }
}

/// Interpret the row set of a select or update-returning statement by
/// identifier: zero rows is NotFound — expected, not a fault; one row
/// is the record; more than one contradicts identifier uniqueness and
/// is a backend fault.
pub fn interpret_selected_row(rows: Vec<Todo>) -> (r: Result<Todo, ServiceError>)
    ensures
        match r {
            Ok(t) => rows@.len() == 1 && t == rows@[0],
            Err(e) => match e {
                ServiceError::NotFound => rows@.len() == 0,
                ServiceError::Backend => rows@.len() > 1,
                ServiceError::Validation => false,
            },
        },
{
    let mut rows = rows;
    if rows.len() == 0 {
        Err(ServiceError::NotFound)
    } else if rows.len() == 1 {
        match rows.pop() {
            Some(t) => Ok(t),
            None => Err(ServiceError::Backend),
        }
    } else {
        Err(ServiceError::Backend)
    }
}

/// Interpret a delete's affected-row count: zero affected rows maps to
/// NotFound, never to success.
pub fn interpret_affected(n: u64) -> (r: Result<(), ServiceError>)
    ensures
        match r {
            Ok(()) => n >= 1,
            Err(e) => e == ServiceError::NotFound && n == 0,
        },
{
    if n == 0 {
        Err(ServiceError::NotFound)
    } else {
        Ok(())
    }
}

/// How a row set decides the outcome of `op`.
pub open spec fn row_outcome_matches(
    op: TodoOp,
    rows: Seq<Todo>,
    o: Result<TodoReply, ServiceError>,
) -> bool {
    match op {
        TodoOp::Create(_) => if rows.len() == 1 {
            o matches Ok(TodoReply::One(t)) && t == rows[0]
        } else {
            o == Err::<TodoReply, ServiceError>(ServiceError::Backend)
        },
        TodoOp::List => o matches Ok(TodoReply::Many(v)) && v@ == rows,
        TodoOp::Get(_) => if rows.len() == 1 {
            o matches Ok(TodoReply::One(t)) && t == rows[0]
        } else if rows.len() == 0 {
            o == Err::<TodoReply, ServiceError>(ServiceError::NotFound)
        } else {
            o == Err::<TodoReply, ServiceError>(ServiceError::Backend)
        },
        TodoOp::Update(_, _) => if rows.len() == 1 {
            o matches Ok(TodoReply::One(t)) && t == rows[0]
        } else if rows.len() == 0 {
            o == Err::<TodoReply, ServiceError>(ServiceError::NotFound)
        } else {
            o == Err::<TodoReply, ServiceError>(ServiceError::Backend)
        },
        TodoOp::Delete(_) => o == Err::<TodoReply, ServiceError>(ServiceError::Backend),
    }
}

/// How an affected-row count decides the outcome of `op`.
pub open spec fn count_outcome_matches(
    op: TodoOp,
    n: u64,
    o: Result<TodoReply, ServiceError>,
) -> bool {
    match op {
        TodoOp::Delete(_) => if n == 0 {
            o == Err::<TodoReply, ServiceError>(ServiceError::NotFound)
        } else {
            o == Ok::<TodoReply, ServiceError>(TodoReply::Deleted)
        },
        _ => o == Err::<TodoReply, ServiceError>(ServiceError::Backend),
    }
}

/// The full transition relation of a session: what one observed event
/// does to the call, for every phase and every event. An unexpected
/// event while work is pending is treated as a backend fault; an
/// unexpected event while settling leaves the session waiting for its
/// release.
pub open spec fn step_spec(pre: Session, ev: DbEvent, post: Session) -> bool {
    post.op == pre.op && match pre.phase {
        Phase::Connect => match ev {
            DbEvent::Acquired => post.phase == Phase::Prepare,
            _ => post.phase == Phase::Done(Err(ServiceError::Backend)),
        },
        Phase::Prepare => match ev {
            DbEvent::Prepared => post.phase == Phase::Execute,
            _ => post.phase == Phase::Settle(Err(ServiceError::Backend)),
        },
        Phase::Execute => match ev {
            DbEvent::Rows(rows) => post.phase matches Phase::Settle(o)
                && row_outcome_matches(pre.op, rows@, o),
            DbEvent::Affected(n) => post.phase matches Phase::Settle(o)
                && count_outcome_matches(pre.op, n, o),
            _ => post.phase == Phase::Settle(Err(ServiceError::Backend)),
        },
        Phase::Settle(o) => match ev {
            DbEvent::Released => post.phase == Phase::Done(o),
            _ => post.phase == Phase::Settle(o),
        },
        Phase::Done(o) => post.phase == Phase::Done(o),
    }
}

/// One CRUD call in flight against the pooled store.
pub struct Session {
    pub op: TodoOp,
    pub phase: Phase,
}

impl Session {
    /// Begin one call. A malformed payload is rejected here, before
    /// any handle is acquired: validation failures never reach the
    /// backend.
    pub fn start(op: TodoOp) -> (s: Session)
        ensures
            s.op == op,
            todo_op_valid(op) ==> s.phase == Phase::Connect,
            !todo_op_valid(op) ==> s.phase == Phase::Done(Err(ServiceError::Validation)),
    {
        let ok = match &op {
            TodoOp::Create(d) => check_todo_payload(d),
            TodoOp::Update(_, d) => check_todo_payload(d),
            _ => true,
        };
        let phase = if ok {
            Phase::Connect
        } else {
            Phase::Done(Err(ServiceError::Validation))
        };
        Session { op, phase }
    }

    /// The backend action the driver must perform next, or nothing
    /// when the call is finished. The handle is acquired first and
    /// released last; while the session holds one, the only way to
    /// finish runs through `Release`.
    pub fn request(&self) -> (r: Option<DbRequest>)
        ensures
            match r {
                Some(a) => match self.phase {
                    Phase::Connect => a == DbRequest::Acquire,
                    Phase::Prepare => a matches DbRequest::Prepare(sql)
                        && sql@ == spec_statement_text(self.op),
                    Phase::Execute => a matches DbRequest::Execute(ps, wants)
                        && ps@.len() == spec_params(self.op).len()
                        && (forall|i: int| 0 <= i < ps@.len()
                            ==> (#[trigger] ps@[i])@ == spec_params(self.op)[i])
                        && wants == op_wants_rows(self.op),
                    Phase::Settle(_) => a == DbRequest::Release,
                    Phase::Done(_) => false,
                },
                None => self.phase matches Phase::Done(_),
            },
    {
        match &self.phase {
            Phase::Connect => Some(DbRequest::Acquire),
            Phase::Prepare => Some(DbRequest::Prepare(statement_text(&self.op))),
            Phase::Execute => {
                let wants = match &self.op {
                    TodoOp::Delete(_) => false,
                    _ => true,
                };
                Some(DbRequest::Execute(params_for(&self.op), wants))
            }
            Phase::Settle(_) => Some(DbRequest::Release),
            Phase::Done(_) => None,
        }
    }

    /// Whether the call is finished and the outcome can be taken.
    pub fn finished(&self) -> (b: bool)
        ensures
            b == (self.phase matches Phase::Done(_)),
    {
        match &self.phase {
            Phase::Done(_) => true,
            _ => false,
        }
    }

    /// The outcome of a finished call.
    pub fn outcome(self) -> (r: Result<TodoReply, ServiceError>)
        requires
            self.phase matches Phase::Done(_),
        ensures
            self.phase == Phase::Done(r),
    {
        match self.phase {
            Phase::Done(o) => o,
            _ => vstd::pervasive::unreached(),
        }
    }

    /// Advance by one observed event, exactly as `step_spec` states.
    pub fn step(&mut self, ev: DbEvent)
        ensures
            step_spec(*old(self), ev, *final(self)),
    {
        let mut ph = Phase::Connect;
        core::mem::swap(&mut ph, &mut self.phase);
        let next: Phase = match ph {
            Phase::Connect => match ev {
                DbEvent::Acquired => Phase::Prepare,
                _ => Phase::Done(Err(ServiceError::Backend)),
            },
            Phase::Prepare => match ev {
                DbEvent::Prepared => Phase::Execute,
                _ => Phase::Settle(Err(ServiceError::Backend)),
            },
            Phase::Execute => match ev {
                DbEvent::Rows(rows) => Phase::Settle(self.row_outcome(rows)),
                DbEvent::Affected(n) => Phase::Settle(self.count_outcome(n)),
                _ => Phase::Settle(Err(ServiceError::Backend)),
            },
            Phase::Settle(o) => match ev {
                DbEvent::Released => Phase::Done(o),
                _ => Phase::Settle(o),
            },
            Phase::Done(o) => Phase::Done(o),
        };
        self.phase = next;
    }

    /// Decide the outcome from a returned row set.
    fn row_outcome(&self, rows: Vec<Todo>) -> (o: Result<TodoReply, ServiceError>)
        ensures
            row_outcome_matches(self.op, rows@, o),
    {
        match &self.op {
            TodoOp::Create(_) => match interpret_returned_row(rows) {
                Ok(t) => Ok(TodoReply::One(t)),
                Err(e) => Err(e),
            },
            TodoOp::List => Ok(TodoReply::Many(rows)),
            TodoOp::Get(_) => match interpret_selected_row(rows) {
                Ok(t) => Ok(TodoReply::One(t)),
                Err(e) => Err(e),
            },
            TodoOp::Update(_, _) => match interpret_selected_row(rows) {
                Ok(t) => Ok(TodoReply::One(t)),
                Err(e) => Err(e),
            },
            TodoOp::Delete(_) => Err(ServiceError::Backend),
        }
    }

    /// Decide the outcome from an affected-row count.
    fn count_outcome(&self, n: u64) -> (o: Result<TodoReply, ServiceError>)
        ensures
            count_outcome_matches(self.op, n, o),
    {
        match &self.op {
            TodoOp::Delete(_) => match interpret_affected(n) {
                Ok(()) => Ok(TodoReply::Deleted),
                Err(e) => Err(e),
            },
            _ => Err(ServiceError::Backend),
        }
    }
}

/// A finished call never leaks its handle: a step that finishes a
/// session either just released a held handle, or the handle was never
/// acquired at all — the pool denied it while connecting, or
/// validation finished the call before any backend work.
pub proof fn lemma_release_before_done(pre: Session, ev: DbEvent, post: Session)
    requires
        step_spec(pre, ev, post),
        post.phase matches Phase::Done(_),
        !(pre.phase matches Phase::Done(_)),
    ensures
        (pre.phase matches Phase::Settle(_) && ev == DbEvent::Released)
            || pre.phase == Phase::Connect,
{
}

/// A full round trip on a row-returning statement: once the pool
/// grants a handle the call runs to completion — prepared, executed,
/// released — and finishes with exactly the outcome the returned row
/// set dictates. No request is lost between grant and completion.
pub proof fn lemma_granted_run_completes(
    s0: Session,
    rows: Vec<Todo>,
    s1: Session,
    s2: Session,
    s3: Session,
    s4: Session,
)
    requires
        s0.phase == Phase::Connect,
        step_spec(s0, DbEvent::Acquired, s1),
        step_spec(s1, DbEvent::Prepared, s2),
        step_spec(s2, DbEvent::Rows(rows), s3),
        step_spec(s3, DbEvent::Released, s4),
    ensures
        s4.op == s0.op,
        s4.phase matches Phase::Done(o) && row_outcome_matches(s0.op, rows@, o),
{
}

/// The same round trip on a count-returning statement: the call
/// finishes with exactly the outcome the affected-row count dictates.
pub proof fn lemma_granted_count_run_completes(
    s0: Session,
    n: u64,
    s1: Session,
    s2: Session,
    s3: Session,
    s4: Session,
)
    requires
        s0.phase == Phase::Connect,
        step_spec(s0, DbEvent::Acquired, s1),
        step_spec(s1, DbEvent::Prepared, s2),
        step_spec(s2, DbEvent::Affected(n), s3),
        step_spec(s3, DbEvent::Released, s4),
    ensures
        s4.op == s0.op,
        s4.phase matches Phase::Done(o) && count_outcome_matches(s0.op, n, o),
{
}

/// A finished call's outcome is fixed: no further event changes it or
/// reacquires a handle.
pub proof fn lemma_done_is_final(pre: Session, ev: DbEvent, post: Session)
    requires
        step_spec(pre, ev, post),
        pre.phase matches Phase::Done(_),
    ensures
        post.phase == pre.phase,
        post.op == pre.op,
{
}

} // verus!
