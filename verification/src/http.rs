//! Mapping from operation outcomes to HTTP replies.
//!
//! Each request handler acquires a connection, invokes exactly one
//! persistence operation, and maps the outcome to an HTTP status and body.
//! These functions are that mapping: pool acquisition failures and backend
//! failures become server errors, a missing active row becomes a not-found
//! reply naming the identifier, and successes carry the operation's result.

use vstd::prelude::*;

use crate::task::Task;

verus! {

/// A failure that can only be reported as a server error: the pool could
/// not hand out a connection within its timeout, or the store failed for
/// any reason other than a missing row. Both carry a rendered message.
#[derive(Debug, Clone, PartialEq, Eq)]
pub enum ServerFailure {
    PoolExhausted(String),
    StoreFailure(String),
}

/// A failure of a lookup by identifier: either a server-side failure, or
/// no active row carries the identifier.
#[derive(Debug, Clone, PartialEq, Eq)]
pub enum LookupFailure {
    Unavailable(ServerFailure),
    NoSuchTask,
}

/// The body of a reply. Message rendering is left to the boundary: a
/// not-found body names the identifier it reports, and failure bodies carry
/// the message they were handed.
#[derive(Debug, Clone, PartialEq, Eq)]
pub enum ReplyBody {
    TaskBody(Task),
    TaskListBody(Vec<Task>),
    EmptyBody,
    NotFoundBody(i32),
    FailureBody(String),
}

/// An HTTP reply: a status code and a body.
pub struct HttpReply {
    pub status: u16,
    pub body: ReplyBody,
}

/// The server-error reply for a failure: always status 500, with the
/// failure's message as the body.
pub fn reply_failure(failure: ServerFailure) -> (r: HttpReply)
    ensures
        r.status == 500,
        match failure {
            ServerFailure::PoolExhausted(m) => r.body matches ReplyBody::FailureBody(b) && b == m,
            ServerFailure::StoreFailure(m) => r.body matches ReplyBody::FailureBody(b) && b == m,
        },
{
    match failure {
        ServerFailure::PoolExhausted(m) => HttpReply {
            status: 500,
            body: ReplyBody::FailureBody(m),
        },
        ServerFailure::StoreFailure(m) => HttpReply {
            status: 500,
            body: ReplyBody::FailureBody(m),
        },
    }
}

/// The reply to a create request: the created task on success, a server
/// error otherwise.
pub fn reply_create(outcome: Result<Task, ServerFailure>) -> (r: HttpReply)
    ensures
        match outcome {
            Ok(t) => r.status == 200 && (r.body matches ReplyBody::TaskBody(b) && b == t),
            Err(f) => r.status == 500 && (r.body matches ReplyBody::FailureBody(b) && b
                == failure_message(f)),
        },
{
    match outcome {
        Ok(t) => HttpReply { status: 200, body: ReplyBody::TaskBody(t) },
        Err(f) => reply_failure(f),
    }
}

/// The reply to a list request: the array of active tasks on success, a
/// server error otherwise.
pub fn reply_list(outcome: Result<Vec<Task>, ServerFailure>) -> (r: HttpReply)
    ensures
        match outcome {
            Ok(tasks) => r.status == 200 && (r.body matches ReplyBody::TaskListBody(b) && b@
                == tasks@),
            Err(f) => r.status == 500 && (r.body matches ReplyBody::FailureBody(b) && b
                == failure_message(f)),
        },
{
    match outcome {
        Ok(tasks) => HttpReply { status: 200, body: ReplyBody::TaskListBody(tasks) },
        Err(f) => reply_failure(f),
    }
}

/// The reply to a fetch by identifier: the task on success, a not-found
/// reply naming the identifier when no active row matches, a server error
/// otherwise.
pub fn reply_get(task_id: i32, outcome: Result<Task, LookupFailure>) -> (r: HttpReply)
    ensures
        match outcome {
            Ok(t) => r.status == 200 && (r.body matches ReplyBody::TaskBody(b) && b == t),
            Err(LookupFailure::NoSuchTask) => r.status == 404 && r.body
                == ReplyBody::NotFoundBody(task_id),
            Err(LookupFailure::Unavailable(f)) => r.status == 500 && (r.body
                matches ReplyBody::FailureBody(b) && b == failure_message(f)),
        },
{
    match outcome {
        Ok(t) => HttpReply { status: 200, body: ReplyBody::TaskBody(t) },
        Err(LookupFailure::NoSuchTask) => HttpReply {
            status: 404,
            body: ReplyBody::NotFoundBody(task_id),
        },
        Err(LookupFailure::Unavailable(f)) => reply_failure(f),
    }
}

/// The reply to an update by identifier: the updated task on success, a
/// not-found reply naming the identifier when no active row matches, a
/// server error otherwise.
pub fn reply_update(task_id: i32, outcome: Result<Task, LookupFailure>) -> (r: HttpReply)
    ensures
        match outcome {
            Ok(t) => r.status == 200 && (r.body matches ReplyBody::TaskBody(b) && b == t),
            Err(LookupFailure::NoSuchTask) => r.status == 404 && r.body
                == ReplyBody::NotFoundBody(task_id),
            Err(LookupFailure::Unavailable(f)) => r.status == 500 && (r.body
                matches ReplyBody::FailureBody(b) && b == failure_message(f)),
        },
{
    reply_get(task_id, outcome)
}

/// The reply to a soft delete: an empty success when at least one row was
/// written, a not-found reply naming the identifier when no row carries it,
/// a server error otherwise.
pub fn reply_delete(task_id: i32, outcome: Result<usize, ServerFailure>) -> (r: HttpReply)
    ensures
        match outcome {
            Ok(count) => if count > 0 {
                r.status == 200 && r.body == ReplyBody::EmptyBody
            } else {
                r.status == 404 && r.body == ReplyBody::NotFoundBody(task_id)
            },
            Err(f) => r.status == 500 && (r.body matches ReplyBody::FailureBody(b) && b
                == failure_message(f)),
        },
{
    match outcome {
        Ok(count) => if count > 0 {
            HttpReply { status: 200, body: ReplyBody::EmptyBody }
        } else {
            HttpReply { status: 404, body: ReplyBody::NotFoundBody(task_id) }
        },
        Err(f) => reply_failure(f),
    }
}

/// The message a server-side failure carries.
pub open spec fn failure_message(f: ServerFailure) -> String {
    match f {
        ServerFailure::PoolExhausted(m) => m,
        ServerFailure::StoreFailure(m) => m,
    }
}

} // verus!
