//! The task entity and its input payload.
//!
//! A task row carries a store-assigned identifier, required title and
//! content, an optional deadline, a status, and an optional deletion stamp.
//! Timestamps are plain integers: microseconds of a local wall-clock time,
//! with no time zone. A task is active exactly when its deletion stamp is
//! absent.

use vstd::prelude::*;

use crate::status::TaskStatus;

verus! {

/// Mathematical value of a task row.
pub ghost struct TaskView {
    pub id: int,
    pub title: Seq<char>,
    pub content: Seq<char>,
    pub deadline: Option<int>,
    pub status: TaskStatus,
    pub deleted_at: Option<int>,
}

/// Mathematical value of an input payload.
pub ghost struct NewTaskView {
    pub title: Seq<char>,
    pub content: Seq<char>,
    pub deadline: Option<int>,
    pub status: TaskStatus,
}

impl TaskView {
    /// A task is active exactly when it carries no deletion stamp.
    pub open spec fn is_active(self) -> bool {
        self.deleted_at is None
    }

    /// The four mutable fields of the row equal those of the payload.
    pub open spec fn matches_payload(self, p: NewTaskView) -> bool {
        &&& self.title == p.title
        &&& self.content == p.content
        &&& self.deadline == p.deadline
        &&& self.status == p.status
    }

    /// The row with its four mutable fields replaced by the payload;
    /// identifier and deletion stamp untouched.
    pub open spec fn with_payload(self, p: NewTaskView) -> TaskView {
        TaskView {
            id: self.id,
            title: p.title,
            content: p.content,
            deadline: p.deadline,
            status: p.status,
            deleted_at: self.deleted_at,
        }
    }

    /// The row stamped as soft-deleted at the given time; every other
    /// field untouched.
    pub open spec fn stamped_deleted(self, now: int) -> TaskView {
        TaskView {
            id: self.id,
            title: self.title,
            content: self.content,
            deadline: self.deadline,
            status: self.status,
            deleted_at: Some(now),
        }
    }
}

/// The freshly inserted row for a payload: the assigned identifier, the
/// payload's mutable fields, and no deletion stamp.
pub open spec fn task_view_of(id: int, p: NewTaskView) -> TaskView {
    TaskView {
        id: id,
        title: p.title,
        content: p.content,
        deadline: p.deadline,
        status: p.status,
        deleted_at: None,
    }
}

/// A persisted task row.
#[derive(Debug, PartialEq, Eq)]
pub struct Task {
    pub id: i32,
    pub title: String,
    pub content: String,
    pub deadline: Option<i64>,
    pub status: TaskStatus,
    pub deleted_at: Option<i64>,
}

impl View for Task {
    type V = TaskView;

    open spec fn view(&self) -> TaskView {
        TaskView {
            id: self.id as int,
            title: self.title@,
            content: self.content@,
            deadline: match self.deadline {
                Some(t) => Some(t as int),
                None => None,
            },
            status: self.status,
            deleted_at: match self.deleted_at {
                Some(t) => Some(t as int),
                None => None,
            },
        }
    }
}

impl Clone for Task {
    fn clone(&self) -> (r: Self)
        ensures
            r == *self,
    {
        Task {
            id: self.id,
            title: self.title.clone(),
            content: self.content.clone(),
            deadline: self.deadline,
            status: self.status,
            deleted_at: self.deleted_at,
        }
    }
}

/// The input payload of create and update: the mutable fields of a task,
/// never an identifier and never a deletion stamp.
#[derive(Debug, PartialEq, Eq)]
pub struct NewTask {
    pub title: String,
    pub content: String,
    pub deadline: Option<i64>,
    pub status: TaskStatus,
}

impl View for NewTask {
    type V = NewTaskView;

    open spec fn view(&self) -> NewTaskView {
        NewTaskView {
            title: self.title@,
            content: self.content@,
            deadline: match self.deadline {
                Some(t) => Some(t as int),
                None => None,
            },
            status: self.status,
        }
    }
}

impl Clone for NewTask {
    fn clone(&self) -> (r: Self)
        ensures
            r == *self,
    {
        NewTask {
            title: self.title.clone(),
            content: self.content.clone(),
            deadline: self.deadline,
            status: self.status,
        }
    }
}

} // verus!
