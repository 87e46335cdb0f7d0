//! A verified model of the task table and its five persistence operations.
//!
//! The store holds the persisted rows and the next identifier the backing
//! store would assign. Identifiers are assigned monotonically, starting at
//! one, and are unique and immutable. Deletion is always soft: it stamps a
//! row's deletion time and never removes the row. Reads and updates see
//! active rows only; soft delete reaches every row with the given
//! identifier, active or not.

use vstd::prelude::*;

use crate::clock;
use crate::task::{NewTask, NewTaskView, Task, TaskView};

verus! {

/// A store-level failure: either no matching active row, or any other
/// backend failure, carried as a rendered message.
#[derive(Debug, Clone, PartialEq, Eq)]
pub enum StoreError {
    NotFound,
    Backend(String),
}

/// Mathematical value of the store: the persisted rows in store order, and
/// the identifier the next insert will be assigned.
pub ghost struct StoreView {
    pub rows: Seq<TaskView>,
    pub next_id: int,
}

impl StoreView {
    /// Identifiers start at one, stay below the next one to be assigned,
    /// and never repeat; the next identifier fits the identifier type.
    pub open spec fn wf(self) -> bool {
        &&& 1 <= self.next_id <= i32::MAX as int
        &&& forall|i: int|
            0 <= i < self.rows.len() ==> 1 <= (#[trigger] self.rows[i]).id < self.next_id
        &&& forall|i: int, j: int|
            0 <= i < j < self.rows.len() ==> (#[trigger] self.rows[i]).id != (#[trigger] self.rows[j]).id
    }
}

/// The row matches a lookup: it carries the identifier and is active.
pub open spec fn is_match(t: TaskView, id: int) -> bool {
    t.id == id && t.is_active()
}

/// Some row carries the identifier, active or not.
pub open spec fn has_row(rows: Seq<TaskView>, id: int) -> bool {
    exists|i: int| 0 <= i < rows.len() && (#[trigger] rows[i]).id == id
}

/// Some active row carries the identifier.
pub open spec fn has_active(rows: Seq<TaskView>, id: int) -> bool {
    exists|i: int| 0 <= i < rows.len() && is_match(#[trigger] rows[i], id)
}

/// The first active row carrying the identifier, if any.
pub open spec fn find_active(rows: Seq<TaskView>, id: int) -> Option<TaskView>
    decreases rows.len(),
{
    if rows.len() == 0 {
        None
    } else if is_match(rows[0], id) {
        Some(rows[0])
    } else {
        find_active(rows.drop_first(), id)
    }
}

/// The rows after an update: the active row carrying the identifier has its
/// mutable fields replaced; every other row is untouched.
pub open spec fn update_spec(rows: Seq<TaskView>, id: int, p: NewTaskView) -> Seq<TaskView> {
    rows.map_values(|t: TaskView| if is_match(t, id) { t.with_payload(p) } else { t })
}

/// The rows after a soft delete: every row carrying the identifier, active
/// or not, is stamped with the deletion time; every other row is untouched.
pub open spec fn delete_spec(rows: Seq<TaskView>, id: int, now: int) -> Seq<TaskView> {
    rows.map_values(|t: TaskView| if t.id == id { t.stamped_deleted(now) } else { t })
}

/// The active rows, in store order.
pub open spec fn active_rows(rows: Seq<TaskView>) -> Seq<TaskView> {
    rows.filter(|t: TaskView| t.is_active())
}

/// The mathematical rows of a sequence of task values.
pub open spec fn rows_of(tasks: Seq<Task>) -> Seq<TaskView> {
    tasks.map_values(|t: Task| t@)
}

/// The task table: persisted rows and the next identifier to assign.
pub struct TaskStore {
    tasks: Vec<Task>,
    next_id: i32,
}

impl View for TaskStore {
    type V = StoreView;

    closed spec fn view(&self) -> StoreView {
        StoreView { rows: rows_of(self.tasks@), next_id: self.next_id as int }
    }
}

impl TaskStore {
    /// The store's invariant.
    pub open spec fn inv(self) -> bool {
        self@.wf()
    }

    /// An empty store; the first insert will be assigned identifier one.
    pub fn new() -> (s: TaskStore)
        ensures
            s.inv(),
            s@.rows == Seq::<TaskView>::empty(),
            s@.next_id == 1,
    {
        let s = TaskStore { tasks: Vec::new(), next_id: 1 };
        proof {
            assert(s@.rows =~= Seq::<TaskView>::empty());
        }
        s
    }

    /// Insert a new row with no deletion stamp and return it; the row gets
    /// the next identifier, and later inserts get strictly larger ones.
    pub fn create_task(&mut self, new_task: NewTask) -> (t: Task)
        requires
            old(self).inv(),
            old(self)@.next_id < i32::MAX as int,
        ensures
            final(self).inv(),
            final(self)@.rows == old(self)@.rows.push(
                crate::task::task_view_of(old(self)@.next_id, new_task@),
            ),
            final(self)@.next_id == old(self)@.next_id + 1,
            t@ == crate::task::task_view_of(old(self)@.next_id, new_task@),
    {
        let id = self.next_id;
        let row = Task {
            id,
            title: new_task.title,
            content: new_task.content,
            deadline: new_task.deadline,
            status: new_task.status,
            deleted_at: None,
        };
        let created = row.clone();
        self.tasks.push(row);
        self.next_id = id + 1;
        proof {
            assert(self@.rows =~= old(self)@.rows.push(created@));
        }
        created
    }

    /// All active rows, in store order.
    pub fn get_all_tasks(&self) -> (r: Vec<Task>)
        ensures
            rows_of(r@) == active_rows(self@.rows),
    {
        let ghost rows = self@.rows;
        let mut out: Vec<Task> = Vec::new();
        let n = self.tasks.len();
        let mut i: usize = 0;
        while i < n
            invariant
                n == self.tasks.len(),
                i <= n,
                rows == self@.rows,
                rows_of(out@) == active_rows(rows.take(i as int)),
            decreases n - i,
        {
            proof {
                assert(rows.take(i + 1) =~= rows.take(i as int).push(rows[i as int]));
                lemma_filter_push(
                    rows.take(i as int),
                    rows[i as int],
                    |t: TaskView| t.is_active(),
                );
            }
            if self.tasks[i].deleted_at.is_none() {
                out.push(self.tasks[i].clone());
            }
            proof {
                assert(rows_of(out@) =~= active_rows(rows.take(i + 1)));
            }
            i = i + 1;
        }
        proof {
            assert(rows.take(n as int) =~= rows);
        }
        out
    }

    /// The active row with the given identifier; `NotFound` when no such
    /// active row exists, in particular when the row is soft-deleted.
    pub fn get_task(&self, task_id: i32) -> (r: Result<Task, StoreError>)
        ensures
            match r {
                Ok(t) => find_active(self@.rows, task_id as int) == Some(t@),
                Err(e) => find_active(self@.rows, task_id as int) is None && e is NotFound,
            },
    {
        match find_active_idx(&self.tasks, task_id) {
            Some(i) => {
                proof {
                    lemma_find_active_at(self@.rows, task_id as int, i as int);
                }
                Ok(self.tasks[i].clone())
            },
            None => {
                proof {
                    lemma_find_active_none(self@.rows, task_id as int);
                }
                Err(StoreError::NotFound)
            },
        }
    }

    /// Replace the mutable fields of the active row with the given
    /// identifier and return the row as re-read after the write; `NotFound`
    /// when no active row matches, whether the row is soft-deleted or does
    /// not exist at all. Identifier and deletion stamp are never written.
    pub fn update_task(&mut self, task_id: i32, updated_task: NewTask) -> (r: Result<
        Task,
        StoreError,
    >)
        requires
            old(self).inv(),
        ensures
            final(self).inv(),
            final(self)@.next_id == old(self)@.next_id,
            final(self)@.rows == update_spec(old(self)@.rows, task_id as int, updated_task@),
            match find_active(old(self)@.rows, task_id as int) {
                Some(u) => (r matches Ok(t) && t@ == u.with_payload(updated_task@)),
                None => (r matches Err(e) && e is NotFound),
            },
    {
        let ghost old_rows = self@.rows;
        let ghost p = updated_task@;
        match find_active_idx(&self.tasks, task_id) {
            Some(i) => {
                proof {
                    lemma_find_active_at(old_rows, task_id as int, i as int);
                }
                let deleted_at = self.tasks[i].deleted_at;
                let row = Task {
                    id: task_id,
                    title: updated_task.title,
                    content: updated_task.content,
                    deadline: updated_task.deadline,
                    status: updated_task.status,
                    deleted_at,
                };
                let updated = row.clone();
                self.tasks[i] = row;
                proof {
                    assert forall|j: int|
                        0 <= j < old_rows.len() && j != i implies !is_match(
                        #[trigger] old_rows[j],
                        task_id as int,
                    ) by {
                        if j < i {
                            assert(old_rows[j].id != old_rows[i as int].id);
                        } else {
                            assert(old_rows[i as int].id != old_rows[j].id);
                        }
                    }
                    assert(self@.rows =~= update_spec(old_rows, task_id as int, p));
                }
                Ok(updated)
            },
            None => {
                proof {
                    lemma_find_active_none(old_rows, task_id as int);
                    assert(self@.rows =~= update_spec(old_rows, task_id as int, p));
                }
                Err(StoreError::NotFound)
            },
        }
    }

    /// Stamp the row with the given identifier as soft-deleted at the given
    /// time, whether or not it already was, and report how many rows were
    /// written: one when a row with the identifier exists at all, zero
    /// otherwise. No row is ever removed.
    pub fn delete_task_at(&mut self, task_id: i32, now: i64) -> (n: usize)
        requires
            old(self).inv(),
        ensures
            final(self).inv(),
            final(self)@.next_id == old(self)@.next_id,
            final(self)@.rows == delete_spec(old(self)@.rows, task_id as int, now as int),
            has_row(old(self)@.rows, task_id as int) ==> n == 1,
            !has_row(old(self)@.rows, task_id as int) ==> n == 0,
    {
        let ghost old_rows = self@.rows;
        match find_row_idx(&self.tasks, task_id) {
            Some(i) => {
                let row = Task {
                    id: self.tasks[i].id,
                    title: self.tasks[i].title.clone(),
                    content: self.tasks[i].content.clone(),
                    deadline: self.tasks[i].deadline,
                    status: self.tasks[i].status,
                    deleted_at: Some(now),
                };
                self.tasks[i] = row;
                proof {
                    assert forall|j: int|
                        0 <= j < old_rows.len() && j != i implies (#[trigger] old_rows[j]).id
                        != task_id as int by {
                        if j < i {
                            assert(old_rows[j].id != old_rows[i as int].id);
                        } else {
                            assert(old_rows[i as int].id != old_rows[j].id);
                        }
                    }
                    assert(self@.rows =~= delete_spec(old_rows, task_id as int, now as int));
                }
                1
            },
            None => {
                proof {
                    assert(self@.rows =~= delete_spec(old_rows, task_id as int, now as int));
                }
                0
            },
        }
    }

    /// Soft-delete with the deletion time read from the wall clock; the
    /// stamp's value depends on the clock, everything else is as for
    /// [`Self::delete_task_at`].
    pub fn delete_task(&mut self, task_id: i32) -> (n: usize)
        requires
            old(self).inv(),
        ensures
            final(self).inv(),
            final(self)@.next_id == old(self)@.next_id,
            exists|now: int|
                final(self)@.rows == #[trigger] delete_spec(
                    old(self)@.rows,
                    task_id as int,
                    now,
                ),
            has_row(old(self)@.rows, task_id as int) ==> n == 1,
            !has_row(old(self)@.rows, task_id as int) ==> n == 0,
    {
        let now = clock::now_timestamp_micros();
        self.delete_task_at(task_id, now)
    }
}

/// The index of the first active row carrying the identifier.
fn find_active_idx(tasks: &Vec<Task>, task_id: i32) -> (r: Option<usize>)
    ensures
        match r {
            Some(i) => i < tasks@.len() && is_match(rows_of(tasks@)[i as int], task_id as int)
                && (forall|j: int|
                0 <= j < i ==> !is_match(#[trigger] rows_of(tasks@)[j], task_id as int)),
            None => forall|j: int|
                0 <= j < tasks@.len() ==> !is_match(#[trigger] rows_of(tasks@)[j], task_id as int),
        },
{
    let n = tasks.len();
    let mut i: usize = 0;
    while i < n
        invariant
            n == tasks@.len(),
            i <= n,
            forall|j: int| 0 <= j < i ==> !is_match(#[trigger] rows_of(tasks@)[j], task_id as int),
        decreases n - i,
    {
        if tasks[i].id == task_id && tasks[i].deleted_at.is_none() {
            return Some(i);
        }
        i = i + 1;
    }
    None
}

/// The index of the first row carrying the identifier, active or not.
fn find_row_idx(tasks: &Vec<Task>, task_id: i32) -> (r: Option<usize>)
    ensures
        match r {
            Some(i) => i < tasks@.len() && rows_of(tasks@)[i as int].id == task_id as int,
            None => !has_row(rows_of(tasks@), task_id as int),
        },
{
    let n = tasks.len();
    let mut i: usize = 0;
    while i < n
        invariant
            n == tasks@.len(),
            i <= n,
            forall|j: int| 0 <= j < i ==> (#[trigger] rows_of(tasks@)[j]).id != task_id as int,
        decreases n - i,
    {
        if tasks[i].id == task_id {
            return Some(i);
        }
        i = i + 1;
    }
    None
}

/// No row matches: the search finds nothing.
proof fn lemma_find_active_none(rows: Seq<TaskView>, id: int)
    requires
        forall|j: int| 0 <= j < rows.len() ==> !is_match(#[trigger] rows[j], id),
    ensures
        find_active(rows, id) is None,
    decreases rows.len(),
{
    if rows.len() > 0 {
        assert forall|j: int|
            0 <= j < rows.drop_first().len() implies !is_match(
            #[trigger] rows.drop_first()[j],
            id,
        ) by {
            assert(rows.drop_first()[j] == rows[j + 1]);
        }
        lemma_find_active_none(rows.drop_first(), id);
    }
}

/// The first matching index determines what the search finds.
proof fn lemma_find_active_at(rows: Seq<TaskView>, id: int, i: int)
    requires
        0 <= i < rows.len(),
        is_match(rows[i], id),
        forall|j: int| 0 <= j < i ==> !is_match(#[trigger] rows[j], id),
    ensures
        find_active(rows, id) == Some(rows[i]),
    decreases i,
{
    if i > 0 {
        assert(!is_match(rows[0], id));
        assert(rows.drop_first()[i - 1] == rows[i]);
        assert forall|j: int| 0 <= j < i - 1 implies !is_match(#[trigger] rows.drop_first()[j], id) by {
            assert(rows.drop_first()[j] == rows[j + 1]);
        }
        lemma_find_active_at(rows.drop_first(), id, i - 1);
    }
}

/// Filtering a sequence extended by one element keeps the element exactly
/// when it satisfies the predicate.
proof fn lemma_filter_push(s: Seq<TaskView>, x: TaskView, pred: spec_fn(TaskView) -> bool)
    ensures
        s.push(x).filter(pred) == if pred(x) {
            s.filter(pred).push(x)
        } else {
            s.filter(pred)
        },
{
    reveal(Seq::filter);
    assert(s.push(x).drop_last() =~= s);
    assert(s.push(x).last() == x);
}

/// Every element of a filtered sequence occurs in the source sequence.
proof fn lemma_filter_in_source(s: Seq<TaskView>, pred: spec_fn(TaskView) -> bool, j: int)
    requires
        0 <= j < s.filter(pred).len(),
    ensures
        exists|i: int| 0 <= i < s.len() && #[trigger] s[i] == s.filter(pred)[j],
    decreases s.len(),
{
    reveal(Seq::filter);
    if s.len() > 0 {
        let sub = s.drop_last().filter(pred);
        if j < sub.len() {
            lemma_filter_in_source(s.drop_last(), pred, j);
            let i = choose|i: int|
                0 <= i < s.drop_last().len() && #[trigger] s.drop_last()[i] == sub[j];
            assert(s[i] == s.filter(pred)[j]);
        } else {
            assert(s[s.len() - 1] == s.filter(pred)[j]);
        }
    }
}

/// Law: a freshly created row is found active under the identifier the
/// store assigned it, equal to the payload in all mutable fields and with
/// no deletion stamp.
pub proof fn lemma_create_then_get(s: StoreView, p: NewTaskView)
    requires
        s.wf(),
    ensures
        ({
            let t = crate::task::task_view_of(s.next_id, p);
            &&& find_active(s.rows.push(t), s.next_id) == Some(t)
            &&& t.matches_payload(p)
            &&& t.is_active()
        }),
{
    let t = crate::task::task_view_of(s.next_id, p);
    let pushed = s.rows.push(t);
    assert forall|j: int| 0 <= j < s.rows.len() implies !is_match(#[trigger] pushed[j], s.next_id) by {
        assert(pushed[j] == s.rows[j]);
        assert(s.rows[j].id < s.next_id);
    }
    assert(is_match(pushed[s.rows.len() as int], s.next_id));
    lemma_find_active_at(pushed, s.next_id, s.rows.len() as int);
}

/// Law: after a soft delete of an identifier, no active row carries it, so
/// a fetch by that identifier reports `NotFound`.
pub proof fn lemma_delete_then_get(rows: Seq<TaskView>, id: int, now: int)
    ensures
        find_active(delete_spec(rows, id, now), id) is None,
        !has_active(delete_spec(rows, id, now), id),
{
    let out = delete_spec(rows, id, now);
    assert forall|j: int| 0 <= j < out.len() implies !is_match(#[trigger] out[j], id) by {
        if rows[j].id == id {
            assert(out[j] == rows[j].stamped_deleted(now));
        } else {
            assert(out[j] == rows[j]);
        }
    }
    lemma_find_active_none(out, id);
}

/// Law: after a soft delete of an identifier, the listing of active rows
/// excludes that identifier.
pub proof fn lemma_delete_then_list(rows: Seq<TaskView>, id: int, now: int)
    ensures
        forall|j: int|
            0 <= j < active_rows(delete_spec(rows, id, now)).len() ==> (#[trigger] active_rows(
                delete_spec(rows, id, now),
            )[j]).id != id,
{
    let out = delete_spec(rows, id, now);
    let act = active_rows(out);
    let pred = |t: TaskView| t.is_active();
    assert forall|j: int| 0 <= j < act.len() implies (#[trigger] act[j]).id != id by {
        out.lemma_filter_pred(pred, j);
        lemma_filter_in_source(out, pred, j);
        let i = choose|i: int| 0 <= i < out.len() && #[trigger] out[i] == act[j];
        if rows[i].id == id {
            assert(out[i] == rows[i].stamped_deleted(now));
            assert(!pred(out[i]));
        } else {
            assert(out[i] == rows[i]);
        }
    }
}

/// Law: an update aimed at an identifier with no active row — soft-deleted
/// or never inserted — writes nothing at all; with the operation's own
/// contract, both cases also report `NotFound` alike.
pub proof fn lemma_update_without_active_row_is_noop(rows: Seq<TaskView>, id: int, p: NewTaskView)
    requires
        !has_active(rows, id),
    ensures
        update_spec(rows, id, p) == rows,
        find_active(rows, id) is None,
{
    assert forall|j: int| 0 <= j < rows.len() implies !is_match(#[trigger] rows[j], id) by {
        if is_match(rows[j], id) {
            assert(has_active(rows, id));
        }
    }
    assert(update_spec(rows, id, p) =~= rows);
    lemma_find_active_none(rows, id);
}

/// Law: the identifier a well-formed store assigns to the next created row
/// differs from the identifier of every row already present; with creation
/// increasing the next identifier, concurrent creates serialized by the
/// pool each yield a distinct identifier.
pub proof fn lemma_create_assigns_fresh_id(s: StoreView)
    requires
        s.wf(),
    ensures
        forall|i: int| 0 <= i < s.rows.len() ==> (#[trigger] s.rows[i]).id != s.next_id,
{
}

} // verus!
