use task_tracker::status::TaskStatus;
use task_tracker::store::{StoreError, TaskStore};
use task_tracker::task::NewTask;

fn payload(title: &str, content: &str, deadline: Option<i64>, status: TaskStatus) -> NewTask {
    NewTask { title: title.to_owned(), content: content.to_owned(), deadline, status }
}

#[test]
fn create_then_get_yields_the_created_task() {
    let mut store = TaskStore::new();
    let created = store.create_task(payload(
        "write report",
        "quarterly numbers",
        Some(1_700_000_000_000_000),
        TaskStatus::InProgress,
    ));
    assert!(created.deleted_at.is_none());

    let fetched = store.get_task(created.id).expect("the created task must be found");
    assert_eq!(fetched.title, "write report");
    assert_eq!(fetched.content, "quarterly numbers");
    assert_eq!(fetched.deadline, Some(1_700_000_000_000_000));
    assert_eq!(fetched.status, TaskStatus::InProgress);
    assert!(fetched.deleted_at.is_none());
    assert_eq!(fetched.id, created.id);
}

#[test]
fn identifiers_start_at_one_and_increase() {
    let mut store = TaskStore::new();
    let mut ids = Vec::new();
    for i in 0..10 {
        let t = store.create_task(payload(&format!("task {}", i), "body", None, TaskStatus::Todo));
        ids.push(t.id);
    }
    for (i, id) in ids.iter().enumerate() {
        assert_eq!(*id, i as i32 + 1);
    }
    for i in 0..ids.len() {
        for j in 0..i {
            assert_ne!(ids[i], ids[j], "every create must yield a distinct id");
        }
    }
}

#[test]
fn soft_delete_then_get_reports_not_found() {
    let mut store = TaskStore::new();
    let t = store.create_task(payload("a", "b", None, TaskStatus::Todo));
    assert_eq!(store.delete_task(t.id), 1);
    assert_eq!(store.get_task(t.id), Err(StoreError::NotFound));
}

#[test]
fn soft_delete_then_list_excludes_the_id() {
    let mut store = TaskStore::new();
    let kept = store.create_task(payload("keep", "k", None, TaskStatus::Todo));
    let gone = store.create_task(payload("drop", "d", None, TaskStatus::Done));
    assert_eq!(store.delete_task_at(gone.id, 7), 1);

    let listed = store.get_all_tasks();
    assert_eq!(listed.len(), 1);
    assert_eq!(listed[0].id, kept.id);
    assert!(listed.iter().all(|t| t.id != gone.id));
}

#[test]
fn listing_returns_active_rows_in_store_order() {
    let mut store = TaskStore::new();
    let a = store.create_task(payload("a", "1", None, TaskStatus::Todo));
    let b = store.create_task(payload("b", "2", None, TaskStatus::Blocked));
    let c = store.create_task(payload("c", "3", None, TaskStatus::Done));
    assert_eq!(store.delete_task(b.id), 1);

    let listed = store.get_all_tasks();
    let ids: Vec<i32> = listed.iter().map(|t| t.id).collect();
    assert_eq!(ids, vec![a.id, c.id]);
}

#[test]
fn update_replaces_exactly_the_mutable_fields() {
    let mut store = TaskStore::new();
    let t = store.create_task(payload("old title", "old content", None, TaskStatus::Todo));

    let updated = store
        .update_task(t.id, payload("new title", "new content", Some(99), TaskStatus::Done))
        .expect("updating an active task must succeed");
    assert_eq!(updated.id, t.id);
    assert_eq!(updated.title, "new title");
    assert_eq!(updated.content, "new content");
    assert_eq!(updated.deadline, Some(99));
    assert_eq!(updated.status, TaskStatus::Done);
    assert!(updated.deleted_at.is_none());

    let fetched = store.get_task(t.id).expect("the updated task must still be found");
    assert_eq!(fetched, updated);
}

#[test]
fn update_on_deleted_id_behaves_like_update_on_missing_id() {
    let mut deleted_store = TaskStore::new();
    let t = deleted_store.create_task(payload("a", "b", None, TaskStatus::Todo));
    assert_eq!(deleted_store.delete_task(t.id), 1);
    let before = deleted_store.get_all_tasks();
    let on_deleted = deleted_store.update_task(t.id, payload("x", "y", None, TaskStatus::Done));

    let mut missing_store = TaskStore::new();
    let on_missing = missing_store.update_task(412, payload("x", "y", None, TaskStatus::Done));

    assert_eq!(on_deleted, Err(StoreError::NotFound));
    assert_eq!(on_missing, Err(StoreError::NotFound));
    assert_eq!(deleted_store.get_all_tasks(), before, "no active row matched, nothing written");
}

#[test]
fn deleting_an_already_deleted_row_still_reports_one() {
    let mut store = TaskStore::new();
    let t = store.create_task(payload("a", "b", None, TaskStatus::Todo));
    assert_eq!(store.delete_task_at(t.id, 10), 1);
    assert_eq!(store.delete_task_at(t.id, 20), 1, "the row is retained and re-stamped");
    assert_eq!(store.get_task(t.id), Err(StoreError::NotFound));
}

#[test]
fn deleting_a_missing_row_reports_zero() {
    let mut store = TaskStore::new();
    store.create_task(payload("a", "b", None, TaskStatus::Todo));
    assert_eq!(store.delete_task(999), 0);
}
