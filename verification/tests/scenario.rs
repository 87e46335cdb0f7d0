//! The full life of one task: created, updated, soft-deleted, gone.

use task_tracker::http::{reply_delete, reply_get, LookupFailure, ReplyBody};
use task_tracker::status::TaskStatus;
use task_tracker::store::{StoreError, TaskStore};
use task_tracker::task::NewTask;

#[test]
fn create_update_delete_then_get_reports_404() {
    let mut store = TaskStore::new();

    let created = store.create_task(NewTask {
        title: "A".to_owned(),
        content: "B".to_owned(),
        deadline: None,
        status: TaskStatus::from_token("TODO"),
    });
    assert_eq!(created.id, 1);
    assert_eq!(created.title, "A");
    assert_eq!(created.content, "B");
    assert_eq!(created.status, TaskStatus::Todo);
    assert!(created.deleted_at.is_none());

    let updated = store
        .update_task(1, NewTask {
            title: "A2".to_owned(),
            content: "B".to_owned(),
            deadline: None,
            status: TaskStatus::from_token("DONE"),
        })
        .expect("updating the active task must succeed");
    assert_eq!(updated.id, 1);
    assert_eq!(updated.title, "A2");
    assert_eq!(updated.status, TaskStatus::Done);

    let count = store.delete_task(1);
    let deleted_reply = reply_delete(1, Ok(count));
    assert_eq!(deleted_reply.status, 200);
    assert_eq!(deleted_reply.body, ReplyBody::EmptyBody);

    match store.get_task(1) {
        Err(StoreError::NotFound) => {},
        other => panic!("a deleted task must report NotFound, got {:?}", other),
    }
    let get_reply = reply_get(1, Err(LookupFailure::NoSuchTask));
    assert_eq!(get_reply.status, 404);
    assert_eq!(get_reply.body, ReplyBody::NotFoundBody(1));
}
