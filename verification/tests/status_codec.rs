use task_tracker::status::TaskStatus;

fn all_variants() -> Vec<TaskStatus> {
    vec![TaskStatus::Todo, TaskStatus::InProgress, TaskStatus::Blocked, TaskStatus::Done]
}

#[test]
fn tokens_are_the_canonical_uppercase_spellings() {
    assert_eq!(TaskStatus::Todo.to_token(), "TODO");
    assert_eq!(TaskStatus::InProgress.to_token(), "INPROGRESS");
    assert_eq!(TaskStatus::Blocked.to_token(), "BLOCKED");
    assert_eq!(TaskStatus::Done.to_token(), "DONE");
}

#[test]
fn each_variant_round_trips_through_its_token() {
    for v in all_variants() {
        let token = v.to_token();
        assert_eq!(TaskStatus::from_token(token.as_str()), v);
        assert_eq!(TaskStatus::parse_token(token.as_str()), Some(v));
    }
}

#[test]
fn unknown_tokens_decode_to_todo() {
    for s in ["", "todo", "Done", "DONE ", "STARTED", "IN PROGRESS", "TOD"] {
        assert_eq!(TaskStatus::from_token(s), TaskStatus::Todo);
        assert_eq!(TaskStatus::parse_token(s), None);
    }
}

#[test]
fn the_default_status_is_todo() {
    assert_eq!(TaskStatus::default(), TaskStatus::Todo);
}
