//! Lifecycle status of a task and its text encoding.
//!
//! The wire and storage encoding of a status is one of four exact uppercase
//! tokens. Encoding is total and lossless; decoding an unknown token does not
//! fail but degrades to the default status, `Todo`.

use vstd::prelude::*;

verus! {

/// Lifecycle status of a task.
#[derive(Clone, Copy, Debug, PartialEq, Eq, Structural)]
pub enum TaskStatus {
    Todo,
    InProgress,
    Blocked,
    Done,
}

impl TaskStatus {
    /// The canonical token of each variant, as a sequence of characters.
    pub open spec fn token_spec(self) -> Seq<char> {
        match self {
            TaskStatus::Todo => "TODO"@,
            TaskStatus::InProgress => "INPROGRESS"@,
            TaskStatus::Blocked => "BLOCKED"@,
            TaskStatus::Done => "DONE"@,
        }
    }

    /// Lenient decoding: the matching variant for one of the four canonical
    /// tokens, and `Todo` for every other sequence.
    pub open spec fn decode_spec(s: Seq<char>) -> TaskStatus {
        if s == "TODO"@ {
            TaskStatus::Todo
        } else if s == "INPROGRESS"@ {
            TaskStatus::InProgress
        } else if s == "BLOCKED"@ {
            TaskStatus::Blocked
        } else if s == "DONE"@ {
            TaskStatus::Done
        } else {
            TaskStatus::Todo
        }
    }

    /// Encode this status as its canonical uppercase token.
    pub fn to_token(&self) -> (r: String)
        ensures
            r@ == self.token_spec(),
    {
        match self {
            TaskStatus::Todo => "TODO".to_owned(),
            TaskStatus::InProgress => "INPROGRESS".to_owned(),
            TaskStatus::Blocked => "BLOCKED".to_owned(),
            TaskStatus::Done => "DONE".to_owned(),
        }
    }

    /// Strict parsing: `Some` exactly on the four canonical tokens.
    pub fn parse_token(s: &str) -> (r: Option<TaskStatus>)
        ensures
            match r {
                Some(v) => s@ == v.token_spec(),
                None => s@ != "TODO"@ && s@ != "INPROGRESS"@ && s@ != "BLOCKED"@ && s@ != "DONE"@,
            },
    {
        if token_eq(s, "TODO") {
            Some(TaskStatus::Todo)
        } else if token_eq(s, "INPROGRESS") {
            Some(TaskStatus::InProgress)
        } else if token_eq(s, "BLOCKED") {
            Some(TaskStatus::Blocked)
        } else if token_eq(s, "DONE") {
            Some(TaskStatus::Done)
        } else {
            None
        }
    }

    /// Lenient decoding: an unrecognized token silently yields `Todo`.
    pub fn from_token(s: &str) -> (r: TaskStatus)
        ensures
            r == Self::decode_spec(s@),
    {
        match Self::parse_token(s) {
            Some(v) => {
                proof {
                    lemma_status_round_trip(v);
                }
                v
            },
            None => TaskStatus::Todo,
        }
    }
}

impl Default for TaskStatus {
    /// The default status of a task whose status was never set.
    fn default() -> (r: Self)
        ensures
            r == TaskStatus::Todo,
    {
        TaskStatus::Todo
    }
}

/// Character-for-character equality of two string slices.
fn token_eq(a: &str, b: &str) -> (r: bool)
    ensures
        r == (a@ == b@),
{
    let x: String = a.to_owned();
    let y: String = b.to_owned();
    x == y
}

/// Law: encoding any status variant to its token and decoding that token
/// returns the original variant.
pub proof fn lemma_status_round_trip(v: TaskStatus)
    ensures
        TaskStatus::decode_spec(v.token_spec()) == v,
{
    reveal_strlit("TODO");
    reveal_strlit("INPROGRESS");
    reveal_strlit("BLOCKED");
    reveal_strlit("DONE");
    assert("INPROGRESS"@.len() != "TODO"@.len());
    assert("BLOCKED"@.len() != "TODO"@.len());
    assert("BLOCKED"@.len() != "INPROGRESS"@.len());
    assert("DONE"@[0] != "TODO"@[0]);
    assert("DONE"@.len() != "INPROGRESS"@.len());
    assert("DONE"@.len() != "BLOCKED"@.len());
}

/// Law: decoding any sequence that is none of the four canonical tokens
/// yields `Todo`.
pub proof fn lemma_decode_unknown(s: Seq<char>)
    requires
        s != "TODO"@,
        s != "INPROGRESS"@,
        s != "BLOCKED"@,
        s != "DONE"@,
    ensures
        TaskStatus::decode_spec(s) == TaskStatus::Todo,
{
}

} // verus!
