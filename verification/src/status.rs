//! The kanban states of an issue and their text form.

use vstd::prelude::*;
use crate::error::{Error, ErrorView};

verus! {

/// Where an issue stands on the board.
#[derive(Clone, Copy, Debug, PartialEq, Eq)]
pub enum IssueStatus {
    Backlog,
    InProgress,
    Done,
    Blocked,
}

/// The text under which a status is stored and exchanged.
pub open spec fn status_text(s: IssueStatus) -> Seq<char> {
    match s {
        IssueStatus::Backlog => "backlog"@,
        IssueStatus::InProgress => "in_progress"@,
        IssueStatus::Done => "done"@,
        IssueStatus::Blocked => "blocked"@,
    }
}

/// The status a text names, if any.
pub open spec fn status_from_text(t: Seq<char>) -> Option<IssueStatus> {
    if t == "backlog"@ {
        Some(IssueStatus::Backlog)
    } else if t == "in_progress"@ {
        Some(IssueStatus::InProgress)
    } else if t == "done"@ {
        Some(IssueStatus::Done)
    } else if t == "blocked"@ {
        Some(IssueStatus::Blocked)
    } else {
        None
    }
}

/// The message of the error for a text that names no status.
pub open spec fn unknown_status_message(t: Seq<char>) -> Seq<char> {
    "unknown issue status: "@ + t
}

impl IssueStatus {
    /// The text form of the status.
    pub fn as_str(&self) -> (s: &'static str)
        ensures
            s@ == status_text(*self),
    {
        match self {
            IssueStatus::Backlog => "backlog",
            IssueStatus::InProgress => "in_progress",
            IssueStatus::Done => "done",
            IssueStatus::Blocked => "blocked",
        }
    }

    /// The text form of the status, as an owned string.
    pub fn to_text(&self) -> (s: String)
        ensures
            s@ == status_text(*self),
    {
        self.as_str().to_owned()
    }

    /// Reads a status from its text form; any other text is `InvalidInput`.
    pub fn parse(t: &str) -> (r: Result<IssueStatus, Error>)
        ensures
            match status_from_text(t@) {
                Some(s) => r == Ok::<IssueStatus, Error>(s),
                None => r matches Err(e) && e@ == ErrorView::InvalidInput(unknown_status_message(t@)),
            },
    {
        let given = t.to_owned();
        if given == "backlog".to_owned() {
            Ok(IssueStatus::Backlog)
        } else if given == "in_progress".to_owned() {
            Ok(IssueStatus::InProgress)
        } else if given == "done".to_owned() {
            Ok(IssueStatus::Done)
        } else if given == "blocked".to_owned() {
            Ok(IssueStatus::Blocked)
        } else {
            Err(Error::InvalidInput("unknown issue status: ".to_owned().concat(t)))
        }
    }
}

/// Law: the text of every status reads back to that status.
pub proof fn lemma_status_text_round_trip(s: IssueStatus)
    ensures
        status_from_text(status_text(s)) == Some(s),
{
    reveal_strlit("backlog");
    reveal_strlit("in_progress");
    reveal_strlit("done");
    reveal_strlit("blocked");
    assert("blocked"@[1] != "backlog"@[1]);
    assert("in_progress"@.len() != "backlog"@.len());
    assert("done"@.len() != "backlog"@.len());
    assert("done"@.len() != "in_progress"@.len());
    assert("blocked"@.len() != "in_progress"@.len());
    assert("blocked"@.len() != "done"@.len());
}

/// Law: distinct statuses have distinct texts.
pub proof fn lemma_status_text_injective(a: IssueStatus, b: IssueStatus)
    ensures
        status_text(a) == status_text(b) ==> a == b,
{
    lemma_status_text_round_trip(a);
    lemma_status_text_round_trip(b);
}

} // verus!
