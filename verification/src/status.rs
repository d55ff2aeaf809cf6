//! The completion status of a record and its stable text encoding.

use crate::text::same_text;
use vstd::prelude::*;

verus! {

/// Whether a record is still open or has been completed.
#[derive(Debug, Clone, Copy, PartialEq, Eq, Structural)]
pub enum Status {
    Incomplete,
    Complete,
}

impl Status {
    /// The text under which a status is persisted: the name of its variant.
    pub open spec fn text(self) -> Seq<char> {
        match self {
            Status::Incomplete => "Incomplete"@,
            Status::Complete => "Complete"@,
        }
    }

    /// The status that a persisted text stands for, if any.  Only the two
    /// variant names are recognised; there is no default.
    pub open spec fn parse(text: Seq<char>) -> Option<Status> {
        if text == "Incomplete"@ {
            Some(Status::Incomplete)
        } else if text == "Complete"@ {
            Some(Status::Complete)
        } else {
            None
        }
    }

    /// Returns the text under which this status is persisted.
    pub fn as_text(&self) -> (s: &'static str)
        ensures
            s@ == self.text(),
    {
        match self {
            Status::Incomplete => "Incomplete",
            Status::Complete => "Complete",
        }
    }

    /// Reads a status back from its persisted text.
    pub fn from_text(text: &str) -> (status: Option<Status>)
        ensures
            status == Status::parse(text@),
    {
        if same_text(text, "Incomplete") {
            Some(Status::Incomplete)
        } else if same_text(text, "Complete") {
            Some(Status::Complete)
        } else {
            None
        }
    }
}

/// The two persisted texts differ, so a status survives a round trip
/// through its text.
pub proof fn lemma_status_text_round_trip(status: Status)
    ensures
        Status::parse(status.text()) == Some(status),
{
    reveal_strlit("Incomplete");
    reveal_strlit("Complete");
    assert("Incomplete"@.len() != "Complete"@.len());
}

/// A text is recognised exactly when it is the text of some status, and
/// then it stands for that status alone.
pub proof fn lemma_status_parse_is_inverse(text: Seq<char>, status: Status)
    ensures
        Status::parse(text) == Some(status) <==> text == status.text(),
{
    lemma_status_text_round_trip(status);
}

} // verus!
