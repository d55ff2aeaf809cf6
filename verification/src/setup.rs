//! Initialization of the store, as a sequence of steps.
//!
//! The steps themselves touch the file system and the database and are
//! carried out by the caller.  What is decided here is which step comes
//! next, which failures end the initialization, and what is signalled when
//! it ends.

use crate::state::AppState;
use crate::text::prefixed;
use crate::values::view_option;
use vstd::prelude::*;
use vstd::string::*;

verus! {

/// Name of the database file inside the base directory.
pub const DATABASE_FILE: &'static str = "data.db";

/// Name of the signal that tells how the initialization ended.
pub const STATUS_EVENT: &'static str = "dbstatus";

/// What is signalled when the store is ready.
pub const READY: &'static str = "ready";

/// Starts what is signalled when the database file could not be created.
pub const FILE_FAILED: &'static str = "Failed to create database file: ";

/// What is signalled when the path of the database file is no valid text.
pub const PATH_FAILED: &'static str = "Failed to convert path to string";

/// A step of the initialization.
#[derive(Debug, Clone, Copy, PartialEq, Eq, Structural)]
pub enum SetupStep {
    /// Create the base directory and every missing parent.
    CreateDirectory,
    /// Create the database file in the base directory, as a new file.
    CreateFile,
    /// Turn the path of the database file into text.
    EncodePath,
    /// Open a connection pool to the database file.
    Connect,
    /// Create the table unless it exists.
    CreateTable,
}

/// The kinds of failure that the initialization tells apart.
#[derive(Debug, Clone, Copy, PartialEq, Eq, Structural)]
pub enum FailureKind {
    /// What was to be created is there already.
    AlreadyExists,
    /// Anything else.
    Other,
}

/// Why a step failed.
#[derive(Debug, Clone, PartialEq, Eq)]
pub struct Failure {
    pub kind: FailureKind,
    pub cause: String,
}

/// The mathematical value of a [`Failure`].
pub struct FailureView {
    pub kind: FailureKind,
    pub cause: Seq<char>,
}

impl View for Failure {
    type V = FailureView;

    open spec fn view(&self) -> FailureView {
        FailureView { kind: self.kind, cause: self.cause@ }
    }
}

/// Where the initialization stands: a step to carry out, or its end.
#[derive(Debug, Clone, PartialEq, Eq)]
pub enum Setup {
    /// Carry out this step and report how it went.
    Run(SetupStep),
    /// Every step is done: publish the connection pool and signal
    /// readiness.
    Ready,
    /// A step failed: publish nothing and signal this text.
    Failed(String),
}

/// The mathematical value of a [`Setup`].
pub enum SetupView {
    Run(SetupStep),
    Ready,
    Failed(Seq<char>),
}

impl View for Setup {
    type V = SetupView;

    open spec fn view(&self) -> SetupView {
        match self {
            Setup::Run(step) => SetupView::Run(*step),
            Setup::Ready => SetupView::Ready,
            Setup::Failed(text) => SetupView::Failed(text@),
        }
    }
}

impl SetupStep {
    /// The step that follows this one; none follows the last.
    pub open spec fn following(self) -> Option<SetupStep> {
        match self {
            SetupStep::CreateDirectory => Some(SetupStep::CreateFile),
            SetupStep::CreateFile => Some(SetupStep::EncodePath),
            SetupStep::EncodePath => Some(SetupStep::Connect),
            SetupStep::Connect => Some(SetupStep::CreateTable),
            SetupStep::CreateTable => None,
        }
    }

    /// Whether the step counts as done with this answer.  A failure ends
    /// the initialization, with one exception: a database file that exists
    /// already is used as it is.
    pub open spec fn done_with(self, reply: Result<(), FailureView>) -> bool {
        match reply {
            Ok(_) => true,
            Err(failure) => self == SetupStep::CreateFile && failure.kind
                == FailureKind::AlreadyExists,
        }
    }

    /// What is signalled when this step failed for `cause`.
    pub open spec fn failure_text(self, cause: Seq<char>) -> Seq<char> {
        match self {
            SetupStep::CreateFile => FILE_FAILED@ + cause,
            SetupStep::EncodePath => PATH_FAILED@,
            _ => cause,
        }
    }

    fn next(self) -> (next: Option<SetupStep>)
        ensures
            next == self.following(),
    {
        match self {
            SetupStep::CreateDirectory => Some(SetupStep::CreateFile),
            SetupStep::CreateFile => Some(SetupStep::EncodePath),
            SetupStep::EncodePath => Some(SetupStep::Connect),
            SetupStep::Connect => Some(SetupStep::CreateTable),
            SetupStep::CreateTable => None,
        }
    }
}

/// The answer to a step, as a mathematical value.
pub open spec fn view_progress(progress: Option<(SetupStep, Result<(), Failure>)>) -> Option<
    (SetupStep, Result<(), FailureView>),
> {
    match progress {
        None => None,
        Some((step, Ok(_))) => Some((step, Ok(()))),
        Some((step, Err(failure))) => Some((step, Err(failure@))),
    }
}

/// Where the initialization stands after `progress`: at its first step
/// where nothing was done yet; else, given the last step and how it went,
/// at the following step, at its successful end after the last step, or at
/// its failure.
pub open spec fn setup_next(progress: Option<(SetupStep, Result<(), FailureView>)>) -> SetupView {
    match progress {
        None => SetupView::Run(SetupStep::CreateDirectory),
        Some((step, reply)) => if step.done_with(reply) {
            match step.following() {
                Some(next) => SetupView::Run(next),
                None => SetupView::Ready,
            }
        } else {
            SetupView::Failed(step.failure_text(reply->Err_0.cause))
        },
    }
}

/// The steps in the order in which they are carried out.
pub open spec fn steps() -> Seq<SetupStep> {
    seq![
        SetupStep::CreateDirectory,
        SetupStep::CreateFile,
        SetupStep::EncodePath,
        SetupStep::Connect,
        SetupStep::CreateTable,
    ]
}

/// Where the initialization stands once the steps, carried out one after
/// the other as they were named, were answered by `replies`.  Answers
/// beyond its end change nothing.
pub open spec fn setup_after(replies: Seq<Result<(), FailureView>>) -> SetupView
    decreases replies.len(),
{
    if replies.len() == 0 {
        setup_next(None)
    } else {
        match setup_after(replies.drop_last()) {
            SetupView::Run(step) => setup_next(Some((step, replies.last()))),
            ended => ended,
        }
    }
}

/// Decides how the initialization goes on.  It is begun with `None`, and
/// resumed with each step that was carried out and the answer to it.
pub fn setup_db(progress: Option<(SetupStep, Result<(), Failure>)>) -> (next: Setup)
    ensures
        next@ == setup_next(view_progress(progress)),
{
    match progress {
        None => Setup::Run(SetupStep::CreateDirectory),
        Some((step, reply)) => {
            let failure = match reply {
                Ok(_) => None,
                Err(failure) => match (step, failure.kind) {
                    (SetupStep::CreateFile, FailureKind::AlreadyExists) => None,
                    _ => Some(failure),
                },
            };
            match failure {
                None => match step.next() {
                    Some(next) => Setup::Run(next),
                    None => Setup::Ready,
                },
                Some(failure) => match step {
                    SetupStep::CreateFile => Setup::Failed(
                        prefixed(FILE_FAILED, failure.cause.as_str()),
                    ),
                    SetupStep::EncodePath => Setup::Failed(String::from_str(PATH_FAILED)),
                    _ => Setup::Failed(failure.cause),
                },
            }
        },
    }
}

impl SetupView {
    /// What is signalled at this point: readiness, the text of the
    /// failure, or nothing while steps remain.
    pub open spec fn status(self) -> Option<Seq<char>> {
        match self {
            SetupView::Run(_) => None,
            SetupView::Ready => Some(READY@),
            SetupView::Failed(text) => Some(text),
        }
    }
}

impl Setup {
    /// Returns what to signal at this point, if anything.
    pub fn status(&self) -> (signal: Option<String>)
        ensures
            view_option(signal) == self@.status(),
    {
        match self {
            Setup::Run(_) => None,
            Setup::Ready => Some(String::from_str(READY)),
            Setup::Failed(text) => Some(text.clone()),
        }
    }

    /// Publishes the store handle at the successful end of the
    /// initialization, and at no other point.
    pub fn publish<D>(&self, db: D) -> (published: Option<AppState<D>>)
        ensures
            published is Some <==> self@ is Ready,
            published matches Some(state) ==> state.db == db,
    {
        match self {
            Setup::Ready => Some(AppState { db }),
            _ => None,
        }
    }
}

} // verus!
