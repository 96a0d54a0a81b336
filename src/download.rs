//! Decisions of a model pull: each event of the pull process's output is
//! turned into an action, and the pull ends with exactly one outcome.
use vstd::prelude::*;
use crate::monitor::OutputEvent;
use crate::progress::{classify, classify_line, DownloadProgress, LineClass, LineKind};
use crate::text::{clean_line, cleaned};

verus! {

/// Why a pull failed.
pub enum DownloadFailure {
    /// A line of the error stream that reads as a failure, cleaned.
    ErrorLine(String),
    /// The process could not be run.
    ProcessError(String),
    /// The process exited with a status other than success.
    ExitStatus(Option<i32>),
}

/// What to do with one event.
pub enum DownloadAction {
    Ignore,
    Log,
    ReportProgress(DownloadProgress),
    Fail(DownloadFailure),
    /// Success: refresh the model listing and publish it.
    SucceedAndRefresh,
    /// The stream ended without an exit status: success, nothing to refresh.
    Succeed,
}

pub open spec fn is_terminal(a: DownloadAction) -> bool {
    a is Fail || a is SucceedAndRefresh || a is Succeed
}

/// The action owed for event `e`; once a pull has finished every event is ignored.
pub open spec fn reaction(finished: bool, e: OutputEvent, a: DownloadAction) -> bool {
    if finished {
        a is Ignore
    } else {
        match e {
            OutputEvent::Stdout(_) => a is Log,
            OutputEvent::Stderr(l) => match classify(cleaned(l@)) {
                LineKind::Informational => a is Log,
                LineKind::Progress(p) => a is ReportProgress && a->ReportProgress_0@ == p,
                LineKind::Error(m) => match a {
                    DownloadAction::Fail(DownloadFailure::ErrorLine(x)) => x@ == m,
                    _ => false,
                },
            },
            OutputEvent::SpawnError(m) => match a {
                DownloadAction::Fail(DownloadFailure::ProcessError(x)) => x@ == m@,
                _ => false,
            },
            OutputEvent::Terminated(code) => if code == Some(0i32) {
                a is SucceedAndRefresh
            } else {
                match a {
                    DownloadAction::Fail(DownloadFailure::ExitStatus(c)) => c == code,
                    _ => false,
                }
            },
            OutputEvent::StreamClosed => a is Succeed,
        }
    }
}

/// The state of one pull.
pub struct DownloadTracker {
    /// An outcome has been produced.
    pub finished: bool,
}

impl DownloadTracker {
    pub fn new() -> (r: DownloadTracker)
        ensures
            !r.finished,
    {
        DownloadTracker { finished: false }
    }

    /// Takes one event of the pull process and returns the action it calls for.
    pub fn on_event(&mut self, e: OutputEvent) -> (a: DownloadAction)
        ensures
            reaction(old(self).finished, e, a),
            final(self).finished == (old(self).finished || is_terminal(a)),
    {
        if self.finished {
            return DownloadAction::Ignore;
        }
        let a = match e {
            OutputEvent::Stdout(_) => DownloadAction::Log,
            OutputEvent::Stderr(l) => {
                let c = clean_line(l.as_str());
                match classify_line(c.as_str()) {
                    LineClass::Informational => DownloadAction::Log,
                    LineClass::Progress(p) => DownloadAction::ReportProgress(p),
                    LineClass::Error(m) => DownloadAction::Fail(DownloadFailure::ErrorLine(m)),
                }
            },
            OutputEvent::SpawnError(m) => DownloadAction::Fail(DownloadFailure::ProcessError(m)),
            OutputEvent::Terminated(code) => match code {
                Some(0) => DownloadAction::SucceedAndRefresh,
                _ => DownloadAction::Fail(DownloadFailure::ExitStatus(code)),
            },
            OutputEvent::StreamClosed => DownloadAction::Succeed,
        };
        match a {
            DownloadAction::Fail(_) | DownloadAction::SucceedAndRefresh | DownloadAction::Succeed => {
                self.finished = true;
            },
            _ => {},
        }
        a
    }

    pub fn is_finished(&self) -> (r: bool)
        ensures
            r == self.finished,
    {
        self.finished
    }
}

/// A pull produces at most one outcome: after a terminal action, whatever
/// follows is ignored, so the listing refresh fires at most once.
pub proof fn lemma_single_outcome(
    e1: OutputEvent,
    a1: DownloadAction,
    e2: OutputEvent,
    a2: DownloadAction,
)
    requires
        reaction(false, e1, a1),
        is_terminal(a1),
        reaction(true, e2, a2),
    ensures
        a2 is Ignore,
        !(a2 is SucceedAndRefresh),
{
}

/// A progress line and then a clean exit: the line is reported as progress,
/// the exit as success with a refresh of the listing.
pub proof fn lemma_progress_then_success(
    line: OutputEvent,
    a1: DownloadAction,
    a2: DownloadAction,
)
    requires
        line is Stderr,
        classify(cleaned(line->Stderr_0@)) is Progress,
        reaction(false, line, a1),
        reaction(is_terminal(a1), OutputEvent::Terminated(Some(0i32)), a2),
    ensures
        a1 is ReportProgress,
        a2 is SucceedAndRefresh,
{
}

} // verus!
