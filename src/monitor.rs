//! Events of a spawned process, and the final state that they report.
use vstd::prelude::*;

verus! {

/// One event of a spawned process, its output already decoded as text.
pub enum OutputEvent {
    Stdout(String),
    Stderr(String),
    SpawnError(String),
    /// The process ended with this exit code (none when a signal ended it).
    Terminated(Option<i32>),
    /// The event stream ended without a termination event.
    StreamClosed,
}

/// What is known of a monitored process.
#[derive(Clone, Copy, PartialEq, Eq, Structural, Debug)]
pub enum ProcessStatus {
    Alive,
    /// It ended with this exit code (none when a signal ended it).
    Exited(Option<i32>),
    /// It could not be run.
    FailedToRun,
}

/// Follows one process's events and records how it ended.
pub struct ProcessMonitor {
    pub status: ProcessStatus,
    /// Output lines seen so far (saturating).
    pub lines: u64,
}

/// The status after event `e`: a spawn error or a termination is recorded,
/// anything else leaves the status as it was.
pub open spec fn status_after(s: ProcessStatus, e: OutputEvent) -> ProcessStatus {
    match e {
        OutputEvent::SpawnError(_) => ProcessStatus::FailedToRun,
        OutputEvent::Terminated(code) => ProcessStatus::Exited(code),
        _ => s,
    }
}

impl ProcessMonitor {
    pub fn new() -> (r: ProcessMonitor)
        ensures
            r.status == ProcessStatus::Alive,
            r.lines == 0,
    {
        ProcessMonitor { status: ProcessStatus::Alive, lines: 0 }
    }

    /// Records one event; returns whether the process has ended.
    pub fn observe(&mut self, e: &OutputEvent) -> (ended: bool)
        ensures
            final(self).status == status_after(old(self).status, *e),
            final(self).lines == if (e is Stdout || e is Stderr) && old(self).lines < u64::MAX {
                (old(self).lines + 1) as u64
            } else {
                old(self).lines
            },
            ended == (final(self).status != ProcessStatus::Alive),
    {
        match e {
            OutputEvent::Stdout(_) | OutputEvent::Stderr(_) => {
                if self.lines < u64::MAX {
                    self.lines = self.lines + 1;
                }
            },
            OutputEvent::SpawnError(_) => {
                self.status = ProcessStatus::FailedToRun;
            },
            OutputEvent::Terminated(code) => {
                self.status = ProcessStatus::Exited(*code);
            },
            OutputEvent::StreamClosed => {},
        }
        match self.status {
            ProcessStatus::Alive => false,
            _ => true,
        }
    }
}

} // verus!
