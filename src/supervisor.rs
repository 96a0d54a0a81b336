//! Lifecycle decisions for one named long-running service: probe first,
//! spawn at most once per start, then poll until ready or out of attempts.
use vstd::prelude::*;
use crate::probe::{judge_attempt, verdict, ProbeOutcome, ProbePolicy, ProbeVerdict};

verus! {

/// Where a service stands.
#[derive(Clone, Copy, PartialEq, Eq, Structural, Debug)]
pub enum Phase {
    /// Nothing known yet, or the last start was abandoned before an outcome.
    Idle,
    /// A first readiness check is under way.
    Probing,
    /// The process was spawned and readiness is being polled.
    Starting,
    Running,
    FailedToStart,
}

/// What the caller observed.
#[derive(Clone, Copy, PartialEq, Eq, Structural, Debug)]
pub enum SupervisorEvent {
    EnsureRequested,
    ProbeReported(ProbeOutcome),
    SpawnSucceeded,
    SpawnFailed,
    /// The caller stopped waiting for a start; a spawned process is left running.
    StartAbandoned,
}

/// What the caller must do next.
#[derive(Clone, Copy, PartialEq, Eq, Structural, Debug)]
pub enum SupervisorAction {
    /// Run the readiness check once.
    RunProbe,
    /// Launch the service process and attach an output monitor.
    Spawn,
    /// Sleep this many milliseconds, then run the readiness check.
    WaitThenProbe(u64),
    /// A start is already in flight: wait for its outcome.
    AwaitCurrent,
    ReportReady,
    ReportSpawnFailed,
    /// Readiness was not reached within this many attempts.
    ReportExhausted(u32),
    Ignore,
}

/// The state of one named service.
#[derive(Clone, Copy, Debug)]
pub struct ServiceSupervisor {
    pub phase: Phase,
    /// Failed readiness attempts since the last spawn.
    pub attempts: u32,
    /// Processes spawned so far (saturating).
    pub spawns: u64,
    pub policy: ProbePolicy,
}

pub open spec fn in_flight(p: Phase) -> bool {
    p == Phase::Probing || p == Phase::Starting
}

pub open spec fn bump(n: u64) -> u64 {
    if n < u64::MAX {
        (n + 1) as u64
    } else {
        n
    }
}

impl ServiceSupervisor {
    pub open spec fn wf(&self) -> bool {
        self.attempts <= self.policy.max_attempts
    }

    /// The transition taken on event `e`.
    pub open spec fn step(self, e: SupervisorEvent) -> (ServiceSupervisor, SupervisorAction) {
        match e {
            SupervisorEvent::EnsureRequested => {
                if in_flight(self.phase) {
                    (self, SupervisorAction::AwaitCurrent)
                } else {
                    (ServiceSupervisor { phase: Phase::Probing, ..self }, SupervisorAction::RunProbe)
                }
            },
            SupervisorEvent::ProbeReported(o) => {
                if self.phase == Phase::Probing {
                    if o == ProbeOutcome::Ready {
                        (ServiceSupervisor { phase: Phase::Running, ..self }, SupervisorAction::ReportReady)
                    } else {
                        (
                            ServiceSupervisor {
                                phase: Phase::Starting,
                                attempts: 0,
                                spawns: bump(self.spawns),
                                ..self
                            },
                            SupervisorAction::Spawn,
                        )
                    }
                } else if self.phase == Phase::Starting {
                    match verdict(self.policy, self.attempts as nat, o) {
                        ProbeVerdict::Ready => (
                            ServiceSupervisor { phase: Phase::Running, ..self },
                            SupervisorAction::ReportReady,
                        ),
                        ProbeVerdict::Exhausted => (
                            ServiceSupervisor {
                                phase: Phase::FailedToStart,
                                attempts: self.policy.max_attempts,
                                ..self
                            },
                            SupervisorAction::ReportExhausted(self.policy.max_attempts),
                        ),
                        ProbeVerdict::Retry => (
                            ServiceSupervisor { attempts: (self.attempts + 1) as u32, ..self },
                            SupervisorAction::WaitThenProbe(self.policy.interval_ms),
                        ),
                    }
                } else {
                    (self, SupervisorAction::Ignore)
                }
            },
            SupervisorEvent::SpawnSucceeded => {
                if self.phase != Phase::Starting {
                    (self, SupervisorAction::Ignore)
                } else if self.policy.max_attempts == 0 {
                    (
                        ServiceSupervisor { phase: Phase::FailedToStart, ..self },
                        SupervisorAction::ReportExhausted(0),
                    )
                } else {
                    (self, SupervisorAction::WaitThenProbe(self.policy.interval_ms))
                }
            },
            SupervisorEvent::SpawnFailed => {
                if self.phase == Phase::Starting {
                    (
                        ServiceSupervisor { phase: Phase::FailedToStart, ..self },
                        SupervisorAction::ReportSpawnFailed,
                    )
                } else {
                    (self, SupervisorAction::Ignore)
                }
            },
            SupervisorEvent::StartAbandoned => {
                if in_flight(self.phase) {
                    (ServiceSupervisor { phase: Phase::Idle, ..self }, SupervisorAction::Ignore)
                } else {
                    (self, SupervisorAction::Ignore)
                }
            },
        }
    }

    /// A service about which nothing is known yet.
    pub fn new(policy: ProbePolicy) -> (r: ServiceSupervisor)
        ensures
            r.wf(),
            r.phase == Phase::Idle,
            r.attempts == 0,
            r.spawns == 0,
            r.policy == policy,
    {
        ServiceSupervisor { phase: Phase::Idle, attempts: 0, spawns: 0, policy }
    }

    /// Takes one event and returns the action it calls for.
    pub fn handle(&mut self, e: SupervisorEvent) -> (a: SupervisorAction)
        requires
            old(self).wf(),
        ensures
            final(self).wf(),
            (*final(self), a) == old(self).step(e),
    {
        match e {
            SupervisorEvent::EnsureRequested => {
                if self.phase == Phase::Probing || self.phase == Phase::Starting {
                    SupervisorAction::AwaitCurrent
                } else {
                    self.phase = Phase::Probing;
                    SupervisorAction::RunProbe
                }
            },
            SupervisorEvent::ProbeReported(o) => {
                if self.phase == Phase::Probing {
                    if o == ProbeOutcome::Ready {
                        self.phase = Phase::Running;
                        SupervisorAction::ReportReady
                    } else {
                        self.phase = Phase::Starting;
                        self.attempts = 0;
                        if self.spawns < u64::MAX {
                            self.spawns = self.spawns + 1;
                        }
                        SupervisorAction::Spawn
                    }
                } else if self.phase == Phase::Starting {
                    match judge_attempt(&self.policy, self.attempts, o) {
                        ProbeVerdict::Ready => {
                            self.phase = Phase::Running;
                            SupervisorAction::ReportReady
                        },
                        ProbeVerdict::Exhausted => {
                            self.phase = Phase::FailedToStart;
                            self.attempts = self.policy.max_attempts;
                            SupervisorAction::ReportExhausted(self.policy.max_attempts)
                        },
                        ProbeVerdict::Retry => {
                            self.attempts = self.attempts + 1;
                            SupervisorAction::WaitThenProbe(self.policy.interval_ms)
                        },
                    }
                } else {
                    SupervisorAction::Ignore
                }
            },
            SupervisorEvent::SpawnSucceeded => {
                if self.phase != Phase::Starting {
                    SupervisorAction::Ignore
                } else if self.policy.max_attempts == 0 {
                    self.phase = Phase::FailedToStart;
                    SupervisorAction::ReportExhausted(0)
                } else {
                    SupervisorAction::WaitThenProbe(self.policy.interval_ms)
                }
            },
            SupervisorEvent::SpawnFailed => {
                if self.phase == Phase::Starting {
                    self.phase = Phase::FailedToStart;
                    SupervisorAction::ReportSpawnFailed
                } else {
                    SupervisorAction::Ignore
                }
            },
            SupervisorEvent::StartAbandoned => {
                if self.phase == Phase::Probing || self.phase == Phase::Starting {
                    self.phase = Phase::Idle;
                }
                SupervisorAction::Ignore
            },
        }
    }

    pub fn phase(&self) -> (r: Phase)
        ensures
            r == self.phase,
    {
        self.phase
    }

    pub fn spawn_count(&self) -> (r: u64)
        ensures
            r == self.spawns,
    {
        self.spawns
    }
}

/// Asking twice in a row for a service that its check reports ready spawns
/// nothing: each request probes once and reports ready.
pub proof fn lemma_ensure_running_idempotent(s: ServiceSupervisor)
    requires
        s.wf(),
        s.phase == Phase::Running,
    ensures
        ({
            let (s1, a1) = s.step(SupervisorEvent::EnsureRequested);
            let (s2, a2) = s1.step(SupervisorEvent::ProbeReported(ProbeOutcome::Ready));
            let (s3, a3) = s2.step(SupervisorEvent::EnsureRequested);
            let (s4, a4) = s3.step(SupervisorEvent::ProbeReported(ProbeOutcome::Ready));
            &&& a1 == SupervisorAction::RunProbe
            &&& a2 == SupervisorAction::ReportReady
            &&& a3 == SupervisorAction::RunProbe
            &&& a4 == SupervisorAction::ReportReady
            &&& s4.phase == Phase::Running
            &&& s4.spawns == s.spawns
        }),
{
}

/// Two requests for a service that is not running, the second arriving before
/// the first's check returned: the second waits for the first, and exactly
/// one process is spawned.
pub proof fn lemma_concurrent_ensure_spawns_once(s: ServiceSupervisor, o: ProbeOutcome)
    requires
        s.wf(),
        !in_flight(s.phase),
        o != ProbeOutcome::Ready,
        s.spawns < u64::MAX,
    ensures
        ({
            let (s1, a1) = s.step(SupervisorEvent::EnsureRequested);
            let (s2, a2) = s1.step(SupervisorEvent::EnsureRequested);
            let (s3, a3) = s2.step(SupervisorEvent::ProbeReported(o));
            &&& a1 == SupervisorAction::RunProbe
            &&& a2 == SupervisorAction::AwaitCurrent
            &&& a3 == SupervisorAction::Spawn
            &&& s3.phase == Phase::Starting
            &&& s3.spawns == s.spawns + 1
        }),
{
}

/// While a start is in flight, no event spawns a second process, and a new
/// request only waits.
pub proof fn lemma_no_spawn_while_in_flight(s: ServiceSupervisor, e: SupervisorEvent)
    requires
        s.wf(),
        s.phase == Phase::Starting,
    ensures
        s.step(e).1 != SupervisorAction::Spawn,
        s.step(e).0.spawns == s.spawns,
        e == SupervisorEvent::EnsureRequested ==> s.step(e) == (s, SupervisorAction::AwaitCurrent),
{
}

/// Abandoning a start in flight ends it without spawning, and the next
/// request probes afresh instead of waiting.
pub proof fn lemma_abandoned_start_can_restart(s: ServiceSupervisor)
    requires
        s.wf(),
        in_flight(s.phase),
    ensures
        ({
            let (s1, a1) = s.step(SupervisorEvent::StartAbandoned);
            let (s2, a2) = s1.step(SupervisorEvent::EnsureRequested);
            &&& a1 == SupervisorAction::Ignore
            &&& s1.phase == Phase::Idle
            &&& s1.spawns == s.spawns
            &&& a2 == SupervisorAction::RunProbe
        }),
{
}

} // verus!
