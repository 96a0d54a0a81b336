use ollama_supervisor::probe::{
    exit_probe_outcome, http_probe_outcome, judge_attempt, ProbeOutcome, ProbePolicy, ProbeVerdict,
};
use ollama_supervisor::supervisor::{Phase, ServiceSupervisor, SupervisorAction, SupervisorEvent};

#[test]
fn standard_policy_values() {
    let p = ProbePolicy::standard();
    assert_eq!(p.interval_ms, 1000);
    assert_eq!(p.max_attempts, 10);
}

#[test]
fn judge_attempt_counts_failures() {
    let p = ProbePolicy::standard();
    assert_eq!(judge_attempt(&p, 0, ProbeOutcome::NotReady), ProbeVerdict::Retry);
    assert_eq!(judge_attempt(&p, 8, ProbeOutcome::ProbeError), ProbeVerdict::Retry);
    assert_eq!(judge_attempt(&p, 9, ProbeOutcome::NotReady), ProbeVerdict::Exhausted);
    assert_eq!(judge_attempt(&p, 9, ProbeOutcome::Ready), ProbeVerdict::Ready);
}

#[test]
fn probe_outcomes_from_checks() {
    assert_eq!(exit_probe_outcome(Ok(true)), ProbeOutcome::Ready);
    assert_eq!(exit_probe_outcome(Ok(false)), ProbeOutcome::NotReady);
    assert_eq!(exit_probe_outcome(Err("no such program".to_string())), ProbeOutcome::ProbeError);
    assert_eq!(http_probe_outcome(Ok(200)), ProbeOutcome::Ready);
    assert_eq!(http_probe_outcome(Ok(204)), ProbeOutcome::Ready);
    assert_eq!(http_probe_outcome(Ok(404)), ProbeOutcome::NotReady);
    assert_eq!(http_probe_outcome(Ok(199)), ProbeOutcome::NotReady);
    assert_eq!(http_probe_outcome(Err("refused".to_string())), ProbeOutcome::ProbeError);
}

#[test]
fn ensure_running_twice_when_running_spawns_nothing() {
    let mut s = ServiceSupervisor::new(ProbePolicy::standard());
    s.phase = Phase::Running;
    for _ in 0..2 {
        assert_eq!(s.handle(SupervisorEvent::EnsureRequested), SupervisorAction::RunProbe);
        assert_eq!(
            s.handle(SupervisorEvent::ProbeReported(ProbeOutcome::Ready)),
            SupervisorAction::ReportReady
        );
    }
    assert_eq!(s.spawn_count(), 0);
    assert_eq!(s.phase(), Phase::Running);
}

#[test]
fn concurrent_ensure_running_spawns_once() {
    let mut s = ServiceSupervisor::new(ProbePolicy::standard());
    assert_eq!(s.handle(SupervisorEvent::EnsureRequested), SupervisorAction::RunProbe);
    assert_eq!(s.handle(SupervisorEvent::EnsureRequested), SupervisorAction::AwaitCurrent);
    assert_eq!(
        s.handle(SupervisorEvent::ProbeReported(ProbeOutcome::NotReady)),
        SupervisorAction::Spawn
    );
    assert_eq!(s.handle(SupervisorEvent::EnsureRequested), SupervisorAction::AwaitCurrent);
    assert_eq!(s.handle(SupervisorEvent::SpawnSucceeded), SupervisorAction::WaitThenProbe(1000));
    assert_eq!(
        s.handle(SupervisorEvent::ProbeReported(ProbeOutcome::NotReady)),
        SupervisorAction::WaitThenProbe(1000)
    );
    assert_eq!(
        s.handle(SupervisorEvent::ProbeReported(ProbeOutcome::Ready)),
        SupervisorAction::ReportReady
    );
    assert_eq!(s.spawn_count(), 1);
    assert_eq!(s.phase(), Phase::Running);
}

#[test]
fn start_gives_up_after_attempt_budget() {
    let mut s = ServiceSupervisor::new(ProbePolicy { interval_ms: 5, max_attempts: 3 });
    s.handle(SupervisorEvent::EnsureRequested);
    assert_eq!(
        s.handle(SupervisorEvent::ProbeReported(ProbeOutcome::ProbeError)),
        SupervisorAction::Spawn
    );
    assert_eq!(s.handle(SupervisorEvent::SpawnSucceeded), SupervisorAction::WaitThenProbe(5));
    assert_eq!(
        s.handle(SupervisorEvent::ProbeReported(ProbeOutcome::NotReady)),
        SupervisorAction::WaitThenProbe(5)
    );
    assert_eq!(
        s.handle(SupervisorEvent::ProbeReported(ProbeOutcome::ProbeError)),
        SupervisorAction::WaitThenProbe(5)
    );
    assert_eq!(
        s.handle(SupervisorEvent::ProbeReported(ProbeOutcome::NotReady)),
        SupervisorAction::ReportExhausted(3)
    );
    assert_eq!(s.phase(), Phase::FailedToStart);
    // a later request starts over, spawning again
    assert_eq!(s.handle(SupervisorEvent::EnsureRequested), SupervisorAction::RunProbe);
    assert_eq!(
        s.handle(SupervisorEvent::ProbeReported(ProbeOutcome::NotReady)),
        SupervisorAction::Spawn
    );
    assert_eq!(s.spawn_count(), 2);
}

#[test]
fn spawn_failure_is_reported() {
    let mut s = ServiceSupervisor::new(ProbePolicy::standard());
    s.handle(SupervisorEvent::EnsureRequested);
    s.handle(SupervisorEvent::ProbeReported(ProbeOutcome::NotReady));
    assert_eq!(s.handle(SupervisorEvent::SpawnFailed), SupervisorAction::ReportSpawnFailed);
    assert_eq!(s.phase(), Phase::FailedToStart);
    assert_eq!(s.handle(SupervisorEvent::SpawnSucceeded), SupervisorAction::Ignore);
}

#[test]
fn zero_attempt_budget_fails_after_spawn() {
    let mut s = ServiceSupervisor::new(ProbePolicy { interval_ms: 1, max_attempts: 0 });
    s.handle(SupervisorEvent::EnsureRequested);
    s.handle(SupervisorEvent::ProbeReported(ProbeOutcome::NotReady));
    assert_eq!(s.handle(SupervisorEvent::SpawnSucceeded), SupervisorAction::ReportExhausted(0));
}

#[test]
fn abandoned_start_can_be_retried() {
    let mut s = ServiceSupervisor::new(ProbePolicy::standard());
    s.handle(SupervisorEvent::EnsureRequested);
    s.handle(SupervisorEvent::ProbeReported(ProbeOutcome::NotReady));
    assert_eq!(s.phase(), Phase::Starting);
    assert_eq!(s.handle(SupervisorEvent::StartAbandoned), SupervisorAction::Ignore);
    assert_eq!(s.phase(), Phase::Idle);
    assert_eq!(s.handle(SupervisorEvent::EnsureRequested), SupervisorAction::RunProbe);
    assert_eq!(
        s.handle(SupervisorEvent::ProbeReported(ProbeOutcome::Ready)),
        SupervisorAction::ReportReady
    );
    assert_eq!(s.spawn_count(), 1);
    let mut r = ServiceSupervisor::new(ProbePolicy::standard());
    assert_eq!(r.handle(SupervisorEvent::StartAbandoned), SupervisorAction::Ignore);
    assert_eq!(r.phase(), Phase::Idle);
}
