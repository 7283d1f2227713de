use docker_health_monitor::counters::CounterUpdate;
use docker_health_monitor::errors::RuntimeError;
use docker_health_monitor::labels::{ContainerRecord, ContainerSummaryLabels};
use docker_health_monitor::remediation::{Remediation, RoundStep};

fn record(id: Option<&str>, name: &str) -> ContainerRecord {
    ContainerRecord {
        id: id.map(String::from),
        names: Some(vec![format!("/{name}")]),
        image: Some("app:2".to_string()),
    }
}

fn restart_labels(id: Option<&str>, name: &str) -> ContainerSummaryLabels {
    ContainerSummaryLabels {
        id: id.map(String::from),
        image: Some("app:2".to_string()),
        name: Some(name.to_string()),
        health: Some("unhealthy".to_string()),
    }
}

/// Runs one round, answering each restart call from `outcome`.
fn round(
    policy: &Remediation,
    listed: Result<Vec<ContainerRecord>, RuntimeError>,
    outcome: &dyn Fn(&str) -> Result<(), RuntimeError>,
) -> (Vec<String>, Vec<CounterUpdate>) {
    let mut calls = Vec::new();
    let mut updates = Vec::new();
    let mut step: RoundStep = policy.begin_round(listed);
    loop {
        updates.extend(step.updates);
        match step.next {
            Some(pending) => {
                let id = pending.container_id().clone();
                let answer = outcome(&id);
                calls.push(id);
                step = pending.resume(answer);
            }
            None => return (calls, updates),
        }
    }
}

#[test]
fn one_success_and_one_failure_are_counted_apart() {
    let policy = Remediation::new(Some(5000));
    let listed = vec![record(Some("u1"), "api"), record(Some("u2"), "worker")];
    let outcome = |id: &str| if id == "u1" { Ok(()) } else { Err(RuntimeError) };
    let (calls, updates) = round(&policy, Ok(listed), &outcome);
    assert_eq!(calls, vec!["u1", "u2"]);
    assert_eq!(updates.len(), 2);
    match &updates[0] {
        CounterUpdate::Restarted(l) => assert_eq!(*l, restart_labels(Some("u1"), "api")),
        _ => panic!("expected a counted restart"),
    }
    match &updates[1] {
        CounterUpdate::RestartFailed(l) => assert_eq!(*l, restart_labels(Some("u2"), "worker")),
        _ => panic!("expected a counted failure"),
    }
}

#[test]
fn container_without_id_fails_without_a_call() {
    let policy = Remediation::new(Some(1000));
    let listed = vec![record(None, "orphan"), record(Some("u2"), "worker"), record(None, "tail")];
    let (calls, updates) = round(&policy, Ok(listed), &|_: &str| Ok(()));
    assert_eq!(calls, vec!["u2"]);
    assert_eq!(updates.len(), 3);
    assert!(matches!(&updates[0], CounterUpdate::RestartFailed(l) if *l == restart_labels(None, "orphan")));
    assert!(matches!(&updates[1], CounterUpdate::Restarted(l) if *l == restart_labels(Some("u2"), "worker")));
    assert!(matches!(&updates[2], CounterUpdate::RestartFailed(l) if *l == restart_labels(None, "tail")));
}

#[test]
fn failed_list_counts_one_error_and_restarts_nothing() {
    let policy = Remediation::new(Some(1000));
    let (calls, updates) = round(&policy, Err(RuntimeError), &|_: &str| Ok(()));
    assert!(calls.is_empty());
    assert_eq!(updates.len(), 1);
    assert!(matches!(updates[0], CounterUpdate::Error));
}

#[test]
fn no_interval_never_restarts() {
    let policy = Remediation::new(None);
    assert_eq!(policy.restart_interval(), None);
    let listed = vec![record(Some("u1"), "api"), record(Some("u2"), "worker")];
    let (calls, updates) = round(&policy, Ok(listed), &|_: &str| Ok(()));
    assert!(calls.is_empty());
    assert!(updates.is_empty());
}

#[test]
fn interval_is_kept() {
    assert_eq!(Remediation::new(Some(2500)).restart_interval(), Some(2500));
}

#[test]
fn empty_list_makes_no_call() {
    let policy = Remediation::new(Some(1000));
    let (calls, updates) = round(&policy, Ok(vec![]), &|_: &str| Ok(()));
    assert!(calls.is_empty());
    assert!(updates.is_empty());
}
