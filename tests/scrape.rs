use docker_health_monitor::counters::CounterUpdate;
use docker_health_monitor::errors::{CollectError, RuntimeError};
use docker_health_monitor::health::ContainerHealth;
use docker_health_monitor::labels::{ContainerRecord, ContainerSummaryLabels};
use docker_health_monitor::snapshot::{build_snapshot, ContainerState, GaugeSample, ScrapeStep};

fn record(id: Option<&str>, name: &str) -> ContainerRecord {
    ContainerRecord {
        id: id.map(String::from),
        names: Some(vec![format!("/{name}")]),
        image: Some("busybox".to_string()),
    }
}

fn state(status: Option<&str>) -> Result<Option<ContainerState>, RuntimeError> {
    Ok(Some(ContainerState { health_status: status.map(String::from) }))
}

/// Runs a scrape, answering the inspection of container `id` from `states`.
fn scrape(
    listed: Result<Vec<ContainerRecord>, RuntimeError>,
    states: &dyn Fn(&str) -> Result<Option<ContainerState>, RuntimeError>,
) -> (ScrapeStep, Vec<String>) {
    let mut inspected = Vec::new();
    let mut step = ScrapeStep::start(listed);
    loop {
        match step {
            ScrapeStep::Inspect(pending) => {
                let id = pending.container_id().clone();
                let answer = states(&id);
                inspected.push(id);
                step = pending.resume(answer);
            }
            other => return (other, inspected),
        }
    }
}

fn published(step: &ScrapeStep) -> Vec<GaugeSample> {
    match step {
        ScrapeStep::Publish(samples) => samples.clone(),
        _ => panic!("the scrape did not publish"),
    }
}

fn population() -> Vec<ContainerRecord> {
    vec![record(Some("a1"), "web-1"), record(Some("b2"), "db"), record(Some("c3"), "cache")]
}

fn population_states(id: &str) -> Result<Option<ContainerState>, RuntimeError> {
    match id {
        "a1" => state(Some("healthy")),
        "b2" => state(Some("unhealthy")),
        _ => state(None),
    }
}

#[test]
fn each_container_has_exactly_one_true_health() {
    let (step, inspected) = scrape(Ok(population()), &population_states);
    assert_eq!(inspected, vec!["a1", "b2", "c3"]);
    let samples = published(&step);
    assert_eq!(samples.len(), 18);
    for chunk in samples.chunks(6) {
        let sum: i64 = chunk.iter().map(|s| s.value).sum();
        assert_eq!(sum, 1);
        for s in chunk {
            assert_eq!(s.labels.id, chunk[0].labels.id);
            assert_eq!(s.labels.name, chunk[0].labels.name);
            assert_eq!(s.labels.image, chunk[0].labels.image);
        }
    }
    assert_eq!(samples[3].labels.health.as_deref(), Some("healthy"));
    assert_eq!(samples[3].value, 1);
    assert_eq!(samples[6 + 4].labels.health.as_deref(), Some("unhealthy"));
    assert_eq!(samples[6 + 4].value, 1);
    assert_eq!(samples[12 + 5].labels.health.as_deref(), Some("null"));
    assert_eq!(samples[12 + 5].value, 1);
    assert_eq!(samples[0].labels.name.as_deref(), Some("web-1"));
}

#[test]
fn failed_enumeration_publishes_nothing_and_counts_one_error() {
    let (step, inspected) = scrape(Err(RuntimeError), &population_states);
    assert!(inspected.is_empty());
    assert!(matches!(step, ScrapeStep::Fail(CollectError::ConnectionFailure)));
    let updates = step.counter_updates();
    assert_eq!(updates.len(), 1);
    assert!(matches!(updates[0], CounterUpdate::Error));
}

#[test]
fn missing_id_fails_the_whole_scrape() {
    let cs = vec![record(Some("a1"), "web-1"), record(None, "ghost"), record(Some("c3"), "cache")];
    let (step, inspected) = scrape(Ok(cs), &population_states);
    assert_eq!(inspected, vec!["a1"]);
    assert!(matches!(step, ScrapeStep::Fail(CollectError::MalformedRecord)));
    assert_eq!(step.counter_updates().len(), 1);
}

#[test]
fn failed_inspection_fails_the_whole_scrape() {
    let failing = |id: &str| if id == "b2" { Err(RuntimeError) } else { state(Some("healthy")) };
    let (step, inspected) = scrape(Ok(population()), &failing);
    assert_eq!(inspected, vec!["a1", "b2"]);
    assert!(matches!(step, ScrapeStep::Fail(CollectError::OperationFailure)));
}

#[test]
fn missing_state_block_is_malformed() {
    let stateless = |_: &str| Ok(None);
    let (step, _) = scrape(Ok(population()), &stateless);
    assert!(matches!(step, ScrapeStep::Fail(CollectError::MalformedRecord)));
}

#[test]
fn empty_population_publishes_empty_snapshot() {
    let (step, inspected) = scrape(Ok(vec![]), &population_states);
    assert!(inspected.is_empty());
    assert!(published(&step).is_empty());
    assert!(step.counter_updates().is_empty());
}

#[test]
fn rescraping_unchanged_population_is_identical() {
    let (first, _) = scrape(Ok(population()), &population_states);
    let (second, _) = scrape(Ok(population()), &population_states);
    let a = published(&first);
    let b = published(&second);
    assert_eq!(a.len(), b.len());
    for (x, y) in a.iter().zip(b.iter()) {
        assert_eq!(x.labels, y.labels);
        assert_eq!(x.value, y.value);
    }
}

#[test]
fn build_snapshot_marks_the_resolved_health() {
    let cs = vec![record(Some("a1"), "web-1")];
    let samples = build_snapshot(&cs, &vec![ContainerHealth::Starting]);
    let values: Vec<i64> = samples.iter().map(|s| s.value).collect();
    assert_eq!(values, vec![0, 0, 1, 0, 0, 0]);
    assert_eq!(
        samples[2].labels,
        ContainerSummaryLabels {
            id: Some("a1".to_string()),
            image: Some("busybox".to_string()),
            name: Some("web-1".to_string()),
            health: Some("starting".to_string()),
        }
    );
}
