use vstd::prelude::*;

use crate::counters::{error_count, restart_count, updates_view, CounterUpdate, CounterUpdateView};
use crate::errors::{CollectError, RuntimeError};
use crate::health::{all_healths, classify, health_label, opt_view, ContainerHealth};
use crate::labels::{projected, ContainerRecord, ContainerSummaryLabels, LabelView};

verus! {

/// One observation of the `health` gauge: 1 where the candidate
/// classification in `labels` is the container's own, else 0.
#[derive(Clone, Debug)]
pub struct GaugeSample {
    pub labels: ContainerSummaryLabels,
    pub value: i64,
}

pub struct SampleView {
    pub labels: LabelView,
    pub value: int,
}

impl View for GaugeSample {
    type V = SampleView;

    open spec fn view(&self) -> SampleView {
        SampleView { labels: self.labels@, value: self.value as int }
    }
}

pub open spec fn samples_view(s: Seq<GaugeSample>) -> Seq<SampleView> {
    s.map_values(|g: GaugeSample| g@)
}

/// The observation of one candidate classification for a container whose
/// health resolved to `resolved`.
pub open spec fn sample_for(
    c: ContainerRecord,
    candidate: ContainerHealth,
    resolved: ContainerHealth,
) -> SampleView {
    SampleView {
        labels: projected(c, Some(health_label(candidate))),
        value: if candidate == resolved {
            1
        } else {
            0
        },
    }
}

/// The observations of one container: one per classification, in order.
pub open spec fn container_samples(c: ContainerRecord, resolved: ContainerHealth) -> Seq<SampleView> {
    all_healths().map_values(|h: ContainerHealth| sample_for(c, h, resolved))
}

/// The snapshot of containers whose healths resolved to `hs`, container by
/// container in enumeration order.
pub open spec fn snapshot(cs: Seq<ContainerRecord>, hs: Seq<ContainerHealth>) -> Seq<SampleView>
    decreases cs.len(),
{
    if cs.len() == 0 {
        seq![]
    } else {
        snapshot(cs.drop_last(), hs.drop_last()) + container_samples(cs.last(), hs.last())
    }
}

/// The sum of the gauge values of some observations.
pub open spec fn value_sum(s: Seq<SampleView>) -> int
    decreases s.len(),
{
    if s.len() == 0 {
        0
    } else {
        value_sum(s.drop_last()) + s.last().value
    }
}

/// The observations of one container under every classification.
pub fn health_samples(c: &ContainerRecord, resolved: ContainerHealth) -> (r: Vec<GaugeSample>)
    ensures
        samples_view(r@) == container_samples(*c, resolved),
{
    let values = ContainerHealth::values();
    let mut r: Vec<GaugeSample> = Vec::new();
    let mut j: usize = 0;
    while j < values.len()
        invariant
            values@ == all_healths(),
            j <= values@.len(),
            r@.len() == j,
            samples_view(r@) == container_samples(*c, resolved).subrange(0, j as int),
        decreases values.len() - j,
    {
        let candidate = values[j];
        let value: i64 = if candidate == resolved {
            1
        } else {
            0
        };
        let ghost before = r@;
        let labels = ContainerSummaryLabels::for_health(c, candidate);
        let sample = GaugeSample { labels, value };
        assert(sample@ == sample_for(*c, candidate, resolved));
        r.push(sample);
        assert(r@[j as int]@ == sample_for(*c, candidate, resolved));
        assert(r@.drop_last() == before);
        assert(samples_view(r@) =~=container_samples(*c, resolved).subrange(0, j + 1));
        j = j + 1;
    }
    assert(container_samples(*c, resolved).subrange(0, 6) =~= container_samples(*c, resolved));
    r
}

/// The snapshot of a container population whose healths have been resolved,
/// one health per container.
pub fn build_snapshot(cs: &Vec<ContainerRecord>, hs: &Vec<ContainerHealth>) -> (r: Vec<GaugeSample>)
    requires
        cs.len() == hs.len(),
    ensures
        samples_view(r@) == snapshot(cs@, hs@),
{
    let mut r: Vec<GaugeSample> = Vec::new();
    let mut i: usize = 0;
    while i < cs.len()
        invariant
            cs.len() == hs.len(),
            i <= cs.len(),
            samples_view(r@) == snapshot(cs@.subrange(0, i as int), hs@.subrange(0, i as int)),
        decreases cs.len() - i,
    {
        let mut more = health_samples(&cs[i], hs[i]);
        let ghost before = r@;
        let ghost added = more@;
        r.append(&mut more);
        proof {
            assert(cs@.subrange(0, i + 1).drop_last() =~= cs@.subrange(0, i as int));
            assert(hs@.subrange(0, i + 1).drop_last() =~= hs@.subrange(0, i as int));
            assert(samples_view(r@) =~= samples_view(before) + samples_view(added));
        }
        i = i + 1;
    }
    assert(cs@.subrange(0, i as int) =~= cs@);
    assert(hs@.subrange(0, i as int) =~= hs@);
    r
}

/// What inspecting a container revealed: the status of its health block, or
/// `None` where it has no health block.
#[derive(Clone, Debug)]
pub struct ContainerState {
    pub health_status: Option<String>,
}

/// The outcome of one inspection, as the scrape reads it.
pub enum Inspection {
    Failed,
    NoState,
    Status(Option<Seq<char>>),
}

pub open spec fn inspection_view(r: Result<Option<ContainerState>, RuntimeError>) -> Inspection {
    match r {
        Err(_) => Inspection::Failed,
        Ok(None) => Inspection::NoState,
        Ok(Some(st)) => Inspection::Status(opt_view(st.health_status)),
    }
}

/// A scrape that waits for the inspection of its next container.
pub struct PendingInspect {
    containers: Vec<ContainerRecord>,
    healths: Vec<ContainerHealth>,
}

/// Where a scrape stands, as a value.
pub enum ScrapeStepView {
    Inspect { containers: Seq<ContainerRecord>, healths: Seq<ContainerHealth> },
    Publish(Seq<SampleView>),
    Fail(CollectError),
}

/// The next step once the first `hs.len()` containers have been resolved:
/// publish when all are, fail on a container without id, else inspect it.
pub open spec fn next_scrape_step(cs: Seq<ContainerRecord>, hs: Seq<ContainerHealth>) -> ScrapeStepView {
    if hs.len() >= cs.len() {
        ScrapeStepView::Publish(snapshot(cs, hs))
    } else if cs[hs.len() as int].id is None {
        ScrapeStepView::Fail(CollectError::MalformedRecord)
    } else {
        ScrapeStepView::Inspect { containers: cs, healths: hs }
    }
}

/// The first step of a scrape, from the enumeration of all containers
/// (`None`: the enumeration failed).
pub open spec fn scrape_started(listed: Option<Seq<ContainerRecord>>) -> ScrapeStepView {
    match listed {
        None => ScrapeStepView::Fail(CollectError::ConnectionFailure),
        Some(cs) => next_scrape_step(cs, seq![]),
    }
}

/// The step after the inspection of container `hs.len()`.
pub open spec fn scrape_resumed(
    cs: Seq<ContainerRecord>,
    hs: Seq<ContainerHealth>,
    inspected: Inspection,
) -> ScrapeStepView {
    match inspected {
        Inspection::Failed => ScrapeStepView::Fail(CollectError::OperationFailure),
        Inspection::NoState => ScrapeStepView::Fail(CollectError::MalformedRecord),
        Inspection::Status(s) => next_scrape_step(cs, hs.push(classify(s))),
    }
}

/// The counter updates that a step owes: one error where the scrape failed.
pub open spec fn scrape_updates(s: ScrapeStepView) -> Seq<CounterUpdateView> {
    match s {
        ScrapeStepView::Fail(_) => seq![CounterUpdateView::Error],
        _ => seq![],
    }
}

/// The health observations that a step publishes.
pub open spec fn published(s: ScrapeStepView) -> Seq<SampleView> {
    match s {
        ScrapeStepView::Publish(samples) => samples,
        _ => seq![],
    }
}

/// A scrape driven by successive inspections, until it publishes, fails, or
/// runs out of inspections.
pub open spec fn drive_scrape(s: ScrapeStepView, inspections: Seq<Inspection>) -> ScrapeStepView
    decreases inspections.len(),
{
    match s {
        ScrapeStepView::Inspect { containers, healths } => if inspections.len() == 0 {
            s
        } else {
            drive_scrape(
                scrape_resumed(containers, healths, inspections[0]),
                inspections.drop_first(),
            )
        },
        _ => s,
    }
}

/// The next step of one scrape: inspect one more container, publish the
/// complete snapshot, or fail without publishing anything.
pub enum ScrapeStep {
    Inspect(PendingInspect),
    Publish(Vec<GaugeSample>),
    Fail(CollectError),
}

impl View for ScrapeStep {
    type V = ScrapeStepView;

    open spec fn view(&self) -> ScrapeStepView {
        match self {
            ScrapeStep::Inspect(p) => ScrapeStepView::Inspect {
                containers: p.containers(),
                healths: p.healths(),
            },
            ScrapeStep::Publish(v) => ScrapeStepView::Publish(samples_view(v@)),
            ScrapeStep::Fail(e) => ScrapeStepView::Fail(*e),
        }
    }
}

impl PendingInspect {
    #[verifier::type_invariant]
    spec fn well_formed(&self) -> bool {
        &&& self.healths.len() < self.containers.len()
        &&& self.containers@[self.healths.len() as int].id is Some
    }

    /// The containers that the scrape enumerated.
    pub closed spec fn containers(&self) -> Seq<ContainerRecord> {
        self.containers@
    }

    /// The healths resolved so far, one per container from the first.
    pub closed spec fn healths(&self) -> Seq<ContainerHealth> {
        self.healths@
    }

    fn next(cs: Vec<ContainerRecord>, hs: Vec<ContainerHealth>) -> (r: ScrapeStep)
        requires
            hs.len() <= cs.len(),
        ensures
            r@ == next_scrape_step(cs@, hs@),
    {
        let k = hs.len();
        if k == cs.len() {
            ScrapeStep::Publish(build_snapshot(&cs, &hs))
        } else if cs[k].id.is_none() {
            ScrapeStep::Fail(CollectError::MalformedRecord)
        } else {
            ScrapeStep::Inspect(PendingInspect { containers: cs, healths: hs })
        }
    }

    /// The id of the container to inspect next.
    pub fn container_id(&self) -> (r: &String)
        ensures
            self.containers()[self.healths().len() as int].id == Some(*r),
    {
        proof {
            use_type_invariant(self);
        }
        let k = self.healths.len();
        self.containers[k].id.as_ref().unwrap()
    }

    /// Continues the scrape with the inspection of the container whose id
    /// `container_id` gave.
    pub fn resume(self, inspected: Result<Option<ContainerState>, RuntimeError>) -> (r: ScrapeStep)
        ensures
            r@ == scrape_resumed(self.containers(), self.healths(), inspection_view(inspected)),
    {
        proof {
            use_type_invariant(&self);
        }
        let PendingInspect { containers, mut healths } = self;
        match inspected {
            Err(_) => ScrapeStep::Fail(CollectError::OperationFailure),
            Ok(None) => ScrapeStep::Fail(CollectError::MalformedRecord),
            Ok(Some(state)) => {
                let health = ContainerHealth::from_status(
                    match &state.health_status {
                        Some(s) => Some(s.as_str()),
                        None => None,
                    },
                );
                healths.push(health);
                PendingInspect::next(containers, healths)
            },
        }
    }
}

impl ScrapeStep {
    /// Starts a scrape from the enumeration of all containers, stopped ones
    /// included.
    pub fn start(listed: Result<Vec<ContainerRecord>, RuntimeError>) -> (r: ScrapeStep)
        ensures
            r@ == scrape_started(
                match listed {
                    Ok(cs) => Some(cs@),
                    Err(_) => None,
                },
            ),
    {
        match listed {
            Err(_) => ScrapeStep::Fail(CollectError::ConnectionFailure),
            Ok(cs) => PendingInspect::next(cs, Vec::new()),
        }
    }

    /// The counter increments that this step owes.
    pub fn counter_updates(&self) -> (r: Vec<CounterUpdate>)
        ensures
            updates_view(r@) == scrape_updates(self@),
    {
        match self {
            ScrapeStep::Fail(_) => {
                let r = vec![CounterUpdate::Error];
                assert(updates_view(r@) =~= scrape_updates(self@));
                r
            },
            _ => {
                let r: Vec<CounterUpdate> = Vec::new();
                assert(updates_view(r@) =~= scrape_updates(self@));
                r
            },
        }
    }
}

/// The inspections of a scrape in which every inspection succeeds, with the
/// given health statuses.
pub open spec fn statuses_inspected(st: Seq<Option<Seq<char>>>) -> Seq<Inspection> {
    st.map_values(|s: Option<Seq<char>>| Inspection::Status(s))
}

/// The classifications of some health statuses.
pub open spec fn classified(st: Seq<Option<Seq<char>>>) -> Seq<ContainerHealth> {
    st.map_values(|s: Option<Seq<char>>| classify(s))
}

/// A snapshot holds one observation per classification for each container.
pub proof fn lemma_snapshot_len(cs: Seq<ContainerRecord>, hs: Seq<ContainerHealth>)
    ensures
        snapshot(cs, hs).len() == all_healths().len() * cs.len(),
    decreases cs.len(),
{
    assert(all_healths().len() == 6);
    if cs.len() > 0 {
        lemma_snapshot_len(cs.drop_last(), hs.drop_last());
        assert(snapshot(cs, hs).len() == 6 * (cs.len() - 1) + 6);
    }
}

/// The observations of container `i` stand together, at its position in the
/// enumeration.
pub proof fn lemma_snapshot_segment(cs: Seq<ContainerRecord>, hs: Seq<ContainerHealth>, i: int)
    requires
        cs.len() == hs.len(),
        0 <= i < cs.len(),
    ensures
        snapshot(cs, hs).subrange(6 * i, 6 * i + 6) == container_samples(cs[i], hs[i]),
    decreases cs.len(),
{
    let n = cs.len() - 1;
    let prefix = snapshot(cs.drop_last(), hs.drop_last());
    lemma_snapshot_len(cs.drop_last(), hs.drop_last());
    assert(prefix.len() == 6 * n);
    if i == n {
        assert(snapshot(cs, hs).subrange(6 * i, 6 * i + 6) =~= container_samples(cs[i], hs[i]));
    } else {
        lemma_snapshot_segment(cs.drop_last(), hs.drop_last(), i);
        assert(snapshot(cs, hs).subrange(6 * i, 6 * i + 6) =~= prefix.subrange(6 * i, 6 * i + 6));
    }
}

/// In every snapshot, the `health` gauge values of one container sum to
/// exactly one: its observations carry its id, image and name under each
/// classification in turn, and only the resolved one reads 1.
pub proof fn lemma_one_health_per_container(cs: Seq<ContainerRecord>, hs: Seq<ContainerHealth>, i: int)
    requires
        cs.len() == hs.len(),
        0 <= i < cs.len(),
    ensures
        ({
            let seg = snapshot(cs, hs).subrange(6 * i, 6 * i + 6);
            &&& value_sum(seg) == 1
            &&& forall|j: int|
                0 <= j < seg.len() ==> {
                    &&& #[trigger] seg[j].labels.id == opt_view(cs[i].id)
                    &&& seg[j].labels.image == opt_view(cs[i].image)
                    &&& seg[j].labels.name == projected(cs[i], None).name
                    &&& seg[j].labels.health == Some(health_label(all_healths()[j]))
                    &&& (seg[j].value == 1) == (all_healths()[j] == hs[i])
                }
        }),
{
    lemma_snapshot_segment(cs, hs, i);
    let seg = container_samples(cs[i], hs[i]);
    reveal_with_fuel(value_sum, 7);
    assert(seg.drop_last().drop_last().drop_last().drop_last().drop_last().drop_last() =~= seq![]);
}

/// When the enumeration fails, the scrape publishes no observation and owes
/// one error increment and no restart increment.
pub proof fn lemma_failed_enumeration()
    ensures
        scrape_started(None) == ScrapeStepView::Fail(CollectError::ConnectionFailure),
        published(scrape_started(None)).len() == 0,
        error_count(scrape_updates(scrape_started(None))) == 1,
        restart_count(scrape_updates(scrape_started(None))) == 0,
{
    let u = scrape_updates(scrape_started(None));
    assert(u.len() == 1 && u.last() is Error);
    assert(u.drop_last() =~= seq![]);
    assert(error_count(u.drop_last()) == 0);
    assert(restart_count(u.drop_last()) == 0);
}

proof fn lemma_drive_from(cs: Seq<ContainerRecord>, st: Seq<Option<Seq<char>>>, k: int)
    requires
        forall|i: int| 0 <= i < cs.len() ==> (#[trigger] cs[i]).id is Some,
        st.len() == cs.len(),
        0 <= k <= cs.len(),
    ensures
        drive_scrape(
            next_scrape_step(cs, classified(st).subrange(0, k)),
            statuses_inspected(st).subrange(k, cs.len() as int),
        ) == ScrapeStepView::Publish(snapshot(cs, classified(st))),
    decreases cs.len() - k,
{
    let n = cs.len() as int;
    if k == n {
        assert(classified(st).subrange(0, k) =~= classified(st));
    } else {
        let ins = statuses_inspected(st).subrange(k, n);
        let hs = classified(st).subrange(0, k);
        assert(ins[0] == Inspection::Status(st[k]));
        assert(hs.push(classify(st[k])) =~= classified(st).subrange(0, k + 1));
        assert(ins.drop_first() =~= statuses_inspected(st).subrange(k + 1, n));
        lemma_drive_from(cs, st, k + 1);
    }
}

/// A scrape in which every call succeeds publishes the snapshot of the
/// resolved classifications, and nothing else: scraping twice a population
/// whose containers and healths have not changed publishes the same snapshot.
pub proof fn lemma_rescrape_identical(
    cs: Seq<ContainerRecord>,
    first: Seq<Option<Seq<char>>>,
    second: Seq<Option<Seq<char>>>,
)
    requires
        forall|i: int| 0 <= i < cs.len() ==> (#[trigger] cs[i]).id is Some,
        first.len() == cs.len(),
        second.len() == cs.len(),
        forall|i: int| 0 <= i < cs.len() ==> classify(#[trigger] first[i]) == classify(second[i]),
    ensures
        drive_scrape(scrape_started(Some(cs)), statuses_inspected(first))
            == ScrapeStepView::Publish(snapshot(cs, classified(first))),
        drive_scrape(scrape_started(Some(cs)), statuses_inspected(first))
            == drive_scrape(scrape_started(Some(cs)), statuses_inspected(second)),
{
    lemma_drive_from(cs, first, 0);
    lemma_drive_from(cs, second, 0);
    assert(classified(first).subrange(0, 0) =~= seq![]);
    assert(classified(second).subrange(0, 0) =~= seq![]);
    assert(statuses_inspected(first).subrange(0, cs.len() as int) =~= statuses_inspected(first));
    assert(statuses_inspected(second).subrange(0, cs.len() as int) =~= statuses_inspected(second));
    assert(classified(first) =~= classified(second));
}

} // verus!
