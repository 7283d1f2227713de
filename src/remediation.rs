use vstd::prelude::*;

use crate::counters::{updates_view, CounterUpdate, CounterUpdateView};
use crate::errors::RuntimeError;
use crate::health::{health_label, ContainerHealth};
use crate::labels::{projected, ContainerRecord, ContainerSummaryLabels, LabelView};

verus! {

/// The label set under which a restart of a container is counted: its own
/// dimensions, with the health that triggered the restart.
pub open spec fn restart_labels(c: ContainerRecord) -> LabelView {
    projected(c, Some(health_label(ContainerHealth::Unhealthy)))
}

/// Where a restart round stands: the counter updates owed so far, and the
/// container whose restart call is to be made next (the list and a position).
pub struct RoundView {
    pub updates: Seq<CounterUpdateView>,
    pub next: Option<(Seq<ContainerRecord>, int)>,
}

/// The round from position `k` of the list on: containers without an id are
/// counted as failed restarts without any call, up to the first one that has
/// an id, whose restart comes next.
pub open spec fn advance(cs: Seq<ContainerRecord>, k: int) -> RoundView
    decreases cs.len() - k,
{
    if k >= cs.len() || k < 0 {
        RoundView { updates: seq![], next: None }
    } else if cs[k].id is None {
        let rest = advance(cs, k + 1);
        RoundView {
            updates: seq![CounterUpdateView::RestartFailed(restart_labels(cs[k]))] + rest.updates,
            next: rest.next,
        }
    } else {
        RoundView { updates: seq![], next: Some((cs, k)) }
    }
}

/// The first step of a round, from the list of unhealthy containers (`None`:
/// the list call failed). A disabled policy does nothing.
pub open spec fn round_started(enabled: bool, listed: Option<Seq<ContainerRecord>>) -> RoundView {
    if !enabled {
        RoundView { updates: seq![], next: None }
    } else {
        match listed {
            None => RoundView { updates: seq![CounterUpdateView::Error], next: None },
            Some(cs) => advance(cs, 0),
        }
    }
}

/// The counter update for the outcome of one restart call.
pub open spec fn outcome_update(c: ContainerRecord, succeeded: bool) -> CounterUpdateView {
    if succeeded {
        CounterUpdateView::Restarted(restart_labels(c))
    } else {
        CounterUpdateView::RestartFailed(restart_labels(c))
    }
}

/// The step after the restart call for container `k`, whatever its outcome:
/// the outcome is counted and the round goes on with the next container.
pub open spec fn round_resumed(cs: Seq<ContainerRecord>, k: int, succeeded: bool) -> RoundView {
    let rest = advance(cs, k + 1);
    RoundView { updates: seq![outcome_update(cs[k], succeeded)] + rest.updates, next: rest.next }
}

/// The ids of the restart calls that a round makes from a step on, given the
/// outcomes of those calls in turn.
pub open spec fn round_calls(r: RoundView, outcomes: Seq<bool>) -> Seq<Seq<char>>
    decreases outcomes.len(),
{
    match r.next {
        None => seq![],
        Some((cs, k)) => if outcomes.len() == 0 {
            seq![]
        } else {
            seq![cs[k].id.unwrap()@] + round_calls(
                round_resumed(cs, k, outcomes[0]),
                outcomes.drop_first(),
            )
        },
    }
}

/// The counter updates that a round owes from a step on, given the outcomes
/// of its restart calls in turn.
pub open spec fn round_updates(r: RoundView, outcomes: Seq<bool>) -> Seq<CounterUpdateView>
    decreases outcomes.len(),
{
    r.updates + match r.next {
        None => seq![],
        Some((cs, k)) => if outcomes.len() == 0 {
            seq![]
        } else {
            round_updates(round_resumed(cs, k, outcomes[0]), outcomes.drop_first())
        },
    }
}

/// A restart round that waits for the outcome of its next restart call.
pub struct PendingRestart {
    containers: Vec<ContainerRecord>,
    at: usize,
}

/// One step of a restart round: the counter increments it owes, and the
/// restart call to make next, if any.
pub struct RoundStep {
    pub updates: Vec<CounterUpdate>,
    pub next: Option<PendingRestart>,
}

impl View for RoundStep {
    type V = RoundView;

    open spec fn view(&self) -> RoundView {
        RoundView {
            updates: updates_view(self.updates@),
            next: match self.next {
                Some(p) => Some((p.containers(), p.position())),
                None => None,
            },
        }
    }
}

impl PendingRestart {
    #[verifier::type_invariant]
    spec fn well_formed(&self) -> bool {
        &&& self.at < self.containers.len()
        &&& self.containers@[self.at as int].id is Some
    }

    /// The containers that the list call returned.
    pub closed spec fn containers(&self) -> Seq<ContainerRecord> {
        self.containers@
    }

    /// The position of the container to restart.
    pub closed spec fn position(&self) -> int {
        self.at as int
    }

    /// Goes through the list from position `k` (see `advance`).
    fn advance(cs: Vec<ContainerRecord>, k: usize) -> (r: RoundStep)
        requires
            k <= cs.len(),
        ensures
            r@ == advance(cs@, k as int),
    {
        let mut updates: Vec<CounterUpdate> = Vec::new();
        let mut i: usize = k;
        while i < cs.len() && cs[i].id.is_none()
            invariant
                k <= i <= cs.len(),
                advance(cs@, k as int) == (RoundView {
                    updates: updates_view(updates@) + advance(cs@, i as int).updates,
                    next: advance(cs@, i as int).next,
                }),
            decreases cs.len() - i,
        {
            let ghost before = updates@;
            let labels = ContainerSummaryLabels::for_health(&cs[i], ContainerHealth::Unhealthy);
            updates.push(CounterUpdate::RestartFailed(labels));
            proof {
                let rest = advance(cs@, i + 1);
                assert(updates_view(updates@) =~= updates_view(before).push(
                    CounterUpdateView::RestartFailed(restart_labels(cs@[i as int])),
                ));
                assert(updates_view(updates@) + rest.updates =~= updates_view(before) + (seq![
                    CounterUpdateView::RestartFailed(restart_labels(cs@[i as int])),
                ] + rest.updates));
            }
            i = i + 1;
        }
        if i < cs.len() {
            assert(updates_view(updates@) + seq![] =~= updates_view(updates@));
            RoundStep { updates, next: Some(PendingRestart { containers: cs, at: i }) }
        } else {
            assert(updates_view(updates@) + seq![] =~= updates_view(updates@));
            RoundStep { updates, next: None }
        }
    }

    /// The id of the container to restart.
    pub fn container_id(&self) -> (r: &String)
        ensures
            self.containers()[self.position()].id == Some(*r),
    {
        proof {
            use_type_invariant(self);
        }
        self.containers[self.at].id.as_ref().unwrap()
    }

    /// The container to restart, as the list call returned it.
    pub fn container(&self) -> (r: &ContainerRecord)
        ensures
            *r == self.containers()[self.position()],
    {
        proof {
            use_type_invariant(self);
        }
        &self.containers[self.at]
    }

    /// Counts the outcome of the restart call and goes on with the round; a
    /// failed call is not retried.
    pub fn resume(self, outcome: Result<(), RuntimeError>) -> (r: RoundStep)
        ensures
            r@ == round_resumed(self.containers(), self.position(), outcome is Ok),
    {
        proof {
            use_type_invariant(&self);
        }
        let PendingRestart { containers, at } = self;
        let labels = ContainerSummaryLabels::for_health(&containers[at], ContainerHealth::Unhealthy);
        let update = match outcome {
            Ok(()) => CounterUpdate::Restarted(labels),
            Err(_) => CounterUpdate::RestartFailed(labels),
        };
        let rest = PendingRestart::advance(containers, at + 1);
        let ghost succeeded = outcome is Ok;
        assert(update@ == outcome_update(containers@[at as int], succeeded));
        let mut updates = vec![update];
        let ghost first = updates@;
        assert(updates_view(first) =~= seq![outcome_update(containers@[at as int], succeeded)]);
        let ghost tail = rest.updates@;
        let mut more = rest.updates;
        updates.append(&mut more);
        assert(updates_view(updates@) =~= updates_view(first) + updates_view(tail));
        RoundStep { updates, next: rest.next }
    }
}

/// The restart policy: whether, and how often, unhealthy containers are
/// looked for and restarted.
pub struct Remediation {
    restart_interval_ms: Option<u64>,
}

impl Remediation {
    /// A policy that restarts every `restart_interval_ms` milliseconds, or
    /// never where no interval is given.
    pub fn new(restart_interval_ms: Option<u64>) -> (r: Remediation)
        ensures
            r.interval() == restart_interval_ms,
    {
        Remediation { restart_interval_ms }
    }

    pub closed spec fn interval(&self) -> Option<u64> {
        self.restart_interval_ms
    }

    /// The time between two rounds; `None` where the restart loop is not to
    /// run at all.
    pub fn restart_interval(&self) -> (r: Option<u64>)
        ensures
            r == self.interval(),
    {
        self.restart_interval_ms
    }

    /// Starts a round from the list of containers that the runtime reports
    /// unhealthy.
    pub fn begin_round(&self, listed: Result<Vec<ContainerRecord>, RuntimeError>) -> (r: RoundStep)
        ensures
            r@ == round_started(
                self.interval() is Some,
                match listed {
                    Ok(cs) => Some(cs@),
                    Err(_) => None,
                },
            ),
    {
        if self.restart_interval_ms.is_none() {
            let updates: Vec<CounterUpdate> = Vec::new();
            assert(updates_view(updates@) =~= seq![]);
            return RoundStep { updates, next: None };
        }
        match listed {
            Err(_) => {
                let updates = vec![CounterUpdate::Error];
                assert(updates_view(updates@) =~= seq![CounterUpdateView::Error]);
                RoundStep { updates, next: None }
            },
            Ok(cs) => PendingRestart::advance(cs, 0),
        }
    }
}

/// Whether every container of a list has an id.
pub open spec fn all_have_ids(cs: Seq<ContainerRecord>) -> bool {
    forall|i: int| 0 <= i < cs.len() ==> (#[trigger] cs[i]).id is Some
}

/// The ids of a list of containers that all have one.
pub open spec fn ids_of(cs: Seq<ContainerRecord>) -> Seq<Seq<char>> {
    cs.map_values(|c: ContainerRecord| c.id.unwrap()@)
}

/// One counter update per container, for the outcome of its restart.
pub open spec fn outcome_updates(cs: Seq<ContainerRecord>, outcomes: Seq<bool>) -> Seq<CounterUpdateView> {
    Seq::new(cs.len(), |i: int| outcome_update(cs[i], outcomes[i]))
}

proof fn lemma_round_from(cs: Seq<ContainerRecord>, outcomes: Seq<bool>, k: int)
    requires
        all_have_ids(cs),
        outcomes.len() == cs.len(),
        0 <= k <= cs.len(),
    ensures
        round_calls(advance(cs, k), outcomes.subrange(k, cs.len() as int))
            == ids_of(cs).subrange(k, cs.len() as int),
        round_updates(advance(cs, k), outcomes.subrange(k, cs.len() as int))
            == outcome_updates(cs, outcomes).subrange(k, cs.len() as int),
    decreases cs.len() - k,
{
    let n = cs.len() as int;
    let o = outcomes.subrange(k, n);
    if k == n {
        assert(round_calls(advance(cs, k), o) =~= ids_of(cs).subrange(k, n));
        assert(round_updates(advance(cs, k), o) =~= outcome_updates(cs, outcomes).subrange(k, n));
    } else {
        assert(cs[k].id is Some);
        let rest = o.drop_first();
        assert(rest =~= outcomes.subrange(k + 1, n));
        assert(o[0] == outcomes[k]);
        lemma_round_from(cs, outcomes, k + 1);
        let next = advance(cs, k + 1);
        let resumed = round_resumed(cs, k, outcomes[k]);
        assert(next.updates =~= seq![]);
        assert(resumed.next == next.next);
        assert(round_calls(resumed, rest) == round_calls(next, rest));
        assert(round_updates(resumed, rest) =~= seq![outcome_update(cs[k], outcomes[k])]
            + round_updates(next, rest));
        assert(round_calls(advance(cs, k), o) =~= ids_of(cs).subrange(k, n));
        assert(round_updates(advance(cs, k), o) =~= outcome_updates(cs, outcomes).subrange(k, n));
    }
}

/// One round over a list of unhealthy containers that all have an id makes
/// exactly one restart call per container, in list order, and counts each
/// outcome once under that container's own label set: a success in
/// `restarts`, a failure in `restart_failures`, with no retry.
pub proof fn lemma_round_restarts_each(cs: Seq<ContainerRecord>, outcomes: Seq<bool>)
    requires
        all_have_ids(cs),
        outcomes.len() == cs.len(),
    ensures
        round_calls(round_started(true, Some(cs)), outcomes) == ids_of(cs),
        round_updates(round_started(true, Some(cs)), outcomes) == outcome_updates(cs, outcomes),
{
    lemma_round_from(cs, outcomes, 0);
    assert(outcomes.subrange(0, cs.len() as int) =~= outcomes);
    assert(ids_of(cs).subrange(0, cs.len() as int) =~= ids_of(cs));
    assert(outcome_updates(cs, outcomes).subrange(0, cs.len() as int) =~= outcome_updates(cs, outcomes));
}

/// Without a restart interval, a round makes no restart call and counts
/// nothing, however many containers are unhealthy.
pub proof fn lemma_disabled_never_restarts(listed: Option<Seq<ContainerRecord>>, outcomes: Seq<bool>)
    ensures
        round_calls(round_started(false, listed), outcomes).len() == 0,
        round_updates(round_started(false, listed), outcomes).len() == 0,
{
}

} // verus!
