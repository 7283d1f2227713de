use vstd::prelude::*;

use crate::labels::{ContainerSummaryLabels, LabelView};

verus! {

/// One increment of a process-wide counter.
#[derive(Clone, Debug)]
pub enum CounterUpdate {
    /// `errors`: a runtime or collection failure.
    Error,
    /// `restarts`, under the label set of the restarted container.
    Restarted(ContainerSummaryLabels),
    /// `restart_failures`, under the label set of the container.
    RestartFailed(ContainerSummaryLabels),
}

pub enum CounterUpdateView {
    Error,
    Restarted(LabelView),
    RestartFailed(LabelView),
}

impl View for CounterUpdate {
    type V = CounterUpdateView;

    open spec fn view(&self) -> CounterUpdateView {
        match self {
            CounterUpdate::Error => CounterUpdateView::Error,
            CounterUpdate::Restarted(l) => CounterUpdateView::Restarted(l@),
            CounterUpdate::RestartFailed(l) => CounterUpdateView::RestartFailed(l@),
        }
    }
}

pub open spec fn updates_view(u: Seq<CounterUpdate>) -> Seq<CounterUpdateView> {
    u.map_values(|x: CounterUpdate| x@)
}

/// How many of the updates increment `errors`.
pub open spec fn error_count(u: Seq<CounterUpdateView>) -> nat
    decreases u.len(),
{
    if u.len() == 0 {
        0
    } else {
        error_count(u.drop_last()) + if u.last() is Error { 1nat } else { 0nat }
    }
}

/// How many of the updates increment `restarts` or `restart_failures`.
pub open spec fn restart_count(u: Seq<CounterUpdateView>) -> nat
    decreases u.len(),
{
    if u.len() == 0 {
        0
    } else {
        restart_count(u.drop_last()) + if u.last() is Error { 0nat } else { 1nat }
    }
}

} // verus!
