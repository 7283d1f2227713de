use vstd::prelude::*;

verus! {

/// The health of a container, resolved from what the runtime reports.
///
/// `Unknown` stands for a container that has no inspectable health block at
/// all; `NoHealthCheck` for one whose health block carries no recognized
/// status (the runtime reports `none` when no check is configured).
#[derive(Clone, Copy, Debug, PartialEq, Eq, Structural)]
pub enum ContainerHealth {
    Empty,
    NoHealthCheck,
    Starting,
    Healthy,
    Unhealthy,
    Unknown,
}

/// Every classification, in the order in which gauge observations are emitted.
pub open spec fn all_healths() -> Seq<ContainerHealth> {
    seq![
        ContainerHealth::Empty,
        ContainerHealth::NoHealthCheck,
        ContainerHealth::Starting,
        ContainerHealth::Healthy,
        ContainerHealth::Unhealthy,
        ContainerHealth::Unknown,
    ]
}

/// The classification of a raw health status (`None`: no health block).
pub open spec fn classify(status: Option<Seq<char>>) -> ContainerHealth {
    match status {
        None => ContainerHealth::Unknown,
        Some(s) => if s == ""@ {
            ContainerHealth::Empty
        } else if s == "starting"@ {
            ContainerHealth::Starting
        } else if s == "healthy"@ {
            ContainerHealth::Healthy
        } else if s == "unhealthy"@ {
            ContainerHealth::Unhealthy
        } else {
            ContainerHealth::NoHealthCheck
        },
    }
}

/// The value of the `health` label for a classification.
pub open spec fn health_label(h: ContainerHealth) -> Seq<char> {
    match h {
        ContainerHealth::Empty => ""@,
        ContainerHealth::NoHealthCheck => "none"@,
        ContainerHealth::Starting => "starting"@,
        ContainerHealth::Healthy => "healthy"@,
        ContainerHealth::Unhealthy => "unhealthy"@,
        ContainerHealth::Unknown => "null"@,
    }
}

pub open spec fn opt_view(o: Option<String>) -> Option<Seq<char>> {
    match o {
        Some(s) => Some(s@),
        None => None,
    }
}

/// Whether two strings hold the same characters.
fn same_chars(a: &str, b: &str) -> (r: bool)
    ensures
        r == (a@ == b@),
{
    let n = a.unicode_len();
    if n != b.unicode_len() {
        return false;
    }
    let mut i: usize = 0;
    while i < n
        invariant
            n == a@.len(),
            n == b@.len(),
            i <= n,
            a@.subrange(0, i as int) == b@.subrange(0, i as int),
        decreases n - i,
    {
        if a.get_char(i) != b.get_char(i) {
            return false;
        }
        assert(a@.subrange(0, i + 1) == a@.subrange(0, i as int).push(a@[i as int]));
        assert(b@.subrange(0, i + 1) == b@.subrange(0, i as int).push(b@[i as int]));
        i = i + 1;
    }
    assert(a@ == a@.subrange(0, n as int));
    assert(b@ == b@.subrange(0, n as int));
    true
}

impl ContainerHealth {
    /// All classifications, as a fixed list that can be walked any number of times.
    pub fn values() -> (r: Vec<ContainerHealth>)
        ensures
            r@ == all_healths(),
    {
        let r = vec![
            ContainerHealth::Empty,
            ContainerHealth::NoHealthCheck,
            ContainerHealth::Starting,
            ContainerHealth::Healthy,
            ContainerHealth::Unhealthy,
            ContainerHealth::Unknown,
        ];
        assert(r@ == all_healths());
        r
    }

    /// Classifies a raw health status; `None` means that the container has no
    /// health block.
    pub fn from_status(status: Option<&str>) -> (r: ContainerHealth)
        ensures
            r == classify(match status {
                Some(s) => Some(s@),
                None => None,
            }),
    {
        match status {
            None => ContainerHealth::Unknown,
            Some(s) => {
                if same_chars(s, "") {
                    ContainerHealth::Empty
                } else if same_chars(s, "starting") {
                    ContainerHealth::Starting
                } else if same_chars(s, "healthy") {
                    ContainerHealth::Healthy
                } else if same_chars(s, "unhealthy") {
                    ContainerHealth::Unhealthy
                } else {
                    ContainerHealth::NoHealthCheck
                }
            },
        }
    }

    /// The value that the `health` label takes for this classification.
    pub fn label(&self) -> (r: String)
        ensures
            r@ == health_label(*self),
    {
        match self {
            ContainerHealth::Empty => String::from_str(""),
            ContainerHealth::NoHealthCheck => String::from_str("none"),
            ContainerHealth::Starting => String::from_str("starting"),
            ContainerHealth::Healthy => String::from_str("healthy"),
            ContainerHealth::Unhealthy => String::from_str("unhealthy"),
            ContainerHealth::Unknown => String::from_str("null"),
        }
    }
}

} // verus!
