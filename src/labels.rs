use vstd::prelude::*;

use crate::health::{health_label, opt_view, ContainerHealth};

verus! {

/// A container as one enumeration pass of the runtime reports it.
#[derive(Clone, Debug)]
pub struct ContainerRecord {
    pub id: Option<String>,
    pub names: Option<Vec<String>>,
    pub image: Option<String>,
}

/// The label set that keys one time series of every metric family.
///
/// An absent field and an empty string are different label values.
#[derive(Clone, Debug, PartialEq, Eq, Hash)]
pub struct ContainerSummaryLabels {
    pub id: Option<String>,
    pub image: Option<String>,
    pub name: Option<String>,
    pub health: Option<String>,
}

/// What a label set holds, as plain character sequences.
pub struct LabelView {
    pub id: Option<Seq<char>>,
    pub image: Option<Seq<char>>,
    pub name: Option<Seq<char>>,
    pub health: Option<Seq<char>>,
}

impl View for ContainerSummaryLabels {
    type V = LabelView;

    open spec fn view(&self) -> LabelView {
        LabelView {
            id: opt_view(self.id),
            image: opt_view(self.image),
            name: opt_view(self.name),
            health: opt_view(self.health),
        }
    }
}

/// The names of a record, as character sequences (none when absent).
pub open spec fn names_view(names: Option<Vec<String>>) -> Seq<Seq<char>> {
    match names {
        Some(v) => v@.map_values(|s: String| s@),
        None => seq![],
    }
}

/// A name with one leading `/` removed, if it has one.
pub open spec fn strip_separator(s: Seq<char>) -> Seq<char> {
    if s.len() > 0 && s[0] == '/' {
        s.subrange(1, s.len() as int)
    } else {
        s
    }
}

/// The display name: the first name, without its leading separator.
pub open spec fn display_name(names: Option<Vec<String>>) -> Option<Seq<char>> {
    let ns = names_view(names);
    if ns.len() > 0 {
        Some(strip_separator(ns[0]))
    } else {
        None
    }
}

/// The label set of a record under a given health label.
pub open spec fn projected(c: ContainerRecord, health: Option<Seq<char>>) -> LabelView {
    LabelView {
        id: opt_view(c.id),
        image: opt_view(c.image),
        name: display_name(c.names),
        health,
    }
}

/// The names joined with a separator.
pub open spec fn join(names: Seq<Seq<char>>, sep: Seq<char>) -> Seq<char>
    decreases names.len(),
{
    if names.len() == 0 {
        seq![]
    } else if names.len() == 1 {
        names[0]
    } else {
        join(names.drop_last(), sep) + sep + names.last()
    }
}

/// The text that identifies a container in log lines: its names and its id.
pub open spec fn info_text(c: ContainerRecord) -> Seq<char> {
    join(names_view(c.names), ", "@) + " ("@ + match c.id {
        Some(id) => id@,
        None => "n/a"@,
    } + ")"@
}

fn clone_text(o: &Option<String>) -> (r: Option<String>)
    ensures
        r == *o,
{
    match o {
        Some(s) => Some(s.clone()),
        None => None,
    }
}

/// Removes one leading `/` from a name, if it has one.
pub fn strip_leading_separator(s: &str) -> (r: String)
    ensures
        r@ == strip_separator(s@),
{
    let n = s.unicode_len();
    if n > 0 && s.get_char(0) == '/' {
        s.substring_char(1, n).to_owned()
    } else {
        s.to_owned()
    }
}

/// The display name of a record's name list.
pub fn first_display_name(names: &Option<Vec<String>>) -> (r: Option<String>)
    ensures
        opt_view(r) == display_name(*names),
{
    match names {
        Some(v) => {
            if v.len() > 0 {
                Some(strip_leading_separator(v[0].as_str()))
            } else {
                None
            }
        },
        None => None,
    }
}

impl ContainerSummaryLabels {
    /// The label set of a record, with the health dimension left absent.
    pub fn from_record(c: &ContainerRecord) -> (r: ContainerSummaryLabels)
        ensures
            r@ == projected(*c, None),
    {
        ContainerSummaryLabels {
            id: clone_text(&c.id),
            image: clone_text(&c.image),
            name: first_display_name(&c.names),
            health: None,
        }
    }

    /// The label set of a record under one health classification.
    pub fn for_health(c: &ContainerRecord, health: ContainerHealth) -> (r: ContainerSummaryLabels)
        ensures
            r@ == projected(*c, Some(health_label(health))),
    {
        let mut r = ContainerSummaryLabels::from_record(c);
        r.health = Some(health.label());
        r
    }
}

/// A short text that identifies an item in log lines.
pub trait Informational {
    fn info(&self) -> String;
}

impl Informational for ContainerRecord {
    fn info(&self) -> (r: String)
        ensures
            r@ == info_text(*self),
    {
        let mut r = String::new();
        match &self.names {
            Some(v) => {
                let mut i: usize = 0;
                while i < v.len()
                    invariant
                        i <= v@.len(),
                        self.names == Some(*v),
                        r@ == join(names_view(Some(*v)).subrange(0, i as int), ", "@),
                    decreases v.len() - i,
                {
                    proof {
                        let ns = names_view(Some(*v));
                        assert(ns.subrange(0, i + 1).drop_last() == ns.subrange(0, i as int));
                    }
                    if i > 0 {
                        r.append(", ");
                    }
                    r.append(v[i].as_str());
                    i = i + 1;
                }
                assert(names_view(Some(*v)).subrange(0, v@.len() as int) == names_view(Some(*v)));
            },
            None => {},
        }
        r.append(" (");
        match &self.id {
            Some(id) => r.append(id.as_str()),
            None => r.append("n/a"),
        }
        r.append(")");
        r
    }
}

} // verus!
