//! The settings a prompt is rendered from.

use vstd::prelude::*;
use vstd::string::*;
use crate::error::ConfigError;
use crate::segments::lemma_name_round_trip;
use crate::segments::SegmentName;
use crate::text::str_eq;

verus! {

/// Options of the working-directory segment.
#[derive(Clone, Copy, PartialEq, Eq, Structural, Debug)]
pub struct CwdConfiguration {
    /// Show the last component of the directory only.
    pub dironly: bool,
}

impl Default for CwdConfiguration {
    fn default() -> (r: Self)
        ensures
            !r.dironly,
    {
        CwdConfiguration { dironly: false }
    }
}

/// A shorter name to display for a cluster context.
#[derive(Clone, PartialEq, Eq, Debug)]
pub struct KubeContextAlias {
    pub context: String,
    pub alias: String,
}

/// Options of the cluster-context segment.
#[derive(Clone, PartialEq, Eq, Debug)]
pub struct KubeConfiguration {
    /// A context whose name contains one of these is flagged with a warning.
    pub critical_contexts: Option<Vec<String>>,
    pub context_aliases: Option<Vec<KubeContextAlias>>,
}

/// Options of the containers segment.
#[derive(Clone, PartialEq, Eq, Debug)]
pub struct ContainersConfiguration {
    /// Where the container daemon listens: `http://host[:port]`, or
    /// `unix:` followed by the path of a socket.
    pub url: String,
}

/// Options of the Terraform workspace segment.
#[derive(Clone, PartialEq, Eq, Debug)]
pub struct TerraformConfiguration {
    /// A workspace with one of these names is flagged with a warning.
    pub critical_workspaces: Vec<String>,
}

#[derive(Clone, PartialEq, Eq, Debug)]
pub struct Configuration {
    /// The names of the active segments, in the order they are shown.
    pub segments: Vec<String>,
    pub theme: String,
    pub cwd: CwdConfiguration,
    pub kube: Option<KubeConfiguration>,
    pub containers: Option<ContainersConfiguration>,
    pub terraform: Option<TerraformConfiguration>,
}

/// The names of a list of segments, as text.
pub open spec fn names_of(segments: Seq<String>) -> Seq<Seq<char>> {
    Seq::new(segments.len(), |i: int| segments[i]@)
}

/// The working directory and the privilege marker, in the default theme, with
/// no optional section.
impl Default for Configuration {
    fn default() -> (r: Self)
        ensures
            names_of(r.segments@) == seq!["cwd"@, "root"@],
            r.theme@ == "default"@,
            !r.cwd.dironly,
            r.kube is None,
            r.containers is None,
            r.terraform is None,
    {
        let mut segments: Vec<String> = Vec::new();
        segments.push(String::from_str("cwd"));
        segments.push(String::from_str("root"));
        assert(names_of(segments@) =~= seq!["cwd"@, "root"@]);
        Configuration {
            segments,
            theme: String::from_str("default"),
            cwd: CwdConfiguration { dironly: false },
            kube: None,
            containers: None,
            terraform: None,
        }
    }
}

/// What can be wrong with a name in the list of active segments.
#[derive(Clone, Copy, PartialEq, Eq, Structural, Debug)]
pub enum NameFault {
    /// It names no segment.
    Unknown,
    /// It stands earlier in the list already.
    Repeated,
}

/// Whether the name at position `i` stands at an earlier position too.
pub open spec fn is_repeat(names: Seq<Seq<char>>, i: int) -> bool {
    exists|j: int| 0 <= j < i && #[trigger] names[j] == names[i]
}

/// What is wrong with the name at position `i`, if anything.
pub open spec fn fault_at(names: Seq<Seq<char>>, i: int) -> Option<NameFault> {
    if SegmentName::from_name(names[i]) is None {
        Some(NameFault::Unknown)
    } else if is_repeat(names, i) {
        Some(NameFault::Repeated)
    } else {
        None
    }
}

/// The first position from `from` on at which something is wrong.
pub open spec fn first_fault(names: Seq<Seq<char>>, from: int) -> Option<int>
    decreases names.len() - from,
{
    if from < 0 || from >= names.len() {
        None
    } else if fault_at(names, from) is Some {
        Some(from)
    } else {
        first_fault(names, from + 1)
    }
}

/// Whether `result` is the outcome of resolving `names`: the segments they
/// name, in order and each once, if nothing is wrong with any name; else the
/// error for the first name that something is wrong with.
pub open spec fn names_resolved(
    names: Seq<Seq<char>>,
    result: Result<Vec<SegmentName>, ConfigError>,
) -> bool {
    match first_fault(names, 0) {
        None => {
            &&& result matches Ok(resolved)
            &&& resolved@.len() == names.len()
            &&& forall|i: int|
                0 <= i < names.len() ==> SegmentName::from_name(names[i]) == Some(
                    #[trigger] resolved@[i],
                )
            &&& forall|i: int, j: int|
                0 <= i < j < names.len() ==> resolved@[i] != resolved@[j]
        },
        Some(i) => match fault_at(names, i) {
            Some(NameFault::Unknown) => {
                &&& result matches Err(ConfigError::UnknownSegment(name))
                &&& name@ == names[i]
            },
            _ => {
                &&& result matches Err(ConfigError::DuplicateSegment(name))
                &&& name@ == names[i]
            },
        },
    }
}

fn repeated(segments: &Vec<String>, i: usize) -> (r: bool)
    requires
        i < segments.len(),
    ensures
        r == is_repeat(names_of(segments@), i as int),
{
    let ghost names = names_of(segments@);
    let mut j: usize = 0;
    while j < i
        invariant
            j <= i,
            i < segments.len(),
            names == names_of(segments@),
            forall|k: int| 0 <= k < j ==> #[trigger] names[k] != names[i as int],
        decreases i - j,
    {
        if str_eq(segments[j].as_str(), segments[i].as_str()) {
            assert(names[j as int] == names[i as int]);
            return true;
        }
        j += 1;
    }
    false
}

impl Configuration {
    /// Resolves the list of active segments. A name that names no segment, or
    /// that stands in the list a second time, is an error.
    pub fn segment_names(&self) -> (r: Result<Vec<SegmentName>, ConfigError>)
        ensures
            names_resolved(names_of(self.segments@), r),
    {
        let ghost names = names_of(self.segments@);
        let mut resolved: Vec<SegmentName> = Vec::new();
        let mut i: usize = 0;
        while i < self.segments.len()
            invariant
                i <= self.segments.len(),
                names == names_of(self.segments@),
                resolved@.len() == i,
                first_fault(names, 0) == first_fault(names, i as int),
                forall|k: int|
                    0 <= k < i ==> SegmentName::from_name(names[k]) == Some(
                        #[trigger] resolved@[k],
                    ),
                forall|k: int, l: int| 0 <= k < l < i ==> resolved@[k] != resolved@[l],
            decreases self.segments.len() - i,
        {
            let name = match SegmentName::parse(self.segments[i].as_str()) {
                Some(name) => name,
                None => {
                    return Err(ConfigError::UnknownSegment(self.segments[i].clone()));
                },
            };
            if repeated(&self.segments, i) {
                return Err(ConfigError::DuplicateSegment(self.segments[i].clone()));
            }
            proof {
                assert forall|k: int| 0 <= k < i implies resolved@[k] != name by {
                    lemma_name_round_trip(name, names[k]);
                    lemma_name_round_trip(name, names[i as int]);
                }
            }
            resolved.push(name);
            i += 1;
        }
        Ok(resolved)
    }
}

} // verus!
