//! The containers segment: how many containers are in which state.
//!
//! The container daemon is asked by the caller. This module says what to ask
//! ([`request_for`]) and what to show for the answer.

use vstd::prelude::*;
use vstd::string::*;
use crate::configuration::ContainersConfiguration;
use crate::segments::single;
use crate::segments::Segment;
use crate::segments::SegmentGenerator;
use crate::segments::SegmentName;
use crate::segments::SegmentView;
use crate::shell::Shell;
use crate::text::decimal;
use crate::text::decimal_string;
use crate::text::str_eq;
use crate::text::strip_prefix;
use crate::text::strip_prefix_spec;
use crate::theme::Theme;

verus! {

/// How long the daemon is given to answer, in milliseconds.
pub const REQUEST_TIMEOUT_MS: u64 = 500;

/// Where and how to ask the daemon for the list of all containers.
#[derive(Clone, PartialEq, Eq, Debug)]
pub enum Endpoint {
    /// Over the Unix domain socket at path `socket`; the host of `url` is a
    /// placeholder.
    Unix { socket: String, url: String },
    /// Over TCP.
    Http { url: String },
}

/// One `GET` request for the list of all containers.
#[derive(Clone, PartialEq, Eq, Debug)]
pub struct ContainerRequest {
    pub endpoint: Endpoint,
    pub timeout_ms: u64,
}

/// Whether `endpoint` is the one to ask for a daemon configured as `url`: a
/// `unix:` URL gives the socket path that follows the scheme, any other URL is
/// the base of an HTTP URL.
pub open spec fn is_endpoint_for(endpoint: Endpoint, url: Seq<char>) -> bool {
    match strip_prefix_spec(url, "unix:"@) {
        Some(path) => {
            &&& endpoint matches Endpoint::Unix { socket, url: target }
            &&& socket@ == path
            &&& target@ == "http://d/containers/json?all=true"@
        },
        None => {
            &&& endpoint matches Endpoint::Http { url: target }
            &&& target@ == url + "/containers/json?all=true"@
        },
    }
}

/// The endpoint to ask for a daemon configured as `url`.
pub fn endpoint_for(url: &str) -> (endpoint: Endpoint)
    ensures
        is_endpoint_for(endpoint, url@),
{
    match strip_prefix(url, "unix:") {
        Some(path) => Endpoint::Unix {
            socket: String::from_str(path),
            url: String::from_str("http://d/containers/json?all=true"),
        },
        None => {
            let mut target = String::from_str(url);
            target.append("/containers/json?all=true");
            Endpoint::Http { url: target }
        },
    }
}

/// The request to make for the configured daemon; `None` without a
/// configuration, where nothing is asked.
pub fn request_for(config: Option<&ContainersConfiguration>) -> (r: Option<ContainerRequest>)
    ensures
        config is None <==> r is None,
        r matches Some(request) ==> is_endpoint_for(request.endpoint, config.unwrap().url@)
            && request.timeout_ms == REQUEST_TIMEOUT_MS,
{
    match config {
        Some(config) => Some(
            ContainerRequest {
                endpoint: endpoint_for(config.url.as_str()),
                timeout_ms: REQUEST_TIMEOUT_MS,
            },
        ),
        None => None,
    }
}

/// How many of `states` are exactly `state`.
pub open spec fn count_state(states: Seq<String>, state: Seq<char>) -> nat
    decreases states.len(),
{
    if states.len() == 0 {
        0
    } else {
        count_state(states.drop_last(), state) + if states.last()@ == state {
            1nat
        } else {
            0nat
        }
    }
}

/// The number of containers in each state that is shown.
#[derive(Clone, Copy, PartialEq, Eq, Structural, Debug)]
pub struct ContainerTally {
    pub running: usize,
    pub paused: usize,
    pub exited: usize,
    pub restarting: usize,
}

/// Counts the containers by state. States other than `running`, `paused`,
/// `exited` and `restarting` are not counted.
pub fn tally(states: &Vec<String>) -> (t: ContainerTally)
    ensures
        t.running == count_state(states@, "running"@),
        t.paused == count_state(states@, "paused"@),
        t.exited == count_state(states@, "exited"@),
        t.restarting == count_state(states@, "restarting"@),
{
    let mut t = ContainerTally { running: 0, paused: 0, exited: 0, restarting: 0 };
    let mut i: usize = 0;
    proof {
        reveal_strlit("running");
        reveal_strlit("paused");
        reveal_strlit("exited");
        reveal_strlit("restarting");
        assert("running"@.len() == 7);
        assert("paused"@.len() == 6);
        assert("exited"@.len() == 6);
        assert("restarting"@.len() == 10);
        assert("paused"@[0] != "exited"@[0]);
    }
    while i < states.len()
        invariant
            i <= states.len(),
            t.running == count_state(states@.take(i as int), "running"@),
            t.paused == count_state(states@.take(i as int), "paused"@),
            t.exited == count_state(states@.take(i as int), "exited"@),
            t.restarting == count_state(states@.take(i as int), "restarting"@),
            t.running <= i,
            t.paused <= i,
            t.exited <= i,
            t.restarting <= i,
            "running"@ != "paused"@,
            "running"@ != "exited"@,
            "running"@ != "restarting"@,
            "paused"@ != "exited"@,
            "paused"@ != "restarting"@,
            "exited"@ != "restarting"@,
        decreases states.len() - i,
    {
        assert(states@.take(i + 1).drop_last() =~= states@.take(i as int));
        let state = states[i].as_str();
        if str_eq(state, "running") {
            t.running += 1;
        } else if str_eq(state, "paused") {
            t.paused += 1;
        } else if str_eq(state, "exited") {
            t.exited += 1;
        } else if str_eq(state, "restarting") {
            t.restarting += 1;
        }
        i += 1;
    }
    assert(states@.take(i as int) =~= states@);
    t
}

/// A mark followed by a count; nothing for a count of zero.
pub open spec fn count_part(n: nat, mark: Seq<char>) -> Seq<char> {
    if n == 0 {
        Seq::empty()
    } else {
        mark + decimal(n)
    }
}

/// The text of the chunk: the whale, then a mark and a count for each state
/// that some container is in.
pub open spec fn tally_text(states: Seq<String>) -> Seq<char> {
    " \u{f0868} "@ + count_part(count_state(states, "running"@), " \u{25cf} "@) + count_part(
        count_state(states, "paused"@),
        " ~ "@,
    ) + count_part(count_state(states, "exited"@), " \u{2716} "@) + count_part(
        count_state(states, "restarting"@),
        " \u{21bb} "@,
    ) + " "@
}

/// Whether no container is in a state that is shown.
pub open spec fn nothing_to_show(states: Seq<String>) -> bool {
    &&& count_state(states, "running"@) == 0
    &&& count_state(states, "paused"@) == 0
    &&& count_state(states, "exited"@) == 0
    &&& count_state(states, "restarting"@) == 0
}

fn append_count(text: &mut String, n: usize, mark: &str)
    ensures
        final(text)@ == old(text)@ + count_part(n as nat, mark@),
{
    if n > 0 {
        text.append(mark);
        text.append(decimal_string(n as u64).as_str());
    }
    assert(text@ =~= old(text)@ + count_part(n as nat, mark@));
}

pub struct ContainersSegment<'a> {
    config: Option<&'a ContainersConfiguration>,
    states: Option<Vec<String>>,
}

impl<'a> ContainersSegment<'a> {
    /// Whether this segment was made with a configuration.
    pub closed spec fn configured(&self) -> bool {
        self.config is Some
    }

    /// The states this segment describes.
    pub closed spec fn states(&self) -> Option<Vec<String>> {
        self.states
    }

    /// A segment for the answer of the daemon: the state of each container it
    /// listed; `None` where it was not asked, did not answer in time, or
    /// answered something else than a list of containers.
    pub fn new(config: Option<&'a ContainersConfiguration>, states: Option<Vec<String>>) -> (r:
        Self)
        ensures
            r.configured() == (config is Some),
            r.states() == states,
    {
        Self { config, states }
    }
}

impl SegmentGenerator for ContainersSegment<'_> {
    /// Nothing without a configuration, without an answer, or when no
    /// container is in a state that is shown; else one chunk with the counts.
    open spec fn output_spec(&self, shell: Shell, theme: Theme) -> Option<Seq<SegmentView>> {
        match self.states() {
            Some(states) if self.configured() && !nothing_to_show(states@) => Some(
                seq![
                    SegmentView {
                        name: SegmentName::Containers,
                        text: tally_text(states@),
                        bg: theme.container_bg,
                        fg: theme.container_fg,
                        blinking: false,
                    },
                ],
            ),
            _ => None,
        }
    }

    fn output(&self, _shell: Shell, theme: &Theme) -> (r: Option<Vec<Segment>>) {
        if self.config.is_none() {
            return None;
        }
        let states = match &self.states {
            Some(states) => states,
            None => {
                return None;
            },
        };
        let t = tally(states);
        if t.running == 0 && t.paused == 0 && t.exited == 0 && t.restarting == 0 {
            return None;
        }
        let mut text = String::from_str(" \u{f0868} ");
        append_count(&mut text, t.running, " \u{25cf} ");
        append_count(&mut text, t.paused, " ~ ");
        append_count(&mut text, t.exited, " \u{2716} ");
        append_count(&mut text, t.restarting, " \u{21bb} ");
        text.append(" ");
        assert(text@ =~= tally_text(states@));
        Some(
            single(
                Segment {
                    name: SegmentName::Containers,
                    text,
                    bg: theme.container_bg,
                    fg: theme.container_fg,
                    blinking: false,
                },
            ),
        )
    }
}

} // verus!
