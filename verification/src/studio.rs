//! Schema types of the visual agent builder: agent kinds, conditional
//! routes, and the query carried by a streaming request.

use vstd::prelude::*;

use crate::strings::{spec_strip_prefix, str_strip_prefix};

verus! {

/// Agent type in a builder project.
#[derive(Debug, Clone, Copy, PartialEq, Eq, Structural)]
pub enum AgentType {
    Llm,
    Tool,
    Sequential,
    Parallel,
    Loop,
    Router,
    Graph,
    Custom,
}

/// A conditional route of a router agent: when `condition` holds, hand
/// control to `target`.
#[derive(Debug, Clone)]
pub struct Route {
    pub condition: String,
    pub target: String,
}

impl Route {
    /// A route from a condition to a target agent.
    pub fn new(condition: &str, target: &str) -> (r: Self)
        ensures
            r.condition@ == condition@,
            r.target@ == target@,
    {
        Route { condition: condition.to_owned(), target: target.to_owned() }
    }
}

/// The query parameters of a streaming run request.
#[derive(Debug, Clone)]
pub struct StreamQuery {
    /// The user input to run.
    pub input: String,
    /// API key override, if the caller supplies one.
    pub api_key: Option<String>,
    /// Path to a pre-built agent binary, if one exists.
    pub binary_path: Option<String>,
}

/// One line of a running agent's standard output, classified.
pub enum StreamLine {
    /// A trace record, carrying its JSON payload.
    Trace(String),
    /// A chunk of the agent's response text.
    Chunk(String),
    /// Anything else; not forwarded.
    Other,
}

/// `s` with every leading repetition of `prefix` removed.
pub open spec fn spec_trim_leading(s: Seq<char>, prefix: Seq<char>) -> Seq<char>
    decreases s.len(),
{
    if prefix.len() == 0 {
        s
    } else {
        match spec_strip_prefix(s, prefix) {
            Some(rest) => spec_trim_leading(rest, prefix),
            None => s,
        }
    }
}

/// `s` with every leading repetition of `prefix` removed.
fn trim_leading<'a>(s: &'a str, prefix: &str) -> (r: &'a str)
    requires
        prefix@.len() > 0,
    ensures
        r@ == spec_trim_leading(s@, prefix@),
    decreases s@.len(),
{
    match str_strip_prefix(s, prefix) {
        Some(rest) => trim_leading(rest, prefix),
        None => s,
    }
}

impl StreamLine {
    /// Classify one line of agent output: after dropping any leading prompt
    /// markers, a `TRACE:` line carries a trace payload, a `RESPONSE:` line
    /// carries response text, and everything else is noise.
    pub fn classify(line: &str) -> (r: StreamLine)
        ensures
            ({
                let trimmed = spec_trim_leading(line@, "> "@);
                match spec_strip_prefix(trimmed, "TRACE:"@) {
                    Some(payload) => r matches StreamLine::Trace(s) && s@ == payload,
                    None => match spec_strip_prefix(trimmed, "RESPONSE:"@) {
                        Some(payload) => r matches StreamLine::Chunk(s) && s@ == payload,
                        None => r is Other,
                    },
                }
            }),
    {
        proof {
            reveal_strlit("> ");
        }
        let trimmed = trim_leading(line, "> ");
        match str_strip_prefix(trimmed, "TRACE:") {
            Some(payload) => StreamLine::Trace(payload.to_owned()),
            None => match str_strip_prefix(trimmed, "RESPONSE:") {
                Some(payload) => StreamLine::Chunk(payload.to_owned()),
                None => StreamLine::Other,
            },
        }
    }
}

} // verus!
