//! The measurement parser that keeps the one talos payload of a log.

use vstd::prelude::*;
use regex::Regex;
use rustc_serialize::json::Json;
use crate::json::{json_outcome, read_json};
use crate::logparser::{LogParser, LogParserError};
use crate::patterns::{
    captures, compile, pattern_captures, pattern_error, regex_source, sources_of,
};
use crate::performanceparser::{payload_from, payload_group_names, PerformanceParser};

verus! {

/// A line that carries the talos payload.
pub const RE_TALOS: &'static str = "TALOSDATA:\\s+(?P<data>\\[.*\\])";

/// The talos parser as a mathematical value: the value it holds and
/// whether it has found its one payload.
pub struct TalosView {
    pub artifact: Option<Json>,
    pub complete: bool,
}

/// The talos parser before it has seen a line.
pub open spec fn initial_talos() -> TalosView {
    TalosView { artifact: None, complete: false }
}

/// The payload text that a line carries, if it carries one.
pub open spec fn talos_payload_of(line: Seq<char>) -> Option<Seq<char>> {
    payload_from(pattern_captures(RE_TALOS@, line, payload_group_names()))
}

/// The parser after one more line: the payload of a marker line is read
/// as JSON; a well-formed one is stored and completes the parser, a
/// malformed one and one beyond the limits fail; a line without payload
/// changes nothing.
pub open spec fn talos_after_line(t: TalosView, line: Seq<char>) -> Result<
    TalosView,
    LogParserError,
> {
    match talos_payload_of(line) {
        Some(text) => match json_outcome(text) {
            Ok(value) => Ok(TalosView { artifact: Some(value), complete: true }),
            Err(e) => Err(e),
        },
        None => Ok(t),
    }
}

/// The parser of the talos payload: the first marker line wins, and the
/// parser is complete from then on.
pub struct TalosParser {
    artifact: Option<Json>,
    complete: bool,
    pattern: Regex,
}

impl View for TalosParser {
    type V = TalosView;

    closed spec fn view(&self) -> TalosView {
        TalosView { artifact: self.artifact, complete: self.complete }
    }
}

impl TalosParser {
    /// The parser holds the compiled marker pattern.
    pub closed spec fn wf(&self) -> bool {
        regex_source(&self.pattern) == RE_TALOS@
    }

    /// A parser that has seen no line; fails where the marker pattern is no
    /// regular expression.
    pub fn new() -> (r: Result<TalosParser, LogParserError>)
        ensures
            match r {
                Ok(p) => pattern_error(RE_TALOS@).is_none() && p.wf() && p@ == initial_talos(),
                Err(e) => pattern_error(RE_TALOS@) matches Some(failure) && e
                    == LogParserError::Pattern(failure),
            },
    {
        match compile(RE_TALOS) {
            Ok(pattern) => Ok(TalosParser { artifact: None, complete: false, pattern }),
            Err(e) => Err(LogParserError::Pattern(e)),
        }
    }

    /// Stores the value that a marker line's payload was read as.
    pub fn store(&mut self, parsed: Result<Json, LogParserError>) -> (r: Result<(), LogParserError>)
        requires
            old(self).wf(),
        ensures
            match parsed {
                Ok(value) => r is Ok && final(self)@ == (TalosView {
                    artifact: Some(value),
                    complete: true,
                }),
                Err(e) => r == Err::<(), LogParserError>(e) && final(self)@ == old(self)@,
            },
            final(self).wf(),
    {
        match parsed {
            Ok(value) => {
                self.artifact = Some(value);
                self.complete = true;
                Ok(())
            },
            Err(e) => Err(e),
        }
    }
}

impl LogParser for TalosParser {
    type Artifact = Option<Json>;

    open spec fn valid(&self) -> bool {
        self.wf()
    }

    open spec fn is_complete(&self) -> bool {
        self@.complete
    }

    open spec fn holds_artifact(&self) -> bool {
        self@.artifact.is_some()
    }

    open spec fn key(&self) -> Seq<char> {
        "talos_data"@
    }

    open spec fn line_effect(
        &self,
        line: Seq<char>,
        line_number: u32,
        after: Self,
        r: Result<(), LogParserError>,
    ) -> bool {
        match talos_after_line(self@, line) {
            Ok(t) => r is Ok && after@ == t,
            Err(e) => r == Err::<(), LogParserError>(e) && after@ == self@,
        }
    }

    open spec fn finish_effect(&self, last_line_number: u32, after: Self) -> bool {
        after == *self
    }

    open spec fn take_effect(&self, after: Self, artifact: Option<Json>) -> bool {
        artifact == self@.artifact && after@ == initial_talos()
    }

    /// The key under which the artifact is reported.
    fn name(&self) -> (r: &'static str)
        ensures
            r@ == "talos_data"@,
    {
        "talos_data"
    }

    /// Consumes one line of the log. It fails where the line is a marker
    /// line whose payload is malformed, and only there.
    fn parse_line(&mut self, line: &str, line_number: u32) -> (r: Result<(), LogParserError>)
        ensures
            match talos_after_line(old(self)@, line@) {
                Ok(t) => r is Ok && final(self)@ == t,
                Err(e) => r == Err::<(), LogParserError>(e) && final(self)@ == old(self)@,
            },
            final(self).wf(),
    {
        let names = vec!["data"];
        assert(sources_of(names@) =~= payload_group_names());
        let found = captures(&self.pattern, line, &names);
        match PerformanceParser::payload(found) {
            Some(text) => {
                let parsed = read_json(text.as_str());
                self.store(parsed)
            },
            None => Ok(()),
        }
    }

    /// Hands out the value that is held, if any, and leaves the parser as
    /// it was before it saw a line.
    fn get_artifact(&mut self) -> (r: Option<Json>)
        ensures
            r == old(self)@.artifact,
            final(self)@ == initial_talos(),
            final(self).wf(),
    {
        self.complete = false;
        self.artifact.take()
    }

    /// Nothing is left open at the end of the log.
    fn finish_parse(&mut self, last_line_number: u32)
        ensures
            *final(self) == *old(self),
    {
    }

    /// Whether the parser has found its payload and wants no more lines.
    fn complete(&self) -> (r: bool)
        ensures
            r == self@.complete,
    {
        self.complete
    }

    /// Whether a value is held.
    fn has_artifact(&self) -> (r: bool)
        ensures
            r == self@.artifact.is_some(),
    {
        self.artifact.is_some()
    }
}

} // verus!
