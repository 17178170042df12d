//! The measurement parser that collects every performance payload of a log.

use vstd::prelude::*;
use regex::Regex;
use crate::logparser::{LogParser, LogParserError};
use crate::patterns::{
    captures, compile, groups_of, pattern_captures, pattern_error, regex_source, sources_of,
};
use crate::text::{optional_text, texts_of};

verus! {

/// A line that carries a performance payload.
pub const RE_PERFORMANCE: &'static str = "PERFHERDER_DATA:\\s+(?P<data>\\{.*\\})";

/// The payload that stands for a marker without one.
pub const EMPTY_PAYLOAD: &'static str = "{}";

/// The name of the group that holds the payload.
pub open spec fn payload_group_names() -> Seq<Seq<char>> {
    seq!["data"@]
}

/// The payload of a marker line from what its pattern captured: the
/// captured text as it stands, or the empty payload where the group took no
/// part; nothing where the line is no marker line.
pub open spec fn payload_from(found: Option<Seq<Option<Seq<char>>>>) -> Option<Seq<char>> {
    match found {
        Some(groups) => Some(
            match groups[0] {
                Some(data) => data,
                None => EMPTY_PAYLOAD@,
            },
        ),
        None => None,
    }
}

/// The payload that a line carries, if it carries one.
pub open spec fn payload_of(line: Seq<char>) -> Option<Seq<char>> {
    payload_from(pattern_captures(RE_PERFORMANCE@, line, payload_group_names()))
}

/// The payloads after one more line.
pub open spec fn payloads_after(payloads: Seq<Seq<char>>, line: Seq<char>) -> Seq<Seq<char>> {
    match payload_of(line) {
        Some(payload) => payloads.push(payload),
        None => payloads,
    }
}

/// The parser of performance payloads. Its artifact is the sequence of the
/// payloads as they stand in the log: they are not read as JSON here.
pub struct PerformanceParser {
    artifact: Vec<String>,
    pattern: Regex,
}

impl View for PerformanceParser {
    type V = Seq<Seq<char>>;

    closed spec fn view(&self) -> Seq<Seq<char>> {
        texts_of(self.artifact@)
    }
}

impl PerformanceParser {
    /// The parser holds the compiled marker pattern.
    pub closed spec fn wf(&self) -> bool {
        regex_source(&self.pattern) == RE_PERFORMANCE@
    }

    /// A parser that has seen no line; fails where the marker pattern is no
    /// regular expression.
    pub fn new() -> (r: Result<PerformanceParser, LogParserError>)
        ensures
            match r {
                Ok(p) => pattern_error(RE_PERFORMANCE@).is_none() && p.wf() && p@ == Seq::<
                    Seq<char>,
                >::empty(),
                Err(e) => pattern_error(RE_PERFORMANCE@) matches Some(failure) && e
                    == LogParserError::Pattern(failure),
            },
    {
        match compile(RE_PERFORMANCE) {
            Ok(pattern) => {
                let p = PerformanceParser { artifact: Vec::new(), pattern };
                assert(p@ =~= Seq::<Seq<char>>::empty());
                Ok(p)
            },
            Err(e) => Err(LogParserError::Pattern(e)),
        }
    }

    /// The payload of a marker line from what its pattern captured.
    pub fn payload(found: Option<Vec<Option<String>>>) -> (r: Option<String>)
        requires
            found matches Some(groups) ==> groups@.len() == 1,
        ensures
            optional_text(r) == payload_from(
                match found {
                    Some(groups) => Some(groups_of(groups@)),
                    None => None,
                },
            ),
    {
        match found {
            Some(groups) => {
                let mut groups = groups;
                let ghost before = groups_of(groups@);
                let data = groups.pop().unwrap();
                assert(before[0] == optional_text(data));
                match data {
                    Some(text) => Some(text),
                    None => Some(EMPTY_PAYLOAD.to_owned()),
                }
            },
            None => None,
        }
    }
}

impl LogParser for PerformanceParser {
    type Artifact = Vec<String>;

    open spec fn valid(&self) -> bool {
        self.wf()
    }

    open spec fn is_complete(&self) -> bool {
        false
    }

    open spec fn holds_artifact(&self) -> bool {
        self@.len() > 0
    }

    open spec fn key(&self) -> Seq<char> {
        "performance_data"@
    }

    open spec fn line_effect(
        &self,
        line: Seq<char>,
        line_number: u32,
        after: Self,
        r: Result<(), LogParserError>,
    ) -> bool {
        r is Ok && after@ == payloads_after(self@, line)
    }

    open spec fn finish_effect(&self, last_line_number: u32, after: Self) -> bool {
        after == *self
    }

    open spec fn take_effect(&self, after: Self, artifact: Vec<String>) -> bool {
        texts_of(artifact@) == self@ && after@ == Seq::<Seq<char>>::empty()
    }

    /// The key under which the artifact is reported.
    fn name(&self) -> (r: &'static str)
        ensures
            r@ == "performance_data"@,
    {
        "performance_data"
    }

    /// Consumes one line of the log: the payload of a marker line is
    /// appended as it stands. It never fails.
    fn parse_line(&mut self, line: &str, line_number: u32) -> (r: Result<(), LogParserError>)
        ensures
            r is Ok,
            final(self)@ == payloads_after(old(self)@, line@),
            final(self).wf(),
    {
        let names = vec!["data"];
        assert(sources_of(names@) =~= payload_group_names());
        let found = captures(&self.pattern, line, &names);
        match Self::payload(found) {
            Some(payload) => {
                self.artifact.push(payload);
                assert(self@ =~= old(self)@.push(payload@));
            },
            None => {},
        }
        Ok(())
    }

    /// Hands out the payloads in the order of their lines and leaves the
    /// parser empty.
    fn get_artifact(&mut self) -> (r: Vec<String>)
        ensures
            texts_of(r@) == old(self)@,
            final(self)@ == Seq::<Seq<char>>::empty(),
            final(self).wf(),
    {
        let mut artifact = Vec::new();
        core::mem::swap(&mut self.artifact, &mut artifact);
        assert(self@ =~= Seq::<Seq<char>>::empty());
        artifact
    }

    /// Nothing is left open at the end of the log.
    fn finish_parse(&mut self, last_line_number: u32)
        ensures
            *final(self) == *old(self),
    {
    }

    /// This parser never stops before the end of the log.
    fn complete(&self) -> (r: bool)
        ensures
            !r,
    {
        false
    }

    /// Whether a payload has been collected since the artifact was last
    /// taken.
    fn has_artifact(&self) -> (r: bool)
        ensures
            r == (self@.len() > 0),
    {
        self.artifact.len() > 0
    }
}

} // verus!
