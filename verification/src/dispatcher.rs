//! The dispatcher: every line of a log goes to every parser that still
//! wants lines; at the end of the log the artifacts are collected.

use vstd::prelude::*;
use rustc_serialize::json::Json;
use crate::logparser::{
    finish_parse, parse_line, LogParserError, TOO_MANY_LINES,
};
use crate::patterns::{first_error, pattern_error};
use crate::performanceparser::{payloads_after, PerformanceParser, RE_PERFORMANCE};
use crate::stepparser::{
    after_finish, consistent, event_of, flat_errors, initial_parser,
    lemma_after_event_well_formed, lemma_after_finish_well_formed, open_errors,
    step_tables_error, steps_after_line, well_formed, StepData, StepDataView, StepParser,
    StepParserView,
};
use crate::talosparser::{initial_talos, talos_after_line, TalosParser, TalosView, RE_TALOS};
use crate::text::{optional_text, texts_of};
use crate::tinderboxparser::{
    detail_patterns_error, detail_views, details_after, TinderboxData, TinderboxDataView,
    TinderboxParser,
};

verus! {

/// The artifact of one parser.
#[derive(Debug)]
pub enum Artifact {
    StepData(StepData),
    JobDetails(Vec<TinderboxData>),
    PerformanceData(Vec<String>),
    TalosData(Json),
}

/// The artifact of one parser as a mathematical value.
pub enum ArtifactView {
    StepData(StepDataView),
    JobDetails(Seq<TinderboxDataView>),
    PerformanceData(Seq<Seq<char>>),
    TalosData(Json),
}

impl View for Artifact {
    type V = ArtifactView;

    open spec fn view(&self) -> ArtifactView {
        match self {
            Artifact::StepData(data) => ArtifactView::StepData(data@),
            Artifact::JobDetails(details) => ArtifactView::JobDetails(detail_views(details@)),
            Artifact::PerformanceData(payloads) => ArtifactView::PerformanceData(
                texts_of(payloads@),
            ),
            Artifact::TalosData(value) => ArtifactView::TalosData(*value),
        }
    }
}

/// Artifacts under their parsers' names as mathematical values.
pub open spec fn named_views(found: Seq<(&'static str, Artifact)>) -> Seq<(Seq<char>, ArtifactView)> {
    found.map_values(|entry: (&'static str, Artifact)| (entry.0@, entry.1@))
}

/// The lines of a log as mathematical values. A line that could not be
/// read as text is absent; the number of a line is its position.
pub open spec fn line_views(lines: Seq<Option<String>>) -> Seq<Option<Seq<char>>> {
    lines.map_values(|line: Option<String>| optional_text(line))
}

/// The four parsers as one mathematical value.
pub struct LogView {
    pub steps: StepParserView,
    pub details: Seq<TinderboxDataView>,
    pub payloads: Seq<Seq<char>>,
    pub talos: TalosView,
}

/// The parsers before the first line.
pub open spec fn initial_log() -> LogView {
    LogView {
        steps: initial_parser(),
        details: Seq::empty(),
        payloads: Seq::empty(),
        talos: initial_talos(),
    }
}

/// The talos parser after a line: once complete it sees no line.
pub open spec fn talos_fed(t: TalosView, line: Seq<char>) -> Result<TalosView, LogParserError> {
    if t.complete {
        Ok(t)
    } else {
        talos_after_line(t, line)
    }
}

/// The parsers after one more line, or the failure of the first parser,
/// in the order step parser, job-detail parser, talos parser, that could
/// not take the line.
pub open spec fn log_after_line(m: LogView, line: Seq<char>, line_number: u32) -> Result<
    LogView,
    LogParserError,
> {
    match steps_after_line(m.steps, line, line_number) {
        Err(e) => Err(e),
        Ok(steps) => match details_after(m.details, line) {
            Err(e) => Err(e),
            Ok(details) => match talos_fed(m.talos, line) {
                Err(e) => Err(e),
                Ok(talos) => Ok(
                    LogView { steps, details, payloads: payloads_after(m.payloads, line), talos },
                ),
            },
        },
    }
}

/// The parsers after the first `count` lines, or the failure at the
/// first line that a parser could not read. A line that is absent is
/// skipped.
pub open spec fn log_after(m: LogView, lines: Seq<Option<Seq<char>>>, count: int) -> Result<
    LogView,
    LogParserError,
>
    decreases count,
{
    if count <= 0 {
        Ok(m)
    } else {
        match log_after(m, lines, count - 1) {
            Ok(before) => match lines[count - 1] {
                Some(line) => log_after_line(before, line, (count - 1) as u32),
                None => Ok(before),
            },
            Err(e) => Err(e),
        }
    }
}

/// The number of the last line among the first `count` that is present;
/// zero where there is none.
pub open spec fn last_line_number(lines: Seq<Option<Seq<char>>>, count: int) -> u32
    decreases count,
{
    if count <= 0 {
        0
    } else if lines[count - 1].is_some() {
        (count - 1) as u32
    } else {
        last_line_number(lines, count - 1)
    }
}

/// The step parser's entry, where a step has been closed.
pub open spec fn step_entries(m: LogView) -> Seq<(Seq<char>, ArtifactView)> {
    if m.steps.artifact.steps.len() > 0 {
        seq![("step_data"@, ArtifactView::StepData(m.steps.artifact))]
    } else {
        Seq::empty()
    }
}

/// The job-detail parser's entry, where an annotation has been found.
pub open spec fn detail_entries(m: LogView) -> Seq<(Seq<char>, ArtifactView)> {
    if m.details.len() > 0 {
        seq![("job_details"@, ArtifactView::JobDetails(m.details))]
    } else {
        Seq::empty()
    }
}

/// The performance parser's entry, where a payload has been found.
pub open spec fn payload_entries(m: LogView) -> Seq<(Seq<char>, ArtifactView)> {
    if m.payloads.len() > 0 {
        seq![("performance_data"@, ArtifactView::PerformanceData(m.payloads))]
    } else {
        Seq::empty()
    }
}

/// The talos parser's entry, where it holds a value.
pub open spec fn talos_entries(m: LogView) -> Seq<(Seq<char>, ArtifactView)> {
    match m.talos.artifact {
        Some(value) => seq![("talos_data"@, ArtifactView::TalosData(value))],
        None => Seq::empty(),
    }
}

/// The artifacts that are collected at the end of a log whose last line
/// has the number `last`: a step that is still open is closed first, and
/// each parser that has an artifact contributes it under its name, in the
/// order step data, job details, performance data, talos data.
pub open spec fn artifacts_of(m: LogView, last: u32) -> Seq<(Seq<char>, ArtifactView)> {
    let finished = LogView {
        steps: after_finish(m.steps, last),
        details: m.details,
        payloads: m.payloads,
        talos: m.talos,
    };
    step_entries(finished) + detail_entries(finished) + payload_entries(finished) + talos_entries(
        finished,
    )
}

/// What the parse of a whole log yields from the parsers `m`: the
/// artifacts that are collected after the last line, or the failure at the
/// first line that a parser could not read.
pub open spec fn outcome_of(m: LogView, lines: Seq<Option<Seq<char>>>) -> Result<
    Seq<(Seq<char>, ArtifactView)>,
    LogParserError,
> {
    match log_after(m, lines, lines.len() as int) {
        Ok(after) => Ok(artifacts_of(after, last_line_number(lines, lines.len() as int))),
        Err(e) => Err(e),
    }
}

/// Why the patterns of the four parsers do not compile: the failure of
/// the first that does not, in the order step parser, job-detail parser,
/// performance parser, talos parser; nothing where all compile.
pub open spec fn tables_error() -> Option<regex::Error> {
    first_error(
        step_tables_error(),
        first_error(
            detail_patterns_error(),
            first_error(pattern_error(RE_PERFORMANCE@), pattern_error(RE_TALOS@)),
        ),
    )
}

/// The four parsers of a log.
pub struct Dispatcher {
    steps: StepParser,
    details: TinderboxParser,
    payloads: PerformanceParser,
    talos: TalosParser,
}

impl View for Dispatcher {
    type V = LogView;

    closed spec fn view(&self) -> LogView {
        LogView {
            steps: self.steps@,
            details: self.details@,
            payloads: self.payloads@,
            talos: self.talos@,
        }
    }
}

impl Dispatcher {
    /// Every parser is well formed.
    pub closed spec fn wf(&self) -> bool {
        self.steps.wf() && self.details.wf() && self.payloads.wf() && self.talos.wf()
    }

    /// Four parsers that have seen no line; fails where a pattern is no
    /// regular expression.
    pub fn new() -> (r: Result<Dispatcher, LogParserError>)
        ensures
            match r {
                Ok(d) => tables_error().is_none() && d.wf() && d@ == initial_log(),
                Err(e) => tables_error() matches Some(failure) && e == LogParserError::Pattern(
                    failure,
                ),
            },
    {
        let steps = match StepParser::new() {
            Ok(p) => p,
            Err(e) => { return Err(e); },
        };
        let details = match TinderboxParser::new() {
            Ok(p) => p,
            Err(e) => { return Err(e); },
        };
        let payloads = match PerformanceParser::new() {
            Ok(p) => p,
            Err(e) => { return Err(e); },
        };
        let talos = match TalosParser::new() {
            Ok(p) => p,
            Err(e) => { return Err(e); },
        };
        Ok(Dispatcher { steps, details, payloads, talos })
    }

    /// Hands one line to every parser that is not complete. It fails where
    /// a parser cannot take the line, and only there.
    pub fn parse_line(&mut self, line: &str, line_number: u32) -> (r: Result<(), LogParserError>)
        requires
            old(self).wf(),
        ensures
            match log_after_line(old(self)@, line@, line_number) {
                Ok(m) => r is Ok && final(self)@ == m,
                Err(e) => r == Err::<(), LogParserError>(e),
            },
            final(self).wf(),
    {
        match parse_line(&mut self.steps, line, line_number) {
            Ok(()) => {},
            Err(e) => { return Err(e); },
        }
        match parse_line(&mut self.details, line, line_number) {
            Ok(()) => {},
            Err(e) => { return Err(e); },
        }
        match parse_line(&mut self.payloads, line, line_number) {
            Ok(()) => {},
            Err(e) => { return Err(e); },
        }
        parse_line(&mut self.talos, line, line_number)
    }

    /// Closes what is open at the end of the log and collects the
    /// artifacts of the parsers that have one.
    pub fn finish(&mut self, last: u32) -> (r: Vec<(&'static str, Artifact)>)
        requires
            old(self).wf(),
        ensures
            named_views(r@) == artifacts_of(old(self)@, last),
            final(self).wf(),
    {
        let ghost finished = LogView {
            steps: after_finish(self@.steps, last),
            details: self@.details,
            payloads: self@.payloads,
            talos: self@.talos,
        };
        let mut found: Vec<(&'static str, Artifact)> = Vec::new();
        match finish_parse(&mut self.steps, last) {
            Some((name, data)) => {
                found.push((name, Artifact::StepData(data)));
            },
            None => {},
        }
        assert(named_views(found@) =~= step_entries(finished));
        let ghost first = named_views(found@);
        match finish_parse(&mut self.details, last) {
            Some((name, details)) => {
                found.push((name, Artifact::JobDetails(details)));
            },
            None => {},
        }
        assert(named_views(found@) =~= first + detail_entries(finished));
        let ghost second = named_views(found@);
        match finish_parse(&mut self.payloads, last) {
            Some((name, payloads)) => {
                found.push((name, Artifact::PerformanceData(payloads)));
            },
            None => {},
        }
        assert(named_views(found@) =~= second + payload_entries(finished));
        let ghost third = named_views(found@);
        match finish_parse(&mut self.talos, last) {
            Some((name, Some(value))) => {
                found.push((name, Artifact::TalosData(value)));
            },
            _ => {},
        }
        assert(named_views(found@) =~= third + talos_entries(finished));
        found
    }

    /// Parses a whole log: every line in order, then the end of the log.
    /// It fails where a parser cannot take a line, and only there.
    pub fn run(&mut self, lines: &Vec<Option<String>>) -> (r: Result<
        Vec<(&'static str, Artifact)>,
        LogParserError,
    >)
        requires
            old(self).wf(),
            lines@.len() <= u32::MAX,
        ensures
            match outcome_of(old(self)@, line_views(lines@)) {
                Ok(entries) => r matches Ok(found) && named_views(found@) == entries,
                Err(e) => r matches Err(failure) && failure == e,
            },
            final(self).wf(),
    {
        let mut last: u32 = 0;
        let mut i: usize = 0;
        while i < lines.len()
            invariant
                i <= lines@.len() <= u32::MAX,
                self.wf(),
                log_after(old(self)@, line_views(lines@), i as int) == Ok::<LogView, LogParserError>(
                    self@,
                ),
                last == last_line_number(line_views(lines@), i as int),
            decreases lines@.len() - i,
        {
            let line_number = i as u32;
            assert(line_views(lines@)[i as int] == optional_text(lines@[i as int]));
            match &lines[i] {
                Some(line) => {
                    match self.parse_line(line.as_str(), line_number) {
                        Ok(()) => {},
                        Err(e) => {
                            proof {
                                lemma_failure_stays(
                                    old(self)@,
                                    line_views(lines@),
                                    i + 1,
                                    lines@.len() as int,
                                );
                            }
                            return Err(e);
                        },
                    }
                    last = line_number;
                },
                None => {},
            }
            i = i + 1;
        }
        Ok(self.finish(last))
    }
}

/// Once a line has failed, the log has failed, with that line's failure.
pub proof fn lemma_failure_stays(m: LogView, lines: Seq<Option<Seq<char>>>, at: int, count: int)
    requires
        0 <= at <= count,
        log_after(m, lines, at) is Err,
    ensures
        log_after(m, lines, count) == log_after(m, lines, at),
    decreases count,
{
    if at < count {
        lemma_failure_stays(m, lines, at, count - 1);
    }
}

/// The step parser is well formed after every line of every log, and has
/// opened no more steps and collected no more error lines than it has seen
/// lines.
pub proof fn lemma_steps_well_formed(lines: Seq<Option<Seq<char>>>, count: int)
    requires
        0 <= count <= lines.len() <= u32::MAX,
        log_after(initial_log(), lines, count) is Ok,
    ensures
        well_formed(log_after(initial_log(), lines, count)->Ok_0.steps),
        log_after(initial_log(), lines, count)->Ok_0.steps.step_number <= count,
        open_errors(log_after(initial_log(), lines, count)->Ok_0.steps) <= count,
    decreases count,
{
    if count > 0 {
        lemma_steps_well_formed(lines, count - 1);
        let before = log_after(initial_log(), lines, count - 1)->Ok_0;
        if let Some(line) = lines[count - 1] {
            lemma_after_event_well_formed(
                before.steps,
                event_of(line, before.steps.state is AwaitingFirstStep),
                line,
                (count - 1) as u32,
            );
        }
    } else {
        assert(flat_errors(initial_parser().artifact.steps) =~= initial_parser().artifact.all_errors);
    }
}

/// In a log with no more lines than can be numbered the step parser always
/// has room: no line fails for want of it.
pub proof fn lemma_room_never_ends(lines: Seq<Option<Seq<char>>>, count: int)
    requires
        0 <= count <= lines.len() <= u32::MAX,
    ensures
        log_after(initial_log(), lines, count) != Err::<LogView, LogParserError>(
            LogParserError::StepLimit,
        ),
    decreases count,
{
    if count > 0 {
        lemma_room_never_ends(lines, count - 1);
        if log_after(initial_log(), lines, count - 1) is Ok {
            lemma_steps_well_formed(lines, count - 1);
        }
    }
}

/// The step artifact of every log that is parsed to its end is
/// consistent: orders are positions, no step keeps more than a hundred
/// error lines, the truncation flag tells whether some step counted more,
/// and the flat error list is the steps' kept error lines in step order.
pub proof fn lemma_step_artifact_consistent(lines: Seq<Option<Seq<char>>>)
    requires
        lines.len() <= u32::MAX,
        log_after(initial_log(), lines, lines.len() as int) is Ok,
    ensures
        consistent(
            after_finish(
                log_after(initial_log(), lines, lines.len() as int)->Ok_0.steps,
                last_line_number(lines, lines.len() as int),
            ).artifact,
        ),
{
    lemma_steps_well_formed(lines, lines.len() as int);
    lemma_after_finish_well_formed(
        log_after(initial_log(), lines, lines.len() as int)->Ok_0.steps,
        last_line_number(lines, lines.len() as int),
    );
}

/// Parses a log that is given as its lines in order; a line that could
/// not be read as text is absent, and is skipped. The number of a line is
/// its position. The artifacts of the parsers that have one are handed out,
/// each under its parser's name. The parse fails where a pattern of the
/// tables does not compile, else where the log has more lines than can be
/// numbered, else where a parser cannot read a line's payload; it succeeds
/// on every other log.
pub fn parse_log(lines: &Vec<Option<String>>) -> (r: Result<
    Vec<(&'static str, Artifact)>,
    LogParserError,
>)
    ensures
        match tables_error() {
            Some(failure) => r matches Err(e) && e == LogParserError::Pattern(failure),
            None => if lines@.len() > u32::MAX {
                r matches Err(LogParserError::Other(text)) && text@ == TOO_MANY_LINES@
            } else {
                match outcome_of(initial_log(), line_views(lines@)) {
                    Ok(entries) => r matches Ok(found) && named_views(found@) == entries,
                    Err(failure) => r matches Err(e) && e == failure,
                }
            },
        },
{
    let mut dispatcher = match Dispatcher::new() {
        Ok(d) => d,
        Err(e) => { return Err(e); },
    };
    if lines.len() > u32::MAX as usize {
        return Err(LogParserError::Other(TOO_MANY_LINES.to_owned()));
    }
    dispatcher.run(lines)
}

} // verus!
