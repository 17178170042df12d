//! The step parser: a timeline of build steps with their error lines.

use vstd::prelude::*;
use regex::Regex;
use regex::RegexSet;
use crate::logparser::{LogParser, LogParserError};
use crate::patterns::{
    any_matches, captures, compile, compile_set, first_error, groups_of, is_match,
    pattern_captures, pattern_error, pattern_matches, pattern_remainder, pattern_set_error,
    regex_set_sources, regex_source, remainder, set_is_match, set_matches, sources_of,
};
use crate::tables::{
    error_term_patterns, error_term_sources, exclude_patterns, exclude_sources, marker_group_names,
    marker_groups, verdict_patterns, verdict_sources, RE_ALWAYS_EXCLUDE, RE_ALWAYS_INCLUDE,
    RE_HEADER_LINE, RE_MOZHARNESS_PREFIX, RE_STEP_MARKER,
};
use crate::text::{optional_text, same_text, trim_start, trimmed_start};
use crate::timestamps::{duration_between, duration_of, instant_of};

verus! {

/// The most error lines that a closed step keeps.
pub const PARSER_MAX_STEP_ERROR_LINES: usize = 100;

/// The name of a step whose boundary marker gives none.
pub const UNNAMED_STEP: &'static str = "Unnamed step";

/// How a step ended.
#[derive(Debug, Clone, Copy, PartialEq, Eq, Structural)]
pub enum StepResult {
    Unknown,
    Success,
    TestFailed,
    Busted,
    Skipped,
    Exception,
    Retry,
    UserCancel,
}

impl StepResult {
    /// The result that a marker's numeric result code stands for; a code
    /// that is not known stands for `Unknown`.
    pub open spec fn of_code(code: Seq<char>) -> StepResult {
        if code == "0"@ {
            StepResult::Success
        } else if code == "1"@ {
            StepResult::TestFailed
        } else if code == "2"@ {
            StepResult::Busted
        } else if code == "3"@ {
            StepResult::Skipped
        } else if code == "4"@ {
            StepResult::Exception
        } else if code == "5"@ {
            StepResult::Retry
        } else if code == "6"@ {
            StepResult::UserCancel
        } else {
            StepResult::Unknown
        }
    }

    /// Reads a marker's numeric result code.
    pub fn from_str(data: &str) -> (r: StepResult)
        ensures
            r == Self::of_code(data@),
    {
        if same_text(data, "0") {
            StepResult::Success
        } else if same_text(data, "1") {
            StepResult::TestFailed
        } else if same_text(data, "2") {
            StepResult::Busted
        } else if same_text(data, "3") {
            StepResult::Skipped
        } else if same_text(data, "4") {
            StepResult::Exception
        } else if same_text(data, "5") {
            StepResult::Retry
        } else if same_text(data, "6") {
            StepResult::UserCancel
        } else {
            StepResult::Unknown
        }
    }

    /// The word under which each result is reported.
    pub open spec fn word(&self) -> Seq<char> {
        match self {
            StepResult::Unknown => "unknown"@,
            StepResult::Success => "success"@,
            StepResult::TestFailed => "testfailed"@,
            StepResult::Busted => "busted"@,
            StepResult::Skipped => "skipped"@,
            StepResult::Exception => "exception"@,
            StepResult::Retry => "retry"@,
            StepResult::UserCancel => "usercancel"@,
        }
    }

    /// The word under which this result is reported.
    pub fn label(&self) -> (r: &'static str)
        ensures
            r@ == self.word(),
    {
        match self {
            StepResult::Unknown => "unknown",
            StepResult::Success => "success",
            StepResult::TestFailed => "testfailed",
            StepResult::Busted => "busted",
            StepResult::Skipped => "skipped",
            StepResult::Exception => "exception",
            StepResult::Retry => "retry",
            StepResult::UserCancel => "usercancel",
        }
    }
}

/// A log line that was judged an error, with its number in the log.
#[derive(Debug, Clone)]
pub struct ErrorLine {
    pub linenumber: u32,
    pub line: String,
}

/// An error line as a mathematical value.
pub struct ErrorLineView {
    pub linenumber: u32,
    pub line: Seq<char>,
}

impl View for ErrorLine {
    type V = ErrorLineView;

    open spec fn view(&self) -> ErrorLineView {
        ErrorLineView { linenumber: self.linenumber, line: self.line@ }
    }
}

impl ErrorLine {
    pub fn new(line_number: u32, line: &str) -> (r: ErrorLine)
        ensures
            r@ == (ErrorLineView { linenumber: line_number, line: line@ }),
    {
        ErrorLine { linenumber: line_number, line: line.to_owned() }
    }

    /// A copy of this error line.
    pub fn duplicate(&self) -> (r: ErrorLine)
        ensures
            r@ == self@,
    {
        ErrorLine { linenumber: self.linenumber, line: self.line.clone() }
    }
}

/// The error lines of a sequence as mathematical values.
pub open spec fn error_views(errors: Seq<ErrorLine>) -> Seq<ErrorLineView> {
    errors.map_values(|e: ErrorLine| e@)
}

/// One build phase.
#[derive(Debug)]
pub struct Step {
    pub errors: Vec<ErrorLine>,
    pub name: String,
    pub started: Option<String>,
    pub started_linenumber: u32,
    pub finished_linenumber: u32,
    pub finished: Option<String>,
    pub result: StepResult,
    pub error_count: u32,
    pub duration: Option<i64>,
    pub order: u32,
}

/// A step as a mathematical value.
pub struct StepView {
    pub errors: Seq<ErrorLineView>,
    pub name: Seq<char>,
    pub started: Option<Seq<char>>,
    pub started_linenumber: u32,
    pub finished_linenumber: u32,
    pub finished: Option<Seq<char>>,
    pub result: StepResult,
    pub error_count: u32,
    pub duration: Option<i64>,
    pub order: u32,
}

impl View for Step {
    type V = StepView;

    open spec fn view(&self) -> StepView {
        StepView {
            errors: error_views(self.errors@),
            name: self.name@,
            started: optional_text(self.started),
            started_linenumber: self.started_linenumber,
            finished_linenumber: self.finished_linenumber,
            finished: optional_text(self.finished),
            result: self.result,
            error_count: self.error_count,
            duration: self.duration,
            order: self.order,
        }
    }
}

/// A step that has just been opened.
pub open spec fn opened_step(
    name: Seq<char>,
    started: Option<Seq<char>>,
    started_linenumber: u32,
    order: u32,
) -> StepView {
    StepView {
        errors: Seq::empty(),
        name,
        started,
        started_linenumber,
        finished_linenumber: 0,
        finished: None,
        result: StepResult::Unknown,
        error_count: 0,
        duration: None,
        order,
    }
}

/// The error lines that a closed step keeps of those it collected: the
/// first hundred.
pub open spec fn kept_errors(errors: Seq<ErrorLineView>) -> Seq<ErrorLineView> {
    if errors.len() > PARSER_MAX_STEP_ERROR_LINES {
        errors.take(PARSER_MAX_STEP_ERROR_LINES as int)
    } else {
        errors
    }
}

/// An open step once it is closed at `line_number`: its error count is
/// the number of error lines it collected, of which it keeps the first
/// hundred; its result is that of the result code, where one is given; its
/// duration is that between its two timestamps.
pub open spec fn closed_step(
    step: StepView,
    line_number: u32,
    timestamp: Option<Seq<char>>,
    result_code: Option<Seq<char>>,
) -> StepView {
    StepView {
        errors: kept_errors(step.errors),
        name: step.name,
        started: step.started,
        started_linenumber: step.started_linenumber,
        finished_linenumber: line_number,
        finished: timestamp,
        result: match result_code {
            Some(code) => StepResult::of_code(code),
            None => step.result,
        },
        error_count: step.errors.len() as u32,
        duration: duration_between(instant_of(step.started), instant_of(timestamp)),
        order: step.order,
    }
}

impl Step {
    pub fn new(name: &str, started: Option<String>, started_linenumber: u32, order: u32) -> (r: Step)
        ensures
            r@ == opened_step(name@, optional_text(started), started_linenumber, order),
    {
        let r = Step {
            errors: Vec::new(),
            name: name.to_owned(),
            started,
            started_linenumber,
            finished_linenumber: 0,
            finished: None,
            result: StepResult::Unknown,
            error_count: 0,
            duration: None,
            order,
        };
        assert(error_views(r.errors@) =~= Seq::empty());
        r
    }

    /// The seconds from this step's start to its finish, where both
    /// timestamps are present and well formed.
    pub fn calculate_duration(&self) -> (r: Option<i64>)
        ensures
            r == duration_between(instant_of(self@.started), instant_of(self@.finished)),
    {
        duration_of(&self.started, &self.finished)
    }
}

/// The steps of a sequence as mathematical values.
pub open spec fn step_views(steps: Seq<Step>) -> Seq<StepView> {
    steps.map_values(|s: Step| s@)
}

/// The step parser's artifact.
#[derive(Debug)]
pub struct StepData {
    pub steps: Vec<Step>,
    pub all_errors: Vec<ErrorLine>,
    pub errors_truncated: bool,
}

/// The step parser's artifact as a mathematical value.
pub struct StepDataView {
    pub steps: Seq<StepView>,
    pub all_errors: Seq<ErrorLineView>,
    pub errors_truncated: bool,
}

impl View for StepData {
    type V = StepDataView;

    open spec fn view(&self) -> StepDataView {
        StepDataView {
            steps: step_views(self.steps@),
            all_errors: error_views(self.all_errors@),
            errors_truncated: self.errors_truncated,
        }
    }
}

/// The artifact of a parse that has closed no step.
pub open spec fn empty_step_data() -> StepDataView {
    StepDataView { steps: Seq::empty(), all_errors: Seq::empty(), errors_truncated: false }
}

/// The kept error lines of all steps, in step order.
pub open spec fn flat_errors(steps: Seq<StepView>) -> Seq<ErrorLineView>
    decreases steps.len(),
{
    if steps.len() == 0 {
        Seq::empty()
    } else {
        flat_errors(steps.drop_last()) + steps.last().errors
    }
}

impl StepData {
    pub fn new() -> (r: StepData)
        ensures
            r@ == empty_step_data(),
    {
        let r = StepData { steps: Vec::new(), all_errors: Vec::new(), errors_truncated: false };
        assert(step_views(r.steps@) =~= Seq::empty());
        assert(error_views(r.all_errors@) =~= Seq::empty());
        r
    }
}

/// The step artifact as it is reported: under the key `step_data`.
#[derive(Debug)]
pub struct StepDataArtifact {
    pub step_data: StepData,
}

impl StepDataArtifact {
    pub fn new(step_data: StepData) -> (r: StepDataArtifact)
        ensures
            r.step_data == step_data,
    {
        StepDataArtifact { step_data }
    }
}

/// An artifact is consistent when each step's order is its position, each
/// step keeps the first hundred at most of the error lines it counted, the
/// truncation flag tells whether some step counted more, and the flat
/// error list is the steps' kept error lines in step order.
pub open spec fn consistent(data: StepDataView) -> bool {
    &&& forall|i: int| 0 <= i < data.steps.len() ==> (#[trigger] data.steps[i]).order == i
    &&& forall|i: int|
        0 <= i < data.steps.len() ==> (#[trigger] data.steps[i]).errors.len() == (if data.steps[i].error_count
            > PARSER_MAX_STEP_ERROR_LINES {
            PARSER_MAX_STEP_ERROR_LINES as int
        } else {
            data.steps[i].error_count as int
        })
    &&& data.errors_truncated <==> exists|i: int|
        0 <= i < data.steps.len() && (#[trigger] data.steps[i]).error_count > PARSER_MAX_STEP_ERROR_LINES
    &&& data.all_errors == flat_errors(data.steps)
}

/// Where the parser stands between step boundaries.
#[derive(Debug)]
pub enum StepState {
    AwaitingFirstStep,
    StepInProgress(Step),
    StepFinished,
}

/// The parser's position as a mathematical value.
pub enum StepStateView {
    AwaitingFirstStep,
    StepInProgress(StepView),
    StepFinished,
}

impl View for StepState {
    type V = StepStateView;

    open spec fn view(&self) -> StepStateView {
        match self {
            StepState::AwaitingFirstStep => StepStateView::AwaitingFirstStep,
            StepState::StepInProgress(step) => StepStateView::StepInProgress(step@),
            StepState::StepFinished => StepStateView::StepFinished,
        }
    }
}

impl StepState {
    /// The open step of a parser that has one.
    pub fn unwrap(self) -> (r: Step)
        requires
            self is StepInProgress,
        ensures
            self == StepState::StepInProgress(r),
    {
        match self {
            StepState::StepInProgress(x) => x,
            _ => vstd::pervasive::unreached(),
        }
    }
}

/// The step parser as a mathematical value.
pub struct StepParserView {
    pub artifact: StepDataView,
    pub state: StepStateView,
    pub step_number: u32,
}

/// The parser before it has seen a line.
pub open spec fn initial_parser() -> StepParserView {
    StepParserView {
        artifact: empty_step_data(),
        state: StepStateView::AwaitingFirstStep,
        step_number: 0,
    }
}

/// The parser once it has opened a step at `line_number`.
pub open spec fn after_start(
    p: StepParserView,
    line_number: u32,
    name: Option<Seq<char>>,
    timestamp: Option<Seq<char>>,
) -> StepParserView {
    StepParserView {
        artifact: p.artifact,
        state: StepStateView::StepInProgress(
            opened_step(
                match name {
                    Some(n) => n,
                    None => UNNAMED_STEP@,
                },
                timestamp,
                line_number,
                p.step_number,
            ),
        ),
        step_number: (p.step_number + 1) as u32,
    }
}

/// The parser once it has closed its open step at `line_number`: the
/// closed step is appended to the steps and its kept error lines to the flat
/// error list, and the truncation flag is set where the step collected more
/// than a hundred error lines.
pub open spec fn after_end(
    p: StepParserView,
    line_number: u32,
    timestamp: Option<Seq<char>>,
    result_code: Option<Seq<char>>,
) -> StepParserView
    recommends
        p.state is StepInProgress,
{
    let open = p.state->StepInProgress_0;
    let closed = closed_step(open, line_number, timestamp, result_code);
    StepParserView {
        artifact: StepDataView {
            steps: p.artifact.steps.push(closed),
            all_errors: p.artifact.all_errors + closed.errors,
            errors_truncated: p.artifact.errors_truncated || open.errors.len()
                > PARSER_MAX_STEP_ERROR_LINES,
        },
        state: StepStateView::StepFinished,
        step_number: p.step_number,
    }
}

/// The parser once an error line is recorded: it goes to the open step;
/// where no step is open, one without name and timestamp is opened first.
pub open spec fn after_error(p: StepParserView, line: Seq<char>, line_number: u32) -> StepParserView {
    let q = if p.state is StepInProgress {
        p
    } else {
        after_start(p, line_number, None, None)
    };
    let open = q.state->StepInProgress_0;
    StepParserView {
        artifact: q.artifact,
        state: StepStateView::StepInProgress(
            StepView {
                errors: open.errors.push(ErrorLineView { linenumber: line_number, line }),
                ..open
            },
        ),
        step_number: q.step_number,
    }
}

/// The parser at the end of the log: a step that is still open is closed
/// at the last line, without timestamp and result code.
pub open spec fn after_finish(p: StepParserView, last_line_number: u32) -> StepParserView {
    if p.state is StepInProgress {
        after_end(p, last_line_number, None, None)
    } else {
        p
    }
}

/// The artifact that is handed out when it is taken.
pub open spec fn taken_artifact(p: StepParserView) -> StepDataView {
    p.artifact
}

/// The parser once its artifact is taken: as before it saw a line.
pub open spec fn after_take(p: StepParserView) -> StepParserView {
    initial_parser()
}

/// What a line is to the step parser.
#[derive(Debug)]
pub enum LineEvent {
    /// Nothing but whitespace.
    Blank,
    /// A field of the log's preamble, before the first step.
    Header,
    /// The marker that starts a step.
    Started { name: Option<String>, timestamp: Option<String> },
    /// The marker that finishes a step.
    Finished { timestamp: Option<String>, result_code: Option<String> },
    /// A line that is judged an error.
    Error,
    /// Any other line.
    Plain,
}

/// A line event as a mathematical value.
pub enum LineEventView {
    Blank,
    Header,
    Started { name: Option<Seq<char>>, timestamp: Option<Seq<char>> },
    Finished { timestamp: Option<Seq<char>>, result_code: Option<Seq<char>> },
    Error,
    Plain,
}

impl View for LineEvent {
    type V = LineEventView;

    open spec fn view(&self) -> LineEventView {
        match self {
            LineEvent::Blank => LineEventView::Blank,
            LineEvent::Header => LineEventView::Header,
            LineEvent::Started { name, timestamp } => LineEventView::Started {
                name: optional_text(*name),
                timestamp: optional_text(*timestamp),
            },
            LineEvent::Finished { timestamp, result_code } => LineEventView::Finished {
                timestamp: optional_text(*timestamp),
                result_code: optional_text(*result_code),
            },
            LineEvent::Error => LineEventView::Error,
            LineEvent::Plain => LineEventView::Plain,
        }
    }
}

/// The parser after a line that is `event`. A start marker closes a step
/// that is still open, without timestamp and result code, and opens the new
/// one; a finish marker closes the open step and is ignored where none is
/// open; an error line is recorded; every other line changes nothing.
pub open spec fn after_event(
    p: StepParserView,
    event: LineEventView,
    line: Seq<char>,
    line_number: u32,
) -> StepParserView {
    match event {
        LineEventView::Started { name, timestamp } => after_start(
            after_finish(p, line_number),
            line_number,
            name,
            timestamp,
        ),
        LineEventView::Finished { timestamp, result_code } => if p.state is StepInProgress {
            after_end(p, line_number, timestamp, result_code)
        } else {
            p
        },
        LineEventView::Error => after_error(p, line, line_number),
        _ => p,
    }
}

/// The number of error lines that the open step has collected.
pub open spec fn open_errors(p: StepParserView) -> nat {
    match p.state {
        StepStateView::StepInProgress(step) => step.errors.len(),
        _ => 0,
    }
}

/// A parser is well formed when its artifact is consistent, its step
/// number counts the steps it has opened, and its open step, if any, has the
/// next order, no more error lines than can be counted, and neither result
/// nor finish time nor duration yet.
pub open spec fn well_formed(p: StepParserView) -> bool {
    &&& consistent(p.artifact)
    &&& p.step_number == p.artifact.steps.len() + (if p.state is StepInProgress {
        1int
    } else {
        0int
    })
    &&& p.state matches StepStateView::StepInProgress(step) ==> {
        &&& step.order == p.artifact.steps.len()
        &&& step.errors.len() <= u32::MAX
        &&& step.result == StepResult::Unknown
        &&& step.finished.is_none()
        &&& step.duration.is_none()
    }
}

/// A parser has room when one more step and one more error line can
/// still be counted.
pub open spec fn has_room(p: StepParserView) -> bool {
    p.step_number < u32::MAX && open_errors(p) < u32::MAX
}

/// The parser after one more line: a parser with room takes the step
/// that the line asks for; one without room fails.
pub open spec fn steps_after_line(p: StepParserView, line: Seq<char>, line_number: u32) -> Result<
    StepParserView,
    LogParserError,
> {
    if has_room(p) {
        Ok(after_event(p, event_of(line, p.state is AwaitingFirstStep), line, line_number))
    } else {
        Err(LogParserError::StepLimit)
    }
}

/// Appending a step appends its kept error lines to the flat list.
pub proof fn lemma_flat_errors_push(steps: Seq<StepView>, step: StepView)
    ensures
        flat_errors(steps.push(step)) == flat_errors(steps) + step.errors,
{
    assert(steps.push(step).drop_last() =~= steps);
}

/// Closing the open step keeps a parser well formed, and the closed step
/// counts every error line it collected while it keeps a hundred at most.
/// Closed without a result code its result is unknown, and closed without
/// a timestamp it has no duration.
pub proof fn lemma_after_end_well_formed(
    p: StepParserView,
    line_number: u32,
    timestamp: Option<Seq<char>>,
    result_code: Option<Seq<char>>,
)
    requires
        well_formed(p),
        p.state is StepInProgress,
    ensures
        well_formed(after_end(p, line_number, timestamp, result_code)),
        after_end(p, line_number, timestamp, result_code).artifact.steps.last().error_count
            == open_errors(p),
        after_end(p, line_number, timestamp, result_code).artifact.steps.last().errors.len()
            <= PARSER_MAX_STEP_ERROR_LINES,
        result_code.is_none() ==> after_end(
            p,
            line_number,
            timestamp,
            result_code,
        ).artifact.steps.last().result == StepResult::Unknown,
        timestamp.is_none() ==> after_end(
            p,
            line_number,
            timestamp,
            result_code,
        ).artifact.steps.last().duration.is_none(),
{
    let q = after_end(p, line_number, timestamp, result_code);
    let open = p.state->StepInProgress_0;
    let closed = closed_step(open, line_number, timestamp, result_code);
    lemma_flat_errors_push(p.artifact.steps, closed);
    let n = p.artifact.steps.len() as int;
    assert(q.artifact.steps[n] == closed);
    assert forall|i: int| 0 <= i < n implies q.artifact.steps[i] == p.artifact.steps[i] by {}
    if q.artifact.errors_truncated {
        if p.artifact.errors_truncated {
            let i = choose|i: int|
                0 <= i < p.artifact.steps.len() && (#[trigger] p.artifact.steps[i]).error_count
                    > PARSER_MAX_STEP_ERROR_LINES;
            assert(q.artifact.steps[i].error_count > PARSER_MAX_STEP_ERROR_LINES);
        } else {
            assert(q.artifact.steps[n].error_count > PARSER_MAX_STEP_ERROR_LINES);
        }
    }
    if exists|i: int|
        0 <= i < q.artifact.steps.len() && (#[trigger] q.artifact.steps[i]).error_count
            > PARSER_MAX_STEP_ERROR_LINES {
        let i = choose|i: int|
            0 <= i < q.artifact.steps.len() && (#[trigger] q.artifact.steps[i]).error_count
                > PARSER_MAX_STEP_ERROR_LINES;
        if i < n {
            assert(p.artifact.steps[i].error_count > PARSER_MAX_STEP_ERROR_LINES);
        }
    }
}

/// In a consistent artifact the orders of the steps are their positions
/// and so strictly increasing; no step keeps more than a hundred error
/// lines, and each keeps all it counted where it counted no more; the
/// truncation flag is set exactly where some step counted more than a
/// hundred; and the flat error list is the steps' kept error lines in step
/// order.
pub proof fn lemma_consistent_artifact(data: StepDataView)
    requires
        consistent(data),
    ensures
        forall|i: int| 0 <= i < data.steps.len() ==> (#[trigger] data.steps[i]).order == i,
        forall|i: int, j: int|
            0 <= i < j < data.steps.len() ==> (#[trigger] data.steps[i]).order < (
            #[trigger] data.steps[j]).order,
        forall|i: int|
            0 <= i < data.steps.len() ==> (#[trigger] data.steps[i]).errors.len()
                <= PARSER_MAX_STEP_ERROR_LINES,
        forall|i: int|
            0 <= i < data.steps.len() && (#[trigger] data.steps[i]).error_count
                <= PARSER_MAX_STEP_ERROR_LINES ==> data.steps[i].errors.len()
                == data.steps[i].error_count,
        data.errors_truncated <==> exists|i: int|
            0 <= i < data.steps.len() && (#[trigger] data.steps[i]).error_count
                > PARSER_MAX_STEP_ERROR_LINES,
        data.all_errors == flat_errors(data.steps),
{
}

/// Taking the artifact twice: the second artifact is empty, and the first
/// is not where a step had been closed.
pub proof fn lemma_artifact_taken_twice(p: StepParserView)
    ensures
        p.artifact.steps.len() > 0 ==> taken_artifact(p).steps.len() > 0,
        taken_artifact(after_take(p)) == empty_step_data(),
        after_take(after_take(p)) == after_take(p),
{
}

/// Every line keeps a parser with room well formed, opens one step at
/// most and adds one error line at most to the open step.
pub proof fn lemma_after_event_well_formed(
    p: StepParserView,
    event: LineEventView,
    line: Seq<char>,
    line_number: u32,
)
    requires
        well_formed(p),
        has_room(p),
    ensures
        well_formed(after_event(p, event, line, line_number)),
        after_event(p, event, line, line_number).step_number <= p.step_number + 1,
        open_errors(after_event(p, event, line, line_number)) <= open_errors(p) + 1,
{
    match event {
        LineEventView::Started { name, timestamp } => {
            if p.state is StepInProgress {
                lemma_after_end_well_formed(p, line_number, None, None);
            }
        },
        LineEventView::Finished { timestamp, result_code } => {
            if p.state is StepInProgress {
                lemma_after_end_well_formed(p, line_number, timestamp, result_code);
            }
        },
        _ => {},
    }
}

/// No line changes a step that is closed: the steps and the flat error
/// lines before a line are the first of those after it, and the truncation
/// flag, once set, stays set.
pub proof fn lemma_closed_steps_stay(
    p: StepParserView,
    event: LineEventView,
    line: Seq<char>,
    line_number: u32,
)
    ensures
        p.artifact.steps.is_prefix_of(after_event(p, event, line, line_number).artifact.steps),
        p.artifact.all_errors.is_prefix_of(
            after_event(p, event, line, line_number).artifact.all_errors,
        ),
        p.artifact.errors_truncated ==> after_event(
            p,
            event,
            line,
            line_number,
        ).artifact.errors_truncated,
{
    let q = after_event(p, event, line, line_number);
    assert(p.artifact.steps =~= q.artifact.steps.subrange(0, p.artifact.steps.len() as int));
    assert(p.artifact.all_errors =~= q.artifact.all_errors.subrange(
        0,
        p.artifact.all_errors.len() as int,
    ));
}

/// Closing a step that is still open at the end of the log keeps a parser
/// well formed.
pub proof fn lemma_after_finish_well_formed(p: StepParserView, last_line_number: u32)
    requires
        well_formed(p),
    ensures
        well_formed(after_finish(p, last_line_number)),
{
    if p.state is StepInProgress {
        lemma_after_end_well_formed(p, last_line_number, None, None);
    }
}

/// The verdict on a line from what the four stages of the classifier
/// find: a line that is always excluded is no error, whatever else holds of
/// it; else one that is always included is an error; else it is an error
/// when its message matches an error term and no benign message.
pub open spec fn verdict_of(
    always_exclude: bool,
    always_include: bool,
    excluded: bool,
    included: bool,
) -> bool {
    !always_exclude && (always_include || (!excluded && included))
}

/// The verdict on a line from what the four stages of the classifier find.
pub fn verdict(always_exclude: bool, always_include: bool, excluded: bool, included: bool) -> (r:
    bool)
    ensures
        r == verdict_of(always_exclude, always_include, excluded, included),
        always_exclude ==> !r,
{
    if always_exclude {
        false
    } else if always_include {
        true
    } else if excluded {
        false
    } else {
        included
    }
}

/// The message of a line: what follows its informational prefix, or the
/// whole line where it has none.
pub open spec fn message_of(line: Seq<char>) -> Seq<char> {
    match pattern_remainder(RE_MOZHARNESS_PREFIX@, line) {
        Some(rest) => rest,
        None => line,
    }
}

/// Whether a line is an error.
pub open spec fn is_error_text(line: Seq<char>) -> bool {
    verdict_of(
        pattern_matches(RE_ALWAYS_EXCLUDE@, line),
        pattern_matches(RE_ALWAYS_INCLUDE@, line),
        any_matches(exclude_sources(), message_of(line)),
        any_matches(error_term_sources(), message_of(line)),
    )
}

/// A line that matches the always-exclude pattern is no error, whatever
/// else it matches.
pub proof fn lemma_always_exclude_dominates(line: Seq<char>)
    requires
        pattern_matches(RE_ALWAYS_EXCLUDE@, line),
    ensures
        !is_error_text(line),
{
}

/// The event that the groups of a boundary marker stand for.
pub open spec fn marker_event(groups: Seq<Option<Seq<char>>>) -> LineEventView
    recommends
        groups.len() == 4,
{
    if groups[0] == Some("Started"@) {
        LineEventView::Started { name: groups[1], timestamp: groups[3] }
    } else {
        LineEventView::Finished { timestamp: groups[3], result_code: groups[2] }
    }
}

/// What a line is to a parser that is, or is not, awaiting its first step.
pub open spec fn event_of(line: Seq<char>, awaiting: bool) -> LineEventView {
    let trimmed = trimmed_start(line);
    if trimmed.len() == 0 {
        LineEventView::Blank
    } else if awaiting && pattern_matches(RE_HEADER_LINE@, trimmed) {
        LineEventView::Header
    } else {
        match pattern_captures(RE_STEP_MARKER@, trimmed, marker_group_names()) {
            Some(groups) => marker_event(groups),
            None => if is_error_text(trimmed) {
                LineEventView::Error
            } else {
                LineEventView::Plain
            },
        }
    }
}

/// Why the tables of the step parser do not compile: the failure of the
/// first of them that does not, or nothing where all compile.
pub open spec fn step_tables_error() -> Option<regex::Error> {
    first_error(
        pattern_error(RE_HEADER_LINE@),
        first_error(
            pattern_error(RE_STEP_MARKER@),
            first_error(
                pattern_set_error(verdict_sources()),
                first_error(
                    pattern_error(RE_MOZHARNESS_PREFIX@),
                    first_error(
                        pattern_set_error(exclude_sources()),
                        pattern_set_error(error_term_sources()),
                    ),
                ),
            ),
        ),
    )
}

/// The compiled pattern tables of the step parser.
pub struct StepPatterns {
    header: Regex,
    marker: Regex,
    verdicts: RegexSet,
    prefix: Regex,
    exclude: RegexSet,
    terms: RegexSet,
}

impl StepPatterns {
    /// Each compiled table holds the patterns of its table, in order.
    pub closed spec fn wf(&self) -> bool {
        &&& regex_source(&self.header) == RE_HEADER_LINE@
        &&& regex_source(&self.marker) == RE_STEP_MARKER@
        &&& regex_set_sources(&self.verdicts) == verdict_sources()
        &&& regex_source(&self.prefix) == RE_MOZHARNESS_PREFIX@
        &&& regex_set_sources(&self.exclude) == exclude_sources()
        &&& regex_set_sources(&self.terms) == error_term_sources()
    }

    /// Compiles the tables; fails with the failure of the first table, in
    /// the order header, marker, verdicts, prefix, benign messages, error
    /// terms, that does not compile.
    pub fn new() -> (r: Result<StepPatterns, regex::Error>)
        ensures
            match r {
                Ok(p) => step_tables_error().is_none() && p.wf(),
                Err(e) => step_tables_error() == Some(e),
            },
    {
        let header = match compile(RE_HEADER_LINE) {
            Ok(re) => re,
            Err(e) => { return Err(e); },
        };
        let marker = match compile(RE_STEP_MARKER) {
            Ok(re) => re,
            Err(e) => { return Err(e); },
        };
        let verdicts = match compile_set(&verdict_patterns()) {
            Ok(set) => set,
            Err(e) => { return Err(e); },
        };
        let prefix = match compile(RE_MOZHARNESS_PREFIX) {
            Ok(re) => re,
            Err(e) => { return Err(e); },
        };
        let exclude = match compile_set(&exclude_patterns()) {
            Ok(set) => set,
            Err(e) => { return Err(e); },
        };
        let terms = match compile_set(&error_term_patterns()) {
            Ok(set) => set,
            Err(e) => { return Err(e); },
        };
        Ok(StepPatterns { header, marker, verdicts, prefix, exclude, terms })
    }

    /// Whether a line is an error. The always-exclude pattern is asked
    /// first and the always-include pattern second; the benign messages and
    /// then the error terms are asked of the line's message.
    pub fn is_error_line(&self, line: &str) -> (r: bool)
        requires
            self.wf(),
        ensures
            r == is_error_text(line@),
            pattern_matches(RE_ALWAYS_EXCLUDE@, line@) ==> !r,
    {
        let first = set_matches(&self.verdicts, line);
        assert(verdict_sources()[0] == RE_ALWAYS_EXCLUDE@);
        assert(verdict_sources()[1] == RE_ALWAYS_INCLUDE@);
        let always_exclude = first[0];
        let always_include = first[1];
        if always_exclude || always_include {
            return verdict(always_exclude, always_include, false, false);
        }
        let message = match remainder(&self.prefix, line) {
            Some(rest) => rest,
            None => line,
        };
        let excluded = set_is_match(&self.exclude, message);
        let included = if excluded {
            false
        } else {
            set_is_match(&self.terms, message)
        };
        verdict(false, false, excluded, included)
    }

    /// The event that the captured groups of a boundary marker stand for.
    pub fn marker_event_of(groups: Vec<Option<String>>) -> (r: LineEvent)
        requires
            groups@.len() == 4,
        ensures
            r@ == marker_event(groups_of(groups@)),
    {
        let mut groups = groups;
        let ghost before = groups_of(groups@);
        let timestamp = groups.pop().unwrap();
        let result_code = groups.pop().unwrap();
        let name = groups.pop().unwrap();
        let marker_type = groups.pop().unwrap();
        assert(before[3] == optional_text(timestamp));
        assert(before[2] == optional_text(result_code));
        assert(before[1] == optional_text(name));
        assert(before[0] == optional_text(marker_type));
        let started = match &marker_type {
            Some(kind) => same_text(kind.as_str(), "Started"),
            None => false,
        };
        if started {
            LineEvent::Started { name, timestamp }
        } else {
            LineEvent::Finished { timestamp, result_code }
        }
    }

    /// What a line is to a parser that is, or is not, awaiting its first
    /// step.
    pub fn classify(&self, line: &str, awaiting: bool) -> (r: LineEvent)
        requires
            self.wf(),
        ensures
            r@ == event_of(line@, awaiting),
    {
        let trimmed = trim_start(line);
        if trimmed.is_empty() {
            return LineEvent::Blank;
        }
        if awaiting && is_match(&self.header, trimmed) {
            return LineEvent::Header;
        }
        let names = marker_groups();
        assert(names@.len() == sources_of(names@).len());
        match captures(&self.marker, trimmed, &names) {
            Some(groups) => Self::marker_event_of(groups),
            None => if self.is_error_line(trimmed) {
                LineEvent::Error
            } else {
                LineEvent::Plain
            },
        }
    }
}

/// The step parser.
pub struct StepParser {
    artifact: StepData,
    state: StepState,
    step_number: u32,
    patterns: StepPatterns,
}

impl View for StepParser {
    type V = StepParserView;

    closed spec fn view(&self) -> StepParserView {
        StepParserView {
            artifact: self.artifact@,
            state: self.state@,
            step_number: self.step_number,
        }
    }
}

impl StepParser {
    /// The parser is well formed and holds the compiled pattern tables.
    pub closed spec fn wf(&self) -> bool {
        well_formed(self@) && self.patterns.wf()
    }

    /// What is parsed by a well-formed parser is well formed.
    pub proof fn lemma_well_formed(&self)
        requires
            self.wf(),
        ensures
            well_formed(self@),
    {
    }

    /// A parser that has seen no line; fails where a pattern of the tables
    /// is no regular expression.
    pub fn new() -> (r: Result<StepParser, LogParserError>)
        ensures
            match r {
                Ok(p) => step_tables_error().is_none() && p.wf() && p@ == initial_parser(),
                Err(e) => step_tables_error() matches Some(failure) && e
                    == LogParserError::Pattern(failure),
            },
    {
        match StepPatterns::new() {
            Ok(patterns) => {
                let p = StepParser {
                    artifact: StepData::new(),
                    state: StepState::AwaitingFirstStep,
                    step_number: 0,
                    patterns,
                };
                assert(flat_errors(p@.artifact.steps) =~= p@.artifact.all_errors);
                Ok(p)
            },
            Err(e) => Err(LogParserError::Pattern(e)),
        }
    }

    /// Opens a step at `line_number`; a step without a name gets the
    /// placeholder.
    pub fn start_step(&mut self, line_number: u32, name: Option<String>, timestamp: Option<String>)
        requires
            old(self).wf(),
            !(old(self)@.state is StepInProgress),
            old(self)@.step_number < u32::MAX,
        ensures
            final(self)@ == after_start(
                old(self)@,
                line_number,
                optional_text(name),
                optional_text(timestamp),
            ),
            final(self).wf(),
    {
        let step = match name {
            Some(n) => Step::new(n.as_str(), timestamp, line_number, self.step_number),
            None => Step::new(UNNAMED_STEP, timestamp, line_number, self.step_number),
        };
        self.state = StepState::StepInProgress(step);
        self.step_number = self.step_number + 1;
    }

    /// Closes the open step at `line_number`.
    pub fn end_step(
        &mut self,
        line_number: u32,
        timestamp: Option<String>,
        result_code: Option<String>,
    )
        requires
            old(self).wf(),
            old(self)@.state is StepInProgress,
        ensures
            final(self)@ == after_end(
                old(self)@,
                line_number,
                optional_text(timestamp),
                optional_text(result_code),
            ),
            final(self).wf(),
    {
        proof {
            lemma_after_end_well_formed(
                self@,
                line_number,
                optional_text(timestamp),
                optional_text(result_code),
            );
        }
        let ghost before = self@;
        let mut taken = StepState::StepFinished;
        core::mem::swap(&mut self.state, &mut taken);
        let mut step = taken.unwrap();
        let ghost open = step@;
        assert(before.state == StepStateView::StepInProgress(open));

        step.error_count = step.errors.len() as u32;
        step.finished_linenumber = line_number;
        step.finished = timestamp;
        if let Some(code) = result_code {
            step.result = StepResult::from_str(code.as_str());
        }
        step.duration = step.calculate_duration();
        if step.error_count > PARSER_MAX_STEP_ERROR_LINES as u32 {
            step.errors.truncate(PARSER_MAX_STEP_ERROR_LINES);
            self.artifact.errors_truncated = true;
        }
        assert(error_views(step.errors@) =~= kept_errors(open.errors));
        let ghost closed = closed_step(
            open,
            line_number,
            optional_text(step.finished),
            optional_text(result_code),
        );
        assert(step@ == closed);
        let mut i: usize = 0;
        while i < step.errors.len()
            invariant
                i <= step.errors.len(),
                step@ == closed,
                error_views(self.artifact.all_errors@) == before.artifact.all_errors
                    + closed.errors.take(i as int),
                step_views(self.artifact.steps@) == before.artifact.steps,
                self.artifact.errors_truncated == (before.artifact.errors_truncated
                    || open.errors.len() > PARSER_MAX_STEP_ERROR_LINES),
                self.patterns == old(self).patterns,
                self.step_number == before.step_number,
                self.state == StepState::StepFinished,
            decreases step.errors.len() - i,
        {
            let ghost collected = self.artifact.all_errors@;
            let copy = step.errors[i].duplicate();
            self.artifact.all_errors.push(copy);
            assert(closed.errors[i as int] == copy@);
            assert(closed.errors.take(i + 1) =~= closed.errors.take(i as int).push(copy@));
            assert(error_views(self.artifact.all_errors@) =~= error_views(collected).push(copy@));
            i = i + 1;
        }
        assert(closed.errors.take(i as int) =~= closed.errors);
        self.artifact.steps.push(step);
        assert(step_views(self.artifact.steps@) =~= before.artifact.steps.push(step@));
    }

    /// Records `line` as an error line where `trimmed`, the line without
    /// its leading whitespace, is judged an error; where no step is open,
    /// one without name and timestamp is opened first.
    pub fn parse_error(&mut self, line: &str, line_number: u32, trimmed: &str)
        requires
            old(self).wf(),
            has_room(old(self)@),
        ensures
            final(self)@ == (if is_error_text(trimmed@) {
                after_error(old(self)@, line@, line_number)
            } else {
                old(self)@
            }),
            final(self).wf(),
    {
        if self.is_error_line(trimmed) {
            self.record_error(line, line_number);
        }
    }

    /// Records `line` as an error line of the open step; where no step is
    /// open, one without name and timestamp is opened first.
    pub fn record_error(&mut self, line: &str, line_number: u32)
        requires
            old(self).wf(),
            has_room(old(self)@),
        ensures
            final(self)@ == after_error(old(self)@, line@, line_number),
            final(self).wf(),
    {
        match self.state {
            StepState::StepInProgress(_) => {},
            _ => {
                self.start_step(line_number, None, None);
            },
        }
        let ghost middle = self@;
        match &mut self.state {
            StepState::StepInProgress(step) => {
                step.errors.push(ErrorLine::new(line_number, line));
                assert(error_views(step.errors@) =~= middle.state->StepInProgress_0.errors.push(
                    ErrorLineView { linenumber: line_number, line: line@ },
                ));
            },
            _ => {},
        }
    }

    /// Whether a line is an error.
    pub fn is_error_line(&self, line: &str) -> (r: bool)
        requires
            self.wf(),
        ensures
            r == is_error_text(line@),
            pattern_matches(RE_ALWAYS_EXCLUDE@, line@) ==> !r,
    {
        self.patterns.is_error_line(line)
    }

    /// Whether one more step and one more error line can still be
    /// counted.
    pub fn room(&self) -> (r: bool)
        ensures
            r == has_room(self@),
    {
        let errors_fit = match &self.state {
            StepState::StepInProgress(step) => step.errors.len() < u32::MAX as usize,
            _ => true,
        };
        self.step_number < u32::MAX && errors_fit
    }

    /// What a line is to this parser.
    pub fn classify(&self, line: &str) -> (r: LineEvent)
        requires
            self.wf(),
        ensures
            r@ == event_of(line@, self@.state is AwaitingFirstStep),
    {
        let awaiting = match self.state {
            StepState::AwaitingFirstStep => true,
            _ => false,
        };
        self.patterns.classify(line, awaiting)
    }

    /// Takes the step that a line of the given kind asks for.
    pub fn apply(&mut self, event: LineEvent, line: &str, line_number: u32)
        requires
            old(self).wf(),
            has_room(old(self)@),
        ensures
            final(self)@ == after_event(old(self)@, event@, line@, line_number),
            final(self).wf(),
    {
        match event {
            LineEvent::Started { name, timestamp } => {
                self.finish_parse(line_number);
                self.start_step(line_number, name, timestamp);
            },
            LineEvent::Finished { timestamp, result_code } => {
                let open = match self.state {
                    StepState::StepInProgress(_) => true,
                    _ => false,
                };
                if open {
                    self.end_step(line_number, timestamp, result_code);
                }
            },
            LineEvent::Error => {
                self.record_error(line, line_number);
            },
            _ => {},
        }
    }

    /// Forgets everything that was parsed.
    pub fn clear(&mut self)
        requires
            old(self).wf(),
        ensures
            final(self)@ == initial_parser(),
            final(self).wf(),
    {
        self.state = StepState::AwaitingFirstStep;
        self.artifact = StepData::new();
        self.step_number = 0;
        assert(flat_errors(self@.artifact.steps) =~= self@.artifact.all_errors);
    }
}

impl LogParser for StepParser {
    type Artifact = StepData;

    open spec fn valid(&self) -> bool {
        self.wf()
    }

    open spec fn is_complete(&self) -> bool {
        false
    }

    open spec fn holds_artifact(&self) -> bool {
        self@.artifact.steps.len() > 0
    }

    open spec fn key(&self) -> Seq<char> {
        "step_data"@
    }

    open spec fn line_effect(
        &self,
        line: Seq<char>,
        line_number: u32,
        after: Self,
        r: Result<(), LogParserError>,
    ) -> bool {
        match steps_after_line(self@, line, line_number) {
            Ok(p) => r is Ok && after@ == p,
            Err(e) => r == Err::<(), LogParserError>(e) && after@ == self@,
        }
    }

    open spec fn finish_effect(&self, last_line_number: u32, after: Self) -> bool {
        after@ == after_finish(self@, last_line_number)
    }

    open spec fn take_effect(&self, after: Self, artifact: StepData) -> bool {
        artifact@ == taken_artifact(self@) && after@ == after_take(self@)
    }

    /// The key under which the artifact is reported.
    fn name(&self) -> (r: &'static str)
        ensures
            r@ == "step_data"@,
    {
        "step_data"
    }

    /// Consumes one line of the log. It fails, and changes nothing, where
    /// the parser has no room left, and only there.
    fn parse_line(&mut self, line: &str, line_number: u32) -> (r: Result<(), LogParserError>)
        ensures
            match steps_after_line(old(self)@, line@, line_number) {
                Ok(p) => r is Ok && final(self)@ == p,
                Err(e) => r == Err::<(), LogParserError>(e) && final(self)@ == old(self)@,
            },
            final(self).wf(),
    {
        if !self.room() {
            return Err(LogParserError::StepLimit);
        }
        let event = self.classify(line);
        self.apply(event, line, line_number);
        Ok(())
    }

    /// Hands out the artifact and leaves the parser as it was before it
    /// saw a line.
    fn get_artifact(&mut self) -> (r: StepData)
        ensures
            r@ == taken_artifact(old(self)@),
            consistent(r@),
            final(self)@ == after_take(old(self)@),
            final(self).wf(),
    {
        let mut artifact = StepData::new();
        core::mem::swap(&mut self.artifact, &mut artifact);
        self.state = StepState::AwaitingFirstStep;
        self.step_number = 0;
        assert(flat_errors(self@.artifact.steps) =~= self@.artifact.all_errors);
        artifact
    }

    /// Closes a step that is still open at the end of the log, at the last
    /// line and without timestamp and result code.
    fn finish_parse(&mut self, last_line_number: u32)
        ensures
            final(self)@ == after_finish(old(self)@, last_line_number),
            final(self).wf(),
    {
        let open = match self.state {
            StepState::StepInProgress(_) => true,
            _ => false,
        };
        if open {
            self.end_step(last_line_number, None, None);
        }
    }

    /// The step parser never stops before the end of the log.
    fn complete(&self) -> (r: bool)
        ensures
            !r,
    {
        false
    }

    /// Whether a step has been closed since the artifact was last taken.
    fn has_artifact(&self) -> (r: bool)
        ensures
            r == (self@.artifact.steps.len() > 0),
    {
        self.artifact.steps.len() > 0
    }
}

} // verus!
