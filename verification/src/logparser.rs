//! What every line parser offers, and the failure of a parse.

use vstd::prelude::*;
use rustc_serialize::json::ParserError;

verus! {

/// How every malformed JSON payload is described.
pub const JSON_FAILURE: &'static str = "failed to parse json";

/// How a JSON payload beyond the limits is described.
pub const JSON_LIMIT: &'static str = "json payload beyond the limits that are read";

/// How a step parser that can count no further is described.
pub const STEP_LIMIT: &'static str = "more steps or error lines than can be counted";

/// How a log with more lines than can be numbered is described.
pub const TOO_MANY_LINES: &'static str = "the log has more lines than can be numbered";

/// How `regex` describes why a pattern is no regular expression.
pub uninterp spec fn pattern_failure_text(e: regex::Error) -> Seq<char>;

/// Calls `description` of `ParserError` as an error of std, which gives
/// the same text for every failure.
#[verifier::external_body]
#[allow(deprecated)]
fn describe_json_failure(e: &ParserError) -> (r: String)
    ensures
        r@ == JSON_FAILURE@,
{
    std::error::Error::description(e).to_owned()
}

/// Calls `to_string` of `regex::Error`.
#[verifier::external_body]
fn describe_pattern_failure(e: &regex::Error) -> (r: String)
    ensures
        r@ == pattern_failure_text(*e),
{
    e.to_string()
}

/// Why a log could not be parsed.
#[derive(Debug)]
pub enum LogParserError {
    /// A marker line was recognised but its embedded JSON payload is malformed.
    JsonParse(ParserError),
    /// A marker line was recognised but its embedded JSON payload is longer,
    /// nested deeper or holds a longer exponent than is read.
    JsonLimit,
    /// The step parser has counted as many steps or error lines as it can.
    StepLimit,
    /// A pattern of the tables is no regular expression.
    Pattern(regex::Error),
    /// Any other failure, with its description.
    Other(String),
}

impl LogParserError {
    /// The short machine-readable kind of each failure.
    pub open spec fn kind(&self) -> Seq<char> {
        match self {
            LogParserError::JsonParse(_) => "JsonError"@,
            LogParserError::JsonLimit => "JsonLimitError"@,
            LogParserError::StepLimit => "StepLimitError"@,
            LogParserError::Pattern(_) => "PatternError"@,
            LogParserError::Other(_) => "OtherError"@,
        }
    }

    /// The short machine-readable kind of this failure.
    pub fn name(&self) -> (r: &'static str)
        ensures
            r@ == self.kind(),
    {
        match self {
            LogParserError::JsonParse(_) => "JsonError",
            LogParserError::JsonLimit => "JsonLimitError",
            LogParserError::StepLimit => "StepLimitError",
            LogParserError::Pattern(_) => "PatternError",
            LogParserError::Other(_) => "OtherError",
        }
    }

    /// The human-readable description of each failure.
    pub open spec fn description_text(&self) -> Seq<char> {
        match self {
            LogParserError::JsonParse(_) => JSON_FAILURE@,
            LogParserError::JsonLimit => JSON_LIMIT@,
            LogParserError::StepLimit => STEP_LIMIT@,
            LogParserError::Pattern(e) => pattern_failure_text(*e),
            LogParserError::Other(text) => text@,
        }
    }

    /// The human-readable description of this failure.
    pub fn description(&self) -> (r: String)
        ensures
            r@ == self.description_text(),
    {
        match self {
            LogParserError::JsonParse(e) => describe_json_failure(e),
            LogParserError::JsonLimit => JSON_LIMIT.to_owned(),
            LogParserError::StepLimit => STEP_LIMIT.to_owned(),
            LogParserError::Pattern(e) => describe_pattern_failure(e),
            LogParserError::Other(text) => text.clone(),
        }
    }
}

impl From<ParserError> for LogParserError {
    fn from(err: ParserError) -> (r: LogParserError) {
        LogParserError::JsonParse(err)
    }
}

impl vstd::std_specs::convert::FromSpecImpl<ParserError> for LogParserError {
    open spec fn obeys_from_spec() -> bool {
        true
    }

    open spec fn from_spec(err: ParserError) -> LogParserError {
        LogParserError::JsonParse(err)
    }
}

impl From<regex::Error> for LogParserError {
    fn from(err: regex::Error) -> (r: LogParserError) {
        LogParserError::Pattern(err)
    }
}

impl vstd::std_specs::convert::FromSpecImpl<regex::Error> for LogParserError {
    open spec fn obeys_from_spec() -> bool {
        true
    }

    open spec fn from_spec(err: regex::Error) -> LogParserError {
        LogParserError::Pattern(err)
    }
}

/// What every line parser offers. A parser consumes the lines of a log
/// one at a time, is told when the log has ended, and then hands out its
/// artifact.
pub trait LogParser: Sized {
    /// What the parser extracts from a log.
    type Artifact;

    /// Whether the parser is well formed.
    spec fn valid(&self) -> bool;

    /// Whether the parser wants no more lines.
    spec fn is_complete(&self) -> bool;

    /// Whether the parser holds an artifact that is not empty.
    spec fn holds_artifact(&self) -> bool;

    /// The key under which the artifact is reported.
    spec fn key(&self) -> Seq<char>;

    /// How a line changes the parser: whether `after` is the parser and
    /// `r` the result once this parser has consumed the line.
    spec fn line_effect(
        &self,
        line: Seq<char>,
        line_number: u32,
        after: Self,
        r: Result<(), LogParserError>,
    ) -> bool;

    /// How the end of the log changes the parser: whether `after` is the
    /// parser once this parser has been told of the last line.
    spec fn finish_effect(&self, last_line_number: u32, after: Self) -> bool;

    /// How artifact retrieval changes the parser: whether `artifact` is
    /// what this parser hands out and `after` the parser it leaves.
    spec fn take_effect(&self, after: Self, artifact: Self::Artifact) -> bool;

    /// The key under which the artifact is reported.
    fn name(&self) -> (r: &'static str)
        ensures
            r@ == self.key(),
    ;

    /// Consumes one line of the log; fails where the line's embedded
    /// payload is malformed.
    fn parse_line(&mut self, line: &str, line_number: u32) -> (r: Result<(), LogParserError>)
        requires
            old(self).valid(),
        ensures
            final(self).valid(),
            old(self).line_effect(line@, line_number, *final(self), r),
    ;

    /// Hands out the artifact and resets the parser: it holds no artifact
    /// afterwards.
    fn get_artifact(&mut self) -> (r: Self::Artifact)
        requires
            old(self).valid(),
        ensures
            final(self).valid(),
            !final(self).holds_artifact(),
            old(self).take_effect(*final(self), r),
    ;

    /// Closes what is still open after the last line.
    fn finish_parse(&mut self, last_line_number: u32)
        requires
            old(self).valid(),
        ensures
            final(self).valid(),
            old(self).finish_effect(last_line_number, *final(self)),
    ;

    /// Whether the parser wants no more lines.
    fn complete(&self) -> (r: bool)
        ensures
            r == self.is_complete(),
    ;

    /// Whether the parser holds an artifact that is not empty.
    fn has_artifact(&self) -> (r: bool)
        ensures
            r == self.holds_artifact(),
    ;
}

/// Hands a line to a parser, unless the parser is complete: a complete
/// parser sees no line.
pub fn parse_line<T: LogParser>(parser: &mut T, line: &str, line_number: u32) -> (r: Result<
    (),
    LogParserError,
>)
    requires
        old(parser).valid(),
    ensures
        final(parser).valid(),
        old(parser).is_complete() ==> r is Ok && *final(parser) == *old(parser),
        !old(parser).is_complete() ==> old(parser).line_effect(
            line@,
            line_number,
            *final(parser),
            r,
        ),
{
    if !parser.complete() {
        parser.parse_line(line, line_number)
    } else {
        Ok(())
    }
}

/// Tells a parser of the last line and takes its artifact under its key,
/// if it then holds one.
pub fn finish_parse<T: LogParser>(parser: &mut T, final_line_number: u32) -> (r: Option<
    (&'static str, T::Artifact),
>)
    requires
        old(parser).valid(),
    ensures
        final(parser).valid(),
        exists|finished: T|
            {
                &&& #[trigger] old(parser).finish_effect(final_line_number, finished)
                &&& match r {
                    Some((name, artifact)) => {
                        &&& finished.holds_artifact()
                        &&& name@ == finished.key()
                        &&& finished.take_effect(*final(parser), artifact)
                    },
                    None => !finished.holds_artifact() && *final(parser) == finished,
                }
            },
{
    parser.finish_parse(final_line_number);
    let ghost finished = *parser;
    if parser.has_artifact() {
        let name = parser.name();
        let artifact = parser.get_artifact();
        assert(old(parser).finish_effect(final_line_number, finished));
        Some((name, artifact))
    } else {
        assert(old(parser).finish_effect(final_line_number, finished));
        None
    }
}

} // verus!
