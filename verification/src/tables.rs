//! The pattern tables of the step parser: the texts that mark step
//! boundaries and the ordered lists that decide whether a line is an error.

use vstd::prelude::*;
use crate::patterns::sources_of;

verus! {

/// A field of the log's preamble.
pub const RE_HEADER_LINE: &'static str =
    "^(?:builder|slave|starttime|results|buildid|builduid|revision): ";

/// A step boundary marker, with its kind, the step's name, the numeric
/// result code and the timestamp.
pub const RE_STEP_MARKER: &'static str =
    "={9} (?P<marker_type>Started|Finished) (?P<name>.*?) \\(results: (?P<result_code>\\d+), elapsed: .*?\\) \\(at (?P<timestamp>.*?)\\)";

/// A line with this marker is never an error.
pub const RE_ALWAYS_EXCLUDE: &'static str = "TEST-(?:INFO|PASS) ";

/// A line of this form is always an error, unless it is always excluded.
pub const RE_ALWAYS_INCLUDE: &'static str = "^\\d+:\\d+:\\d+ +(?:ERROR|CRITICAL|FATAL) - ";

/// The informational prefix that is stripped to reach the message.
pub const RE_MOZHARNESS_PREFIX: &'static str = "^\\d+:\\d+:\\d+ +(?:DEBUG|INFO|WARNING) - +";

/// The names of the groups of a step boundary marker.
pub open spec fn marker_group_names() -> Seq<Seq<char>> {
    seq!["marker_type"@, "name"@, "result_code"@, "timestamp"@]
}

/// The names of the groups of a step boundary marker.
pub fn marker_groups() -> (v: Vec<&'static str>)
    ensures
        sources_of(v@) == marker_group_names(),
{
    let v = vec!["marker_type", "name", "result_code", "timestamp"];
    assert(sources_of(v@) =~= marker_group_names());
    v
}

/// The two patterns that decide before all others: the first always
/// excludes, the second always includes.
pub open spec fn verdict_sources() -> Seq<Seq<char>> {
    seq![RE_ALWAYS_EXCLUDE@, RE_ALWAYS_INCLUDE@]
}

/// The two patterns that decide before all others.
pub fn verdict_patterns() -> (v: Vec<&'static str>)
    ensures
        sources_of(v@) == verdict_sources(),
{
    let v = vec![RE_ALWAYS_EXCLUDE, RE_ALWAYS_INCLUDE];
    assert(sources_of(v@) =~= verdict_sources());
    v
}

/// Messages that look like errors but are known to be benign.
pub open spec fn exclude_sources() -> Seq<Seq<char>> {
    seq![
        "I[ /](Gecko|Robocop|TestRunner).*TEST-UNEXPECTED-"@,
        "^TimeoutException: "@,
        "^ImportError: No module named pygtk$"@,
    ]
}

/// Messages that look like errors but are known to be benign.
pub fn exclude_patterns() -> (v: Vec<&'static str>)
    ensures
        sources_of(v@) == exclude_sources(),
{
    let v = vec![
        "I[ /](Gecko|Robocop|TestRunner).*TEST-UNEXPECTED-",
        "^TimeoutException: ",
        "^ImportError: No module named pygtk$",
    ];
    assert(sources_of(v@) =~= exclude_sources());
    v
}

/// Messages that signal an error.
pub open spec fn error_term_sources() -> Seq<Seq<char>> {
    seq![
        "TEST-UNEXPECTED-"@,
        "fatal error"@,
        "FATAL ERROR"@,
        "PROCESS-CRASH"@,
        "Assertion failure:"@,
        "Assertion failed:"@,
        "###!!! ABORT:"@,
        "E/GeckoLinker"@,
        "SUMMARY: AddressSanitizer"@,
        "SUMMARY: LeakSanitizer"@,
        "Automation Error:"@,
        "command timed out:"@,
        "wget: unable "@,
        "TEST-VALGRIND-ERROR"@,
        "^error: TEST FAILED"@,
        "^g?make(?:\\[\\d+\\])?: \\*\\*\\*"@,
        "^Remote Device Error:"@,
        "^[A-Za-z.]+Error: "@,
        "^[A-Za-z.]*Exception: "@,
        "^remoteFailed:"@,
        "^rm: cannot "@,
        "^abort:"@,
        "^Output exceeded \\d+ bytes"@,
        "^The web-page 'stop build' button was pressed"@,
        ".*\\.js: line \\d+, col \\d+, Error -"@,
        "^\\[taskcluster\\] Error:"@,
        "^\\[[\\w-]+:(?:error|exception)\\]"@,
        " error\\(\\d*\\):"@,
        ":\\d+: error:"@,
        " error R?C\\d*:"@,
        "ERROR [45]\\d\\d:"@,
        "mozmake\\.exe(?:\\[\\d+\\])?: \\*\\*\\*"@,
    ]
}

/// Messages that signal an error.
pub fn error_term_patterns() -> (v: Vec<&'static str>)
    ensures
        sources_of(v@) == error_term_sources(),
{
    let v = vec![
        "TEST-UNEXPECTED-",
        "fatal error",
        "FATAL ERROR",
        "PROCESS-CRASH",
        "Assertion failure:",
        "Assertion failed:",
        "###!!! ABORT:",
        "E/GeckoLinker",
        "SUMMARY: AddressSanitizer",
        "SUMMARY: LeakSanitizer",
        "Automation Error:",
        "command timed out:",
        "wget: unable ",
        "TEST-VALGRIND-ERROR",
        "^error: TEST FAILED",
        "^g?make(?:\\[\\d+\\])?: \\*\\*\\*",
        "^Remote Device Error:",
        "^[A-Za-z.]+Error: ",
        "^[A-Za-z.]*Exception: ",
        "^remoteFailed:",
        "^rm: cannot ",
        "^abort:",
        "^Output exceeded \\d+ bytes",
        "^The web-page 'stop build' button was pressed",
        ".*\\.js: line \\d+, col \\d+, Error -",
        "^\\[taskcluster\\] Error:",
        "^\\[[\\w-]+:(?:error|exception)\\]",
        " error\\(\\d*\\):",
        ":\\d+: error:",
        " error R?C\\d*:",
        "ERROR [45]\\d\\d:",
        "mozmake\\.exe(?:\\[\\d+\\])?: \\*\\*\\*",
    ];
    assert(sources_of(v@) =~= error_term_sources());
    v
}

} // verus!
