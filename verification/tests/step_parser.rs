use logparser::logparser::{LogParser, LogParserError};
use logparser::stepparser::{
    verdict, ErrorLine, LineEvent, Step, StepData, StepParser, StepPatterns, StepResult, StepState,
};
use logparser::timestamps::{duration_of, round_seconds};

fn parse(lines: &[&str]) -> StepData {
    let mut parser = StepParser::new().unwrap();
    let mut last = 0;
    for (n, line) in lines.iter().enumerate() {
        parser.parse_line(line, n as u32).unwrap();
        last = n as u32;
    }
    parser.finish_parse(last);
    parser.get_artifact()
}

fn started(name: &str, at: &str) -> String {
    format!("========= Started {} (results: 0, elapsed: 1 secs) (at {})", name, at)
}

fn finished(name: &str, code: &str, at: &str) -> String {
    format!("========= Finished {} (results: {}, elapsed: 1 secs) (at {})", name, code, at)
}

#[test]
fn started_then_finished_gives_one_step() {
    let data = parse(&[
        "========= Started step1 (results: 0, elapsed: 1 secs) (at 2016-01-01 00:00:00.000)",
        "========= Finished step1 (results: 0, elapsed: 1 secs) (at 2016-01-01 00:00:01.000)",
    ]);
    assert_eq!(data.steps.len(), 1);
    let step = &data.steps[0];
    assert_eq!(step.name, "step1");
    assert_eq!(step.result, StepResult::Success);
    assert_eq!(step.duration, Some(1));
    assert_eq!(step.order, 0);
    assert_eq!(step.started_linenumber, 0);
    assert_eq!(step.finished_linenumber, 1);
    assert_eq!(step.started.as_deref(), Some("2016-01-01 00:00:00.000"));
    assert_eq!(step.finished.as_deref(), Some("2016-01-01 00:00:01.000"));
    assert_eq!(step.error_count, 0);
    assert!(step.errors.is_empty());
    assert!(data.all_errors.is_empty());
    assert!(!data.errors_truncated);
}

#[test]
fn error_without_step_opens_implicit_step() {
    let data = parse(&["12:00:00 ERROR - boom"]);
    assert_eq!(data.steps.len(), 1);
    let step = &data.steps[0];
    assert_eq!(step.name, "Unnamed step");
    assert_eq!(step.started, None);
    assert_eq!(step.finished, None);
    assert_eq!(step.result, StepResult::Unknown);
    assert_eq!(step.duration, None);
    assert_eq!(step.error_count, 1);
    assert_eq!(step.errors.len(), 1);
    assert_eq!(step.errors[0].linenumber, 0);
    assert_eq!(step.errors[0].line, "12:00:00 ERROR - boom");
    assert_eq!(data.all_errors.len(), 1);
    assert_eq!(data.all_errors[0].line, "12:00:00 ERROR - boom");
}

#[test]
fn log_without_markers_and_errors_gives_empty_artifact() {
    let mut parser = StepParser::new().unwrap();
    parser.parse_line("nothing to see here", 0).unwrap();
    parser.parse_line("compiling foo.c", 1).unwrap();
    parser.parse_line("", 2).unwrap();
    parser.finish_parse(2);
    assert!(!parser.has_artifact());
    let data = parser.get_artifact();
    assert!(data.steps.is_empty());
    assert!(data.all_errors.is_empty());
    assert!(!data.errors_truncated);
}

#[test]
fn orders_are_positions() {
    let lines = vec![
        started("a", "2016-01-01 00:00:00"),
        finished("a", "0", "2016-01-01 00:00:05"),
        "12:00:00 ERROR - between steps".to_string(),
        started("b", "2016-01-01 00:01:00"),
        started("c", "2016-01-01 00:02:00"),
        finished("c", "2", "2016-01-01 00:02:30"),
    ];
    let refs: Vec<&str> = lines.iter().map(|l| l.as_str()).collect();
    let data = parse(&refs);
    assert_eq!(data.steps.len(), 4);
    for (i, step) in data.steps.iter().enumerate() {
        assert_eq!(step.order as usize, i);
    }
    let names: Vec<&str> = data.steps.iter().map(|s| s.name.as_str()).collect();
    assert_eq!(names, vec!["a", "Unnamed step", "b", "c"]);
}

#[test]
fn start_marker_closes_open_step_without_result() {
    let lines = vec![
        started("a", "2016-01-01 00:00:00"),
        started("b", "2016-01-01 00:01:00"),
        finished("b", "1", "2016-01-01 00:01:10"),
    ];
    let refs: Vec<&str> = lines.iter().map(|l| l.as_str()).collect();
    let data = parse(&refs);
    assert_eq!(data.steps.len(), 2);
    assert_eq!(data.steps[0].name, "a");
    assert_eq!(data.steps[0].result, StepResult::Unknown);
    assert_eq!(data.steps[0].finished, None);
    assert_eq!(data.steps[0].finished_linenumber, 1);
    assert_eq!(data.steps[0].duration, None);
    assert_eq!(data.steps[1].started_linenumber, 1);
    assert_eq!(data.steps[1].result, StepResult::TestFailed);
    assert_eq!(data.steps[1].duration, Some(10));
}

#[test]
fn finish_marker_without_open_step_is_ignored() {
    let lines = vec![finished("a", "0", "2016-01-01 00:00:05")];
    let refs: Vec<&str> = lines.iter().map(|l| l.as_str()).collect();
    let data = parse(&refs);
    assert!(data.steps.is_empty());
}

#[test]
fn open_step_is_closed_at_end_of_log() {
    let lines = vec![
        started("a", "2016-01-01 00:00:00"),
        "fatal error: too bad".to_string(),
        "all fine".to_string(),
    ];
    let refs: Vec<&str> = lines.iter().map(|l| l.as_str()).collect();
    let data = parse(&refs);
    assert_eq!(data.steps.len(), 1);
    assert_eq!(data.steps[0].finished_linenumber, 2);
    assert_eq!(data.steps[0].result, StepResult::Unknown);
    assert_eq!(data.steps[0].finished, None);
    assert_eq!(data.steps[0].duration, None);
    assert_eq!(data.steps[0].error_count, 1);
    assert_eq!(data.steps[0].errors[0].linenumber, 1);
}

#[test]
fn unknown_result_code_maps_to_unknown() {
    let lines = vec![
        started("a", "2016-01-01 00:00:00"),
        finished("a", "17", "2016-01-01 00:00:05"),
    ];
    let refs: Vec<&str> = lines.iter().map(|l| l.as_str()).collect();
    let data = parse(&refs);
    assert_eq!(data.steps[0].result, StepResult::Unknown);
}

#[test]
fn header_lines_are_skipped_before_first_step() {
    let mut parser = StepParser::new().unwrap();
    assert!(matches!(parser.classify("builder: fatal error"), LineEvent::Header));
    assert!(matches!(parser.classify("revision: abcdef"), LineEvent::Header));
    parser.parse_line("builder: fatal error", 0).unwrap();
    parser.parse_line("fatal error", 1).unwrap();
    assert!(matches!(parser.classify("builder: fatal error"), LineEvent::Error));
    parser.parse_line("builder: fatal error", 2).unwrap();
    parser.finish_parse(2);
    let data = parser.get_artifact();
    assert_eq!(data.steps.len(), 1);
    assert_eq!(data.steps[0].error_count, 2);
    assert_eq!(data.steps[0].errors[0].linenumber, 1);
    assert_eq!(data.steps[0].errors[1].linenumber, 2);
}

#[test]
fn blank_lines_cause_no_transition() {
    let parser = StepParser::new().unwrap();
    assert!(matches!(parser.classify(""), LineEvent::Blank));
    assert!(matches!(parser.classify("   \t  "), LineEvent::Blank));
    assert!(matches!(parser.classify("  plain text"), LineEvent::Plain));
}

#[test]
fn leading_whitespace_is_trimmed_before_classifying() {
    let data = parse(&["   make: *** [all] Error 1"]);
    assert_eq!(data.steps.len(), 1);
    assert_eq!(data.steps[0].errors.len(), 1);
    assert_eq!(data.steps[0].errors[0].line, "   make: *** [all] Error 1");
}

#[test]
fn marker_groups_are_captured() {
    let parser = StepParser::new().unwrap();
    let line = "========= Started set props: basedir (results: 3, elapsed: 0 secs) (at 2016-04-14 13:52:11.065832) =========";
    match parser.classify(line) {
        LineEvent::Started { name, timestamp } => {
            assert_eq!(name.as_deref(), Some("set props: basedir"));
            assert_eq!(timestamp.as_deref(), Some("2016-04-14 13:52:11.065832"));
        }
        other => panic!("unexpected event {:?}", other),
    }
    let line = "========= Finished set props: basedir (results: 3, elapsed: 0 secs) (at 2016-04-14 13:52:11.065832) =========";
    match parser.classify(line) {
        LineEvent::Finished { timestamp, result_code } => {
            assert_eq!(result_code.as_deref(), Some("3"));
            assert_eq!(timestamp.as_deref(), Some("2016-04-14 13:52:11.065832"));
        }
        other => panic!("unexpected event {:?}", other),
    }
}

#[test]
fn marker_event_tells_started_from_finished() {
    let groups = vec![
        Some("Started".to_string()),
        Some("n".to_string()),
        Some("0".to_string()),
        Some("t".to_string()),
    ];
    assert!(matches!(StepPatterns::marker_event_of(groups), LineEvent::Started { .. }));
    let groups = vec![
        Some("Finished".to_string()),
        Some("n".to_string()),
        Some("0".to_string()),
        Some("t".to_string()),
    ];
    match StepPatterns::marker_event_of(groups) {
        LineEvent::Finished { timestamp, result_code } => {
            assert_eq!(timestamp.as_deref(), Some("t"));
            assert_eq!(result_code.as_deref(), Some("0"));
        }
        other => panic!("unexpected event {:?}", other),
    }
}

#[test]
fn errors_are_truncated_at_one_hundred() {
    let mut lines = vec![started("big", "2016-01-01 00:00:00")];
    for i in 0..150 {
        lines.push(format!("fatal error number {}", i));
    }
    lines.push(finished("big", "2", "2016-01-01 00:10:00"));
    lines.push(started("small", "2016-01-01 00:10:00"));
    lines.push("TEST-UNEXPECTED-FAIL | one".to_string());
    lines.push(finished("small", "0", "2016-01-01 00:10:01"));
    let refs: Vec<&str> = lines.iter().map(|l| l.as_str()).collect();
    let data = parse(&refs);
    assert_eq!(data.steps.len(), 2);
    assert_eq!(data.steps[0].error_count, 150);
    assert_eq!(data.steps[0].errors.len(), 100);
    assert_eq!(data.steps[0].errors[0].line, "fatal error number 0");
    assert_eq!(data.steps[0].errors[99].line, "fatal error number 99");
    assert_eq!(data.steps[0].result, StepResult::Busted);
    assert_eq!(data.steps[0].duration, Some(600));
    assert_eq!(data.steps[1].error_count, 1);
    assert_eq!(data.steps[1].errors.len(), 1);
    assert!(data.errors_truncated);
    assert_eq!(data.all_errors.len(), 101);
    assert_eq!(data.all_errors[99].line, "fatal error number 99");
    assert_eq!(data.all_errors[100].line, "TEST-UNEXPECTED-FAIL | one");
}

#[test]
fn exactly_one_hundred_errors_are_not_truncated() {
    let mut lines = vec![started("big", "2016-01-01 00:00:00")];
    for i in 0..100 {
        lines.push(format!("fatal error number {}", i));
    }
    let refs: Vec<&str> = lines.iter().map(|l| l.as_str()).collect();
    let data = parse(&refs);
    assert_eq!(data.steps[0].error_count, 100);
    assert_eq!(data.steps[0].errors.len(), 100);
    assert!(!data.errors_truncated);
}

#[test]
fn all_errors_concatenates_step_errors() {
    let lines = vec![
        started("a", "2016-01-01 00:00:00"),
        "fatal error a1".to_string(),
        "fatal error a2".to_string(),
        finished("a", "0", "2016-01-01 00:00:05"),
        started("b", "2016-01-01 00:00:05"),
        finished("b", "0", "2016-01-01 00:00:06"),
        started("c", "2016-01-01 00:00:06"),
        "fatal error c1".to_string(),
        finished("c", "0", "2016-01-01 00:00:07"),
    ];
    let refs: Vec<&str> = lines.iter().map(|l| l.as_str()).collect();
    let data = parse(&refs);
    let mut flat: Vec<(u32, String)> = Vec::new();
    for step in data.steps.iter() {
        for e in step.errors.iter() {
            flat.push((e.linenumber, e.line.clone()));
        }
    }
    let all: Vec<(u32, String)> =
        data.all_errors.iter().map(|e| (e.linenumber, e.line.clone())).collect();
    assert_eq!(all, flat);
    assert_eq!(all.len(), 3);
    assert_eq!(all[2], (7, "fatal error c1".to_string()));
}

#[test]
fn artifact_retrieval_resets_the_step_parser() {
    let mut parser = StepParser::new().unwrap();
    parser.parse_line("12:00:00 ERROR - boom", 0).unwrap();
    parser.finish_parse(0);
    assert!(parser.has_artifact());
    let first = parser.get_artifact();
    assert_eq!(first.steps.len(), 1);
    assert!(!parser.has_artifact());
    let second = parser.get_artifact();
    assert!(second.steps.is_empty());
    assert!(second.all_errors.is_empty());
    assert!(!second.errors_truncated);
    parser.parse_line("12:00:01 ERROR - again", 0).unwrap();
    parser.finish_parse(0);
    let third = parser.get_artifact();
    assert_eq!(third.steps.len(), 1);
    assert_eq!(third.steps[0].order, 0);
}

#[test]
fn clear_forgets_an_open_step() {
    let mut parser = StepParser::new().unwrap();
    parser.parse_line("12:00:00 ERROR - boom", 0).unwrap();
    parser.clear();
    parser.finish_parse(0);
    assert!(!parser.has_artifact());
    assert!(matches!(parser.classify("builder: x"), LineEvent::Header));
}

#[test]
fn always_exclude_dominates_include() {
    let parser = StepParser::new().unwrap();
    assert!(parser.is_error_line("TEST-UNEXPECTED-FAIL | foo"));
    assert!(!parser.is_error_line("TEST-INFO | TEST-UNEXPECTED-FAIL | foo"));
    assert!(!parser.is_error_line("12:00:00 ERROR - TEST-PASS | foo"));
    assert!(!verdict(true, true, false, true));
    assert!(!verdict(true, false, false, true));
    assert!(verdict(false, true, true, false));
    assert!(!verdict(false, false, true, true));
    assert!(verdict(false, false, false, true));
    assert!(!verdict(false, false, false, false));
}

#[test]
fn always_include_needs_a_severity() {
    let parser = StepParser::new().unwrap();
    assert!(parser.is_error_line("12:00:00 ERROR - boom"));
    assert!(parser.is_error_line("12:00:00 CRITICAL - boom"));
    assert!(parser.is_error_line("12:00:00    FATAL - boom"));
    assert!(!parser.is_error_line("12:00:00 INFO - boom"));
    assert!(!parser.is_error_line("x 12:00:00 ERROR - boom"));
}

#[test]
fn informational_prefix_is_stripped() {
    let parser = StepParser::new().unwrap();
    assert!(parser.is_error_line("12:00:00 INFO - make: *** [all] Error 1"));
    assert!(parser.is_error_line("12:00:00  WARNING -   rm: cannot remove x"));
    assert!(!parser.is_error_line("x make: *** [all] Error 1"));
    assert!(!parser.is_error_line("12:00:00 INFO - TimeoutException: waited"));
}

#[test]
fn exclude_set_dominates_include_set() {
    let parser = StepParser::new().unwrap();
    assert!(parser.is_error_line("ValueError: bad"));
    assert!(parser.is_error_line("SomeException: bad"));
    assert!(!parser.is_error_line("TimeoutException: waited"));
    assert!(!parser.is_error_line("ImportError: No module named pygtk"));
    assert!(parser.is_error_line("ImportError: No module named pygtk2"));
    assert!(!parser.is_error_line("I/TestRunner( 1): TEST-UNEXPECTED-FAIL"));
}

#[test]
fn include_set_entries_match() {
    let parser = StepParser::new().unwrap();
    for line in [
        "PROCESS-CRASH | foo",
        "Assertion failure: x, at y",
        "###!!! ABORT: z",
        "command timed out: 1200 seconds",
        "gmake[2]: *** [x] Error 1",
        "foo.c:12: error: bad",
        "Output exceeded 100 bytes",
        "[taskcluster] Error: task",
        "[task-cluster:error] x",
        "link error LNK1: x error C2: y",
        "HTTP ERROR 404: not found",
        "mozmake.exe[3]: *** stop",
        "a/b.js: line 1, col 2, Error - x",
    ] {
        assert!(parser.is_error_line(line), "{}", line);
    }
    for line in ["error", "an Error: in the middle", "make: ok", "ERROR 200: fine"] {
        assert!(!parser.is_error_line(line), "{}", line);
    }
}

#[test]
fn result_codes() {
    assert_eq!(StepResult::from_str("0"), StepResult::Success);
    assert_eq!(StepResult::from_str("1"), StepResult::TestFailed);
    assert_eq!(StepResult::from_str("2"), StepResult::Busted);
    assert_eq!(StepResult::from_str("3"), StepResult::Skipped);
    assert_eq!(StepResult::from_str("4"), StepResult::Exception);
    assert_eq!(StepResult::from_str("5"), StepResult::Retry);
    assert_eq!(StepResult::from_str("6"), StepResult::UserCancel);
    assert_eq!(StepResult::from_str("7"), StepResult::Unknown);
    assert_eq!(StepResult::from_str(""), StepResult::Unknown);
    assert_eq!(StepResult::from_str("00"), StepResult::Unknown);
}

#[test]
fn result_labels() {
    assert_eq!(StepResult::Unknown.label(), "unknown");
    assert_eq!(StepResult::Success.label(), "success");
    assert_eq!(StepResult::TestFailed.label(), "testfailed");
    assert_eq!(StepResult::Busted.label(), "busted");
    assert_eq!(StepResult::Skipped.label(), "skipped");
    assert_eq!(StepResult::Exception.label(), "exception");
    assert_eq!(StepResult::Retry.label(), "retry");
    assert_eq!(StepResult::UserCancel.label(), "usercancel");
}

#[test]
fn constructors() {
    let e = ErrorLine::new(7, "boom");
    assert_eq!(e.linenumber, 7);
    assert_eq!(e.line, "boom");
    let copy = e.duplicate();
    assert_eq!(copy.linenumber, 7);
    assert_eq!(copy.line, "boom");
    let s = Step::new("name", Some("2016-01-01 00:00:00".to_string()), 3, 9);
    assert_eq!(s.name, "name");
    assert_eq!(s.started.as_deref(), Some("2016-01-01 00:00:00"));
    assert_eq!(s.started_linenumber, 3);
    assert_eq!(s.finished_linenumber, 0);
    assert_eq!(s.finished, None);
    assert_eq!(s.result, StepResult::Unknown);
    assert_eq!(s.error_count, 0);
    assert_eq!(s.duration, None);
    assert_eq!(s.order, 9);
    assert!(s.errors.is_empty());
    assert_eq!(s.calculate_duration(), None);
    let unwrapped = StepState::StepInProgress(s).unwrap();
    assert_eq!(unwrapped.order, 9);
    let d = StepData::new();
    assert!(d.steps.is_empty() && d.all_errors.is_empty() && !d.errors_truncated);
}

#[test]
fn step_parser_name_and_completion() {
    let parser = StepParser::new().unwrap();
    assert_eq!(parser.name(), "step_data");
    assert!(!parser.complete());
}

#[test]
fn durations_round_to_the_nearest_second() {
    assert_eq!(round_seconds(1000), 1);
    assert_eq!(round_seconds(1499), 1);
    assert_eq!(round_seconds(1500), 2);
    assert_eq!(round_seconds(499), 0);
    assert_eq!(round_seconds(500), 1);
    assert_eq!(round_seconds(0), 0);
    assert_eq!(round_seconds(-1500), -2);
    assert_eq!(round_seconds(-1499), -1);
    assert_eq!(round_seconds(-500), -1);
    assert_eq!(round_seconds(-499), 0);
    assert_eq!(round_seconds(i64::MAX), 9223372036854776);
    assert_eq!(round_seconds(i64::MIN), -9223372036854776);
}

#[test]
fn durations_from_timestamps() {
    let t = |s: &str| Some(s.to_string());
    assert_eq!(duration_of(&t("2016-01-01 00:00:00.000"), &t("2016-01-01 00:00:01.000")), Some(1));
    assert_eq!(duration_of(&t("2016-01-01 00:00:00"), &t("2016-01-02 00:00:00")), Some(86400));
    assert_eq!(duration_of(&t("2016-01-01 00:00:00.250"), &t("2016-01-01 00:00:01.900")), Some(2));
    assert_eq!(
        duration_of(&t("2016-04-14 13:52:11.065832"), &t("2016-04-14 13:52:11.495832")),
        Some(0)
    );
    assert_eq!(
        duration_of(&t("2016-01-01 00:00:00.0005"), &t("2016-01-01 00:00:00.5001")),
        Some(0)
    );
    assert_eq!(
        duration_of(&t("2016-01-01 00:00:00.0005"), &t("2016-01-01 00:00:00.5005")),
        Some(1)
    );
    assert_eq!(duration_of(&t("2016-01-01 00:00:10"), &t("2016-01-01 00:00:00")), Some(-10));
    assert_eq!(duration_of(&t("2016-01-01 00:00:01.6"), &t("2016-01-01 00:00:00")), Some(-2));
    assert_eq!(duration_of(&t("2016-01-01 00:00:00"), &t("2016-01-01 00:00:00")), Some(0));
    assert_eq!(duration_of(&t("yesterday"), &t("2016-01-01 00:00:00")), None);
    assert_eq!(duration_of(&t("2016-01-01 00:00:00"), &t("2016-01-01")), None);
    assert_eq!(duration_of(&None, &t("2016-01-01 00:00:00")), None);
    assert_eq!(duration_of(&t("2016-01-01 00:00:00"), &None), None);
}

#[test]
fn unparsable_timestamp_gives_no_duration() {
    let lines = vec![started("a", "soon"), finished("a", "0", "2016-01-01 00:00:05")];
    let refs: Vec<&str> = lines.iter().map(|l| l.as_str()).collect();
    let data = parse(&refs);
    assert_eq!(data.steps[0].duration, None);
    assert_eq!(data.steps[0].started.as_deref(), Some("soon"));
    assert_eq!(data.steps[0].result, StepResult::Success);
}

#[test]
fn error_kinds_have_names() {
    assert_eq!(LogParserError::Other("x".to_string()).name(), "OtherError");
    let bad = regex::Regex::new("(").unwrap_err();
    assert_eq!(LogParserError::Pattern(bad).name(), "PatternError");
    let bad = rustc_serialize::json::Json::from_str("{").unwrap_err();
    assert_eq!(LogParserError::JsonParse(bad).name(), "JsonError");
    assert_eq!(LogParserError::JsonLimit.name(), "JsonLimitError");
    assert_eq!(LogParserError::StepLimit.name(), "StepLimitError");
}

#[test]
fn a_parser_has_room_for_every_log_that_can_be_numbered() {
    let mut parser = StepParser::new().unwrap();
    assert!(parser.room());
    for n in 0..1000 {
        parser.parse_line("fatal error", n).unwrap();
        parser
            .parse_line(
                "========= Started s (results: 0, elapsed: 1 secs) (at 2016-01-01 00:00:00)",
                n,
            )
            .unwrap();
    }
    assert!(parser.room());
    parser.finish_parse(1000);
    let data = parser.get_artifact();
    assert_eq!(data.steps.len(), 1001);
    assert_eq!(data.steps[1000].order, 1000);
    assert_eq!(data.steps[0].name, "Unnamed step");
    assert_eq!(data.steps[1].error_count, 1);
    assert_eq!(data.steps[1000].error_count, 0);
    assert_eq!(data.all_errors.len(), 1000);
}

#[test]
fn error_kinds_have_descriptions() {
    assert_eq!(LogParserError::Other("too long".to_string()).description(), "too long");
    assert_eq!(
        LogParserError::StepLimit.description(),
        "more steps or error lines than can be counted"
    );
    assert_eq!(
        LogParserError::JsonLimit.description(),
        "json payload beyond the limits that are read"
    );
    let bad = rustc_serialize::json::Json::from_str("{").unwrap_err();
    assert_eq!(LogParserError::JsonParse(bad).description(), "failed to parse json");
    let bad = regex::Regex::new("(").unwrap_err();
    let expected = bad.to_string();
    assert!(!expected.is_empty());
    assert_eq!(LogParserError::Pattern(bad).description(), expected);
}
