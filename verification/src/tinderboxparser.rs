//! The job-detail parser: one annotation for each `TinderboxPrint` line.

use vstd::prelude::*;
use regex::Regex;
use rustc_serialize::json::Json;
use crate::json::{json_outcome, read_json};
use crate::logparser::{LogParser, LogParserError};
use crate::patterns::{
    captures, compile, first_error, groups_of, pattern_captures, pattern_error, regex_source,
    sources_of,
};
use crate::text::{optional_text, split_first, split_first_of};

verus! {

/// A line that carries an annotation, with the annotation's payload.
pub const RE_TINDERBOXPRINT: &'static str = "TinderboxPrint: ?(?P<line>.*)$";

/// A payload that carries a talos result.
pub const RE_TALOSRESULT: &'static str = "^TalosResult: ?(?P<value>.*)";

/// A payload that announces an uploaded artifact.
pub const RE_UPLOADED_TO: &'static str =
    "<a href=['\"](?P<url>http(s)?://.*)['\"]>(?P<value>.+)</a>: uploaded";

/// A payload that holds an HTML anchor, with a title or without.
pub const RE_LINK_HTML: &'static str =
    "((?P<title>[A-Za-z/\\.0-9-_ ]+): )?<a .*href=['\"](?P<url>http(s)?://.+)['\"].*>(?P<value>.+)</a>";

/// A payload that holds a bare address, with a title or without.
pub const RE_LINK_TEXT: &'static str = "((?P<title>[A-Za-z/\\.0-9-_ ]+): )?(?P<url>http(s)?://.*)";

/// The title of a talos result.
pub const TALOS_TITLE: &'static str = "TalosResult";

/// The title of an uploaded artifact.
pub const UPLOADED_TITLE: &'static str = "artifact uploaded";

/// The payload that stands for a talos result without one.
pub const EMPTY_RESULT: &'static str = "{}";

/// The separator between the title and the value of a raw annotation.
pub const LINE_BREAK: &'static str = "<br/>";

/// The kind of an annotation's content.
#[derive(Debug, Clone, Copy, PartialEq, Eq, Structural)]
pub enum ContentType {
    TalosResult,
    Link,
    RawHtml,
}

impl ContentType {
    /// The word under which each kind is reported.
    pub open spec fn word(&self) -> Seq<char> {
        match self {
            ContentType::TalosResult => "TalosResult"@,
            ContentType::Link => "link"@,
            ContentType::RawHtml => "raw_html"@,
        }
    }

    /// The word under which this kind is reported.
    pub fn label(&self) -> (r: &'static str)
        ensures
            r@ == self.word(),
    {
        match self {
            ContentType::TalosResult => "TalosResult",
            ContentType::Link => "link",
            ContentType::RawHtml => "raw_html",
        }
    }
}

/// The value of an annotation.
#[derive(Debug)]
pub enum DetailValue {
    /// A structured value that was read from JSON.
    Parsed(Json),
    /// A text.
    Text(String),
    /// No value.
    Absent,
}

/// The value of an annotation as a mathematical value.
pub enum DetailValueView {
    Parsed(Json),
    Text(Seq<char>),
    Absent,
}

impl View for DetailValue {
    type V = DetailValueView;

    open spec fn view(&self) -> DetailValueView {
        match self {
            DetailValue::Parsed(value) => DetailValueView::Parsed(*value),
            DetailValue::Text(text) => DetailValueView::Text(text@),
            DetailValue::Absent => DetailValueView::Absent,
        }
    }
}

/// One annotation of a job.
#[derive(Debug)]
pub struct TinderboxData {
    pub title: Option<String>,
    pub content_type: ContentType,
    pub url: Option<String>,
    pub value: DetailValue,
}

/// One annotation as a mathematical value.
pub struct TinderboxDataView {
    pub title: Option<Seq<char>>,
    pub content_type: ContentType,
    pub url: Option<Seq<char>>,
    pub value: DetailValueView,
}

impl View for TinderboxData {
    type V = TinderboxDataView;

    open spec fn view(&self) -> TinderboxDataView {
        TinderboxDataView {
            title: optional_text(self.title),
            content_type: self.content_type,
            url: optional_text(self.url),
            value: self.value@,
        }
    }
}

impl TinderboxData {
    pub fn new(
        title: Option<String>,
        content_type: ContentType,
        value: DetailValue,
        url: Option<String>,
    ) -> (r: TinderboxData)
        ensures
            r.title == title,
            r.content_type == content_type,
            r.value == value,
            r.url == url,
    {
        TinderboxData { title, content_type, url, value }
    }
}

/// The annotations of a sequence as mathematical values.
pub open spec fn detail_views(details: Seq<TinderboxData>) -> Seq<TinderboxDataView> {
    details.map_values(|d: TinderboxData| d@)
}

/// The name of the group that holds an annotation's payload.
pub open spec fn print_group_names() -> Seq<Seq<char>> {
    seq!["line"@]
}

/// The name of the group that holds a talos result's value.
pub open spec fn talos_group_names() -> Seq<Seq<char>> {
    seq!["value"@]
}

/// The names of the groups of a link.
pub open spec fn link_group_names() -> Seq<Seq<char>> {
    seq!["title"@, "value"@, "url"@]
}

/// The annotation of a talos result whose value is `value`.
pub open spec fn talos_detail(value: Json) -> TinderboxDataView {
    TinderboxDataView {
        title: Some(TALOS_TITLE@),
        content_type: ContentType::TalosResult,
        url: None,
        value: DetailValueView::Parsed(value),
    }
}

/// The annotation of a link from its captured title, value and address:
/// a missing title is the default title, and a missing value is the address.
pub open spec fn link_detail(groups: Seq<Option<Seq<char>>>, default_title: Option<Seq<char>>) -> TinderboxDataView
    recommends
        groups.len() == 3,
{
    let value = if groups[1].is_none() {
        groups[2]
    } else {
        groups[1]
    };
    TinderboxDataView {
        title: if groups[0].is_none() {
            default_title
        } else {
            groups[0]
        },
        content_type: ContentType::Link,
        url: groups[2],
        value: match value {
            Some(text) => DetailValueView::Text(text),
            None => DetailValueView::Absent,
        },
    }
}

/// The annotation of an uploaded artifact from its captured title, anchor
/// text and address: its title is fixed and its value is the address.
pub open spec fn uploaded_detail(groups: Seq<Option<Seq<char>>>) -> TinderboxDataView
    recommends
        groups.len() == 3,
{
    TinderboxDataView {
        title: Some(UPLOADED_TITLE@),
        content_type: ContentType::Link,
        url: groups[2],
        value: match groups[2] {
            Some(address) => DetailValueView::Text(address),
            None => DetailValueView::Absent,
        },
    }
}

/// The annotation of a payload that is neither a talos result nor a link:
/// what stands before the first line break is the title and what follows it
/// the value; without a line break the whole payload is the value.
pub open spec fn raw_detail(payload: Seq<char>) -> TinderboxDataView {
    match split_first_of(payload, LINE_BREAK@) {
        Some((title, value)) => TinderboxDataView {
            title: Some(title),
            content_type: ContentType::RawHtml,
            url: None,
            value: DetailValueView::Text(value),
        },
        None => TinderboxDataView {
            title: None,
            content_type: ContentType::RawHtml,
            url: None,
            value: DetailValueView::Text(payload),
        },
    }
}

/// The annotation of a payload that is no talos result: the first of the
/// three link patterns that matches decides; where none matches the payload
/// is a raw annotation.
pub open spec fn plain_detail(payload: Seq<char>) -> TinderboxDataView {
    match pattern_captures(RE_UPLOADED_TO@, payload, link_group_names()) {
        Some(groups) => uploaded_detail(groups),
        None => match pattern_captures(RE_LINK_HTML@, payload, link_group_names()) {
            Some(groups) => link_detail(groups, None),
            None => match pattern_captures(RE_LINK_TEXT@, payload, link_group_names()) {
                Some(groups) => link_detail(groups, None),
                None => raw_detail(payload),
            },
        },
    }
}

/// The JSON text of a talos result from what its pattern captured.
pub open spec fn talos_text(groups: Seq<Option<Seq<char>>>) -> Seq<char> {
    match groups[0] {
        Some(text) => text,
        None => EMPTY_RESULT@,
    }
}

/// The annotation of a payload, or the failure to read its talos result.
pub open spec fn payload_detail(payload: Seq<char>) -> Result<TinderboxDataView, LogParserError> {
    match pattern_captures(RE_TALOSRESULT@, payload, talos_group_names()) {
        Some(groups) => match json_outcome(talos_text(groups)) {
            Ok(value) => Ok(talos_detail(value)),
            Err(e) => Err(e),
        },
        None => Ok(plain_detail(payload)),
    }
}

/// The payload of a line that carries an annotation.
pub open spec fn annotation_of(line: Seq<char>) -> Option<Seq<char>> {
    match pattern_captures(RE_TINDERBOXPRINT@, line, print_group_names()) {
        Some(groups) => groups[0],
        None => None,
    }
}

/// The annotations after one more line: the annotation of the line is
/// appended; a line without annotation changes nothing; a malformed talos
/// result fails.
pub open spec fn details_after(details: Seq<TinderboxDataView>, line: Seq<char>) -> Result<
    Seq<TinderboxDataView>,
    LogParserError,
> {
    match annotation_of(line) {
        Some(payload) => match payload_detail(payload) {
            Ok(detail) => Ok(details.push(detail)),
            Err(e) => Err(e),
        },
        None => Ok(details),
    }
}

/// Why the patterns of the job-detail parser do not compile: the failure
/// of the first of them that does not, or nothing where all compile.
pub open spec fn detail_patterns_error() -> Option<regex::Error> {
    first_error(
        pattern_error(RE_TINDERBOXPRINT@),
        first_error(
            pattern_error(RE_TALOSRESULT@),
            first_error(
                pattern_error(RE_UPLOADED_TO@),
                first_error(pattern_error(RE_LINK_HTML@), pattern_error(RE_LINK_TEXT@)),
            ),
        ),
    )
}

/// The compiled patterns of the job-detail parser.
pub struct DetailPatterns {
    print: Regex,
    talos: Regex,
    uploaded: Regex,
    link_html: Regex,
    link_text: Regex,
}

impl DetailPatterns {
    /// Each compiled pattern was built from its text.
    pub closed spec fn wf(&self) -> bool {
        &&& regex_source(&self.print) == RE_TINDERBOXPRINT@
        &&& regex_source(&self.talos) == RE_TALOSRESULT@
        &&& regex_source(&self.uploaded) == RE_UPLOADED_TO@
        &&& regex_source(&self.link_html) == RE_LINK_HTML@
        &&& regex_source(&self.link_text) == RE_LINK_TEXT@
    }

    /// Compiles the patterns; fails with the failure of the first of them,
    /// in the order marker, talos result, uploaded artifact, HTML link,
    /// text link, that does not compile.
    pub fn new() -> (r: Result<DetailPatterns, regex::Error>)
        ensures
            match r {
                Ok(p) => detail_patterns_error().is_none() && p.wf(),
                Err(e) => detail_patterns_error() == Some(e),
            },
    {
        let print = match compile(RE_TINDERBOXPRINT) {
            Ok(re) => re,
            Err(e) => { return Err(e); },
        };
        let talos = match compile(RE_TALOSRESULT) {
            Ok(re) => re,
            Err(e) => { return Err(e); },
        };
        let uploaded = match compile(RE_UPLOADED_TO) {
            Ok(re) => re,
            Err(e) => { return Err(e); },
        };
        let link_html = match compile(RE_LINK_HTML) {
            Ok(re) => re,
            Err(e) => { return Err(e); },
        };
        let link_text = match compile(RE_LINK_TEXT) {
            Ok(re) => re,
            Err(e) => { return Err(e); },
        };
        Ok(DetailPatterns { print, talos, uploaded, link_html, link_text })
    }
}

/// The annotation of a link from its captured title, value and address.
pub fn link(groups: Vec<Option<String>>, default_title: Option<&str>) -> (r: TinderboxData)
    requires
        groups@.len() == 3,
    ensures
        r@ == link_detail(
            groups_of(groups@),
            match default_title {
                Some(t) => Some(t@),
                None => None,
            },
        ),
{
    let mut groups = groups;
    let ghost before = groups_of(groups@);
    let url = groups.pop().unwrap();
    let captured = groups.pop().unwrap();
    let found_title = groups.pop().unwrap();
    assert(before[2] == optional_text(url));
    assert(before[1] == optional_text(captured));
    assert(before[0] == optional_text(found_title));
    let title = match found_title {
        Some(t) => Some(t),
        None => match default_title {
            Some(t) => Some(t.to_owned()),
            None => None,
        },
    };
    let value = match captured {
        Some(text) => DetailValue::Text(text),
        None => match &url {
            Some(address) => DetailValue::Text(address.clone()),
            None => DetailValue::Absent,
        },
    };
    TinderboxData::new(title, ContentType::Link, value, url)
}

/// The annotation of an uploaded artifact from its captured title, anchor
/// text and address.
pub fn uploaded(groups: Vec<Option<String>>) -> (r: TinderboxData)
    requires
        groups@.len() == 3,
    ensures
        r@ == uploaded_detail(groups_of(groups@)),
{
    let mut groups = groups;
    let ghost before = groups_of(groups@);
    let url = groups.pop().unwrap();
    assert(before[2] == optional_text(url));
    let value = match &url {
        Some(address) => DetailValue::Text(address.clone()),
        None => DetailValue::Absent,
    };
    TinderboxData::new(Some(UPLOADED_TITLE.to_owned()), ContentType::Link, value, url)
}

/// The annotation of a payload that is neither a talos result nor a link.
pub fn raw(payload: &str) -> (r: TinderboxData)
    ensures
        r@ == raw_detail(payload@),
{
    match split_first(payload, LINE_BREAK) {
        Some((title, value)) => TinderboxData::new(
            Some(title),
            ContentType::RawHtml,
            DetailValue::Text(value),
            None,
        ),
        None => TinderboxData::new(
            None,
            ContentType::RawHtml,
            DetailValue::Text(payload.to_owned()),
            None,
        ),
    }
}

/// The annotation of a talos result from what its JSON text was read as.
pub fn talos_result(parsed: Result<Json, LogParserError>) -> (r: Result<
    TinderboxData,
    LogParserError,
>)
    ensures
        match parsed {
            Ok(value) => r matches Ok(detail) && detail@ == talos_detail(value),
            Err(e) => r matches Err(failure) && failure == e,
        },
{
    match parsed {
        Ok(value) => Ok(
            TinderboxData::new(
                Some(TALOS_TITLE.to_owned()),
                ContentType::TalosResult,
                DetailValue::Parsed(value),
                None,
            ),
        ),
        Err(e) => Err(e),
    }
}

/// The job-detail parser.
pub struct TinderboxParser {
    artifact: Vec<TinderboxData>,
    patterns: DetailPatterns,
}

impl View for TinderboxParser {
    type V = Seq<TinderboxDataView>;

    closed spec fn view(&self) -> Seq<TinderboxDataView> {
        detail_views(self.artifact@)
    }
}

impl TinderboxParser {
    /// The parser holds the compiled patterns.
    pub closed spec fn wf(&self) -> bool {
        self.patterns.wf()
    }

    /// A parser that has seen no line; fails where a pattern is no regular
    /// expression.
    pub fn new() -> (r: Result<TinderboxParser, LogParserError>)
        ensures
            match r {
                Ok(p) => detail_patterns_error().is_none() && p.wf() && p@ == Seq::<
                    TinderboxDataView,
                >::empty(),
                Err(e) => detail_patterns_error() matches Some(failure) && e
                    == LogParserError::Pattern(failure),
            },
    {
        match DetailPatterns::new() {
            Ok(patterns) => {
                let p = TinderboxParser { artifact: Vec::new(), patterns };
                assert(p@ =~= Seq::<TinderboxDataView>::empty());
                Ok(p)
            },
            Err(e) => Err(LogParserError::Pattern(e)),
        }
    }

    /// The payload of a line that carries an annotation.
    pub fn annotation(&self, line: &str) -> (r: Option<String>)
        requires
            self.wf(),
        ensures
            optional_text(r) == annotation_of(line@),
    {
        let names = vec!["line"];
        assert(sources_of(names@) =~= print_group_names());
        match captures(&self.patterns.print, line, &names) {
            Some(groups) => {
                let mut groups = groups;
                let ghost before = groups_of(groups@);
                let payload = groups.pop().unwrap();
                assert(before[0] == optional_text(payload));
                payload
            },
            None => None,
        }
    }

    /// The annotation of a payload that is no talos result.
    pub fn plain(&self, payload: &str) -> (r: TinderboxData)
        requires
            self.wf(),
        ensures
            r@ == plain_detail(payload@),
    {
        let names = vec!["title", "value", "url"];
        assert(sources_of(names@) =~= link_group_names());
        match captures(&self.patterns.uploaded, payload, &names) {
            Some(groups) => { return uploaded(groups); },
            None => {},
        }
        match captures(&self.patterns.link_html, payload, &names) {
            Some(groups) => { return link(groups, None); },
            None => {},
        }
        match captures(&self.patterns.link_text, payload, &names) {
            Some(groups) => { return link(groups, None); },
            None => {},
        }
        raw(payload)
    }

    /// The annotation of a payload; fails where the payload is a talos
    /// result that is malformed, and only there.
    pub fn detail(&self, payload: &str) -> (r: Result<TinderboxData, LogParserError>)
        requires
            self.wf(),
        ensures
            match payload_detail(payload@) {
                Ok(view) => r matches Ok(detail) && detail@ == view,
                Err(e) => r matches Err(failure) && failure == e,
            },
    {
        let names = vec!["value"];
        assert(sources_of(names@) =~= talos_group_names());
        match captures(&self.patterns.talos, payload, &names) {
            Some(groups) => {
                let mut groups = groups;
                let ghost before = groups_of(groups@);
                let captured = groups.pop().unwrap();
                assert(before[0] == optional_text(captured));
                let parsed = match captured {
                    Some(text) => read_json(text.as_str()),
                    None => read_json(EMPTY_RESULT),
                };
                talos_result(parsed)
            },
            None => Ok(self.plain(payload)),
        }
    }
}

impl LogParser for TinderboxParser {
    type Artifact = Vec<TinderboxData>;

    open spec fn valid(&self) -> bool {
        self.wf()
    }

    open spec fn is_complete(&self) -> bool {
        false
    }

    open spec fn holds_artifact(&self) -> bool {
        self@.len() > 0
    }

    open spec fn key(&self) -> Seq<char> {
        "job_details"@
    }

    open spec fn line_effect(
        &self,
        line: Seq<char>,
        line_number: u32,
        after: Self,
        r: Result<(), LogParserError>,
    ) -> bool {
        match details_after(self@, line) {
            Ok(details) => r is Ok && after@ == details,
            Err(e) => r == Err::<(), LogParserError>(e) && after@ == self@,
        }
    }

    open spec fn finish_effect(&self, last_line_number: u32, after: Self) -> bool {
        after == *self
    }

    open spec fn take_effect(&self, after: Self, artifact: Vec<TinderboxData>) -> bool {
        detail_views(artifact@) == self@ && after@ == Seq::<TinderboxDataView>::empty()
    }

    /// The key under which the artifact is reported.
    fn name(&self) -> (r: &'static str)
        ensures
            r@ == "job_details"@,
    {
        "job_details"
    }

    /// Consumes one line of the log: the annotation of the line, if it
    /// carries one, is appended. It fails where the annotation is a talos
    /// result that is malformed, and only there; nothing is appended then.
    fn parse_line(&mut self, line: &str, line_number: u32) -> (r: Result<(), LogParserError>)
        ensures
            match details_after(old(self)@, line@) {
                Ok(details) => r is Ok && final(self)@ == details,
                Err(e) => r == Err::<(), LogParserError>(e) && final(self)@ == old(self)@,
            },
            final(self).wf(),
    {
        match self.annotation(line) {
            Some(payload) => match self.detail(payload.as_str()) {
                Ok(detail) => {
                    self.artifact.push(detail);
                    assert(self@ =~= old(self)@.push(detail@));
                    Ok(())
                },
                Err(e) => Err(e),
            },
            None => Ok(()),
        }
    }

    /// Hands out the annotations in the order of their lines and leaves
    /// the parser empty.
    fn get_artifact(&mut self) -> (r: Vec<TinderboxData>)
        ensures
            detail_views(r@) == old(self)@,
            final(self)@ == Seq::<TinderboxDataView>::empty(),
            final(self).wf(),
    {
        let mut artifact = Vec::new();
        core::mem::swap(&mut self.artifact, &mut artifact);
        assert(self@ =~= Seq::<TinderboxDataView>::empty());
        artifact
    }

    /// Nothing is left open at the end of the log.
    fn finish_parse(&mut self, last_line_number: u32)
        ensures
            *final(self) == *old(self),
    {
    }

    /// This parser never stops before the end of the log.
    fn complete(&self) -> (r: bool)
        ensures
            !r,
    {
        false
    }

    /// Whether an annotation has been collected since the artifact was last
    /// taken.
    fn has_artifact(&self) -> (r: bool)
        ensures
            r == (self@.len() > 0),
    {
        self.artifact.len() > 0
    }
}

} // verus!
