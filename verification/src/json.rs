//! JSON values embedded in log lines, and the test that a payload passes
//! before it is read.

use vstd::prelude::*;
use rustc_serialize::json::Json;
use rustc_serialize::json::ParserError;
use crate::logparser::LogParserError;

verus! {

/// A JSON value, as `rustc_serialize` holds it.
#[verifier::external_type_specification]
#[verifier::external_body]
pub struct ExJson(Json);

/// The reason why a text is no JSON.
#[verifier::external_type_specification]
#[verifier::external_body]
pub struct ExParserError(ParserError);

/// The most bytes of a payload that is read: the reader counts the bytes
/// of object keys in sixteen bits.
pub const MAX_JSON_BYTES: usize = 65535;

/// The deepest nesting of arrays and objects that is read: the reader
/// descends once for each level.
pub const MAX_JSON_DEPTH: u32 = 128;

/// The most digits of an exponent that is read: the reader adds them up
/// in a machine word.
pub const MAX_EXPONENT_DIGITS: u32 = 9;

/// Where a scan of a payload stands: inside a string or not, behind a
/// backslash or not, how deep in arrays and objects, inside the exponent of
/// a number or not and behind how many of its digits, and whether the
/// payload has kept to the limits so far.
#[derive(Debug, Clone, Copy, PartialEq, Eq, Structural)]
pub struct Scan {
    pub in_string: bool,
    pub escaped: bool,
    pub depth: u32,
    pub in_exponent: bool,
    pub digits: u32,
    pub safe: bool,
}

/// The scan before the first byte.
pub open spec fn scan_start() -> Scan {
    Scan {
        in_string: false,
        escaped: false,
        depth: 0,
        in_exponent: false,
        digits: 0,
        safe: true,
    }
}

/// The scan after one more byte. Inside a string only the closing quote
/// and the backslash count. Outside, an opening bracket or brace goes one
/// level down and a closing one goes one level up; `e` or `E` begins an
/// exponent, which signs and digits continue and every other byte ends. The
/// scan is no longer safe once the depth or the digits of an exponent pass
/// their limit.
pub open spec fn scan_step(s: Scan, b: u8) -> Scan {
    if !s.safe {
        s
    } else if s.in_string {
        if s.escaped {
            Scan { escaped: false, ..s }
        } else if b == 0x5c {
            Scan { escaped: true, ..s }
        } else if b == 0x22 {
            Scan { in_string: false, ..s }
        } else {
            s
        }
    } else if b == 0x22 {
        Scan { in_string: true, in_exponent: false, ..s }
    } else if b == 0x5b || b == 0x7b {
        if s.depth >= MAX_JSON_DEPTH {
            Scan { safe: false, ..s }
        } else {
            Scan { depth: (s.depth + 1) as u32, in_exponent: false, ..s }
        }
    } else if b == 0x5d || b == 0x7d {
        Scan {
            depth: if s.depth > 0 {
                (s.depth - 1) as u32
            } else {
                0
            },
            in_exponent: false,
            ..s
        }
    } else if b == 0x65 || b == 0x45 {
        Scan { in_exponent: true, digits: 0, ..s }
    } else if s.in_exponent && (b == 0x2b || b == 0x2d) {
        s
    } else if s.in_exponent && 0x30 <= b <= 0x39 {
        if s.digits >= MAX_EXPONENT_DIGITS {
            Scan { safe: false, ..s }
        } else {
            Scan { digits: (s.digits + 1) as u32, ..s }
        }
    } else {
        Scan { in_exponent: false, ..s }
    }
}

/// The scan after the first `count` bytes.
pub open spec fn scanned(bytes: Seq<u8>, count: int) -> Scan
    decreases count,
{
    if count <= 0 {
        scan_start()
    } else {
        scan_step(scanned(bytes, count - 1), bytes[count - 1])
    }
}

/// Whether a payload keeps to the limits within which it is read: it has
/// no more bytes, no deeper nesting and no longer exponent than the limits
/// allow.
pub open spec fn json_is_safe(text: Seq<char>) -> bool {
    let bytes = vstd::utf8::encode_utf8(text);
    bytes.len() <= MAX_JSON_BYTES && scanned(bytes, bytes.len() as int).safe
}

/// The scan after one more byte.
pub fn step(s: Scan, b: u8) -> (r: Scan)
    ensures
        r == scan_step(s, b),
{
    if !s.safe {
        s
    } else if s.in_string {
        if s.escaped {
            Scan { escaped: false, ..s }
        } else if b == 0x5c {
            Scan { escaped: true, ..s }
        } else if b == 0x22 {
            Scan { in_string: false, ..s }
        } else {
            s
        }
    } else if b == 0x22 {
        Scan { in_string: true, in_exponent: false, ..s }
    } else if b == 0x5b || b == 0x7b {
        if s.depth >= MAX_JSON_DEPTH {
            Scan { safe: false, ..s }
        } else {
            Scan { depth: s.depth + 1, in_exponent: false, ..s }
        }
    } else if b == 0x5d || b == 0x7d {
        Scan {
            depth: if s.depth > 0 {
                s.depth - 1
            } else {
                0
            },
            in_exponent: false,
            ..s
        }
    } else if b == 0x65 || b == 0x45 {
        Scan { in_exponent: true, digits: 0, ..s }
    } else if s.in_exponent && (b == 0x2b || b == 0x2d) {
        s
    } else if s.in_exponent && 0x30 <= b && b <= 0x39 {
        if s.digits >= MAX_EXPONENT_DIGITS {
            Scan { safe: false, ..s }
        } else {
            Scan { digits: s.digits + 1, ..s }
        }
    } else {
        Scan { in_exponent: false, ..s }
    }
}

/// Whether a payload keeps to the limits within which it is read.
pub fn is_safe(text: &str) -> (r: bool)
    ensures
        r == json_is_safe(text@),
{
    let bytes = text.as_bytes();
    if bytes.len() > MAX_JSON_BYTES {
        return false;
    }
    let mut s = Scan {
        in_string: false,
        escaped: false,
        depth: 0,
        in_exponent: false,
        digits: 0,
        safe: true,
    };
    let mut i: usize = 0;
    while i < bytes.len()
        invariant
            i <= bytes@.len(),
            s == scanned(bytes@, i as int),
        decreases bytes@.len() - i,
    {
        s = step(s, bytes[i]);
        i = i + 1;
    }
    s.safe
}

/// The value that a JSON text denotes, or the reason why it denotes none.
pub uninterp spec fn parsed_json(text: Seq<char>) -> Result<Json, ParserError>;

/// Calls `Json::from_str`, which reads a text as one JSON value and fails
/// where the text is malformed. The text keeps to the limits within which
/// the reader neither overflows a counter nor descends without bound.
#[verifier::external_body]
pub(crate) fn parse_json(text: &str) -> (r: Result<Json, ParserError>)
    requires
        json_is_safe(text@),
    ensures
        r == parsed_json(text@),
{
    Json::from_str(text)
}

/// What reading a payload yields: the failure of the limits where the
/// payload does not keep to them, else the value it denotes or the failure
/// to parse it.
pub open spec fn json_outcome(text: Seq<char>) -> Result<Json, LogParserError> {
    if !json_is_safe(text) {
        Err(LogParserError::JsonLimit)
    } else {
        match parsed_json(text) {
            Ok(value) => Ok(value),
            Err(e) => Err(LogParserError::JsonParse(e)),
        }
    }
}

/// Reads a payload as JSON. A payload beyond the limits is not handed to
/// the reader.
pub fn read_json(text: &str) -> (r: Result<Json, LogParserError>)
    ensures
        r == json_outcome(text@),
{
    if !is_safe(text) {
        return Err(LogParserError::JsonLimit);
    }
    match parse_json(text) {
        Ok(value) => Ok(value),
        Err(e) => Err(LogParserError::JsonParse(e)),
    }
}

} // verus!
