//! The request descriptor and its builder.
//!
//! A `RequestSpec` is built fresh per dispatch from the current content of
//! the two text fields: the URL is field 0's first line, taken verbatim; the
//! body, present only when field 1's first line is non-empty, is the
//! concatenation of all of field 1's lines parsed as JSON. Building is a pure
//! function of the field contents; a body that does not parse is rejected
//! with `BodyParse` before anything reaches the worker.

use vstd::prelude::*;
use crate::errors::ErrorKind;
use crate::json::{json_parse_of, json_parses};

verus! {

/// Every built request carries this fixed timeout.
pub const REQUEST_TIMEOUT_SECS: u64 = 5;

/// The HTTP method of a dispatch.
#[derive(Debug, Clone, Copy, PartialEq, Eq, Structural)]
pub enum Method {
    Get,
    Post,
}

/// Immutable description of one HTTP call to perform.
#[derive(Debug)]
pub struct RequestSpec {
    pub method: Method,
    pub url: String,
    pub body: Option<serde_json::Value>,
    pub timeout_secs: u64,
}

/// All lines of a field, concatenated without separators.
pub open spec fn joined_lines(lines: Seq<Seq<char>>) -> Seq<char>
    decreases lines.len(),
{
    if lines.len() == 0 {
        Seq::<char>::empty()
    } else {
        joined_lines(lines.drop_last()) + lines.last()
    }
}

/// Whether the body field carries a body: its first line is non-empty.
pub open spec fn has_body(body_lines: Seq<Seq<char>>) -> bool {
    body_lines.len() > 0 && body_lines[0].len() > 0
}

/// What building a request from the given field contents returns.
pub open spec fn built_request(
    method: Method,
    url_line: Seq<char>,
    body_lines: Seq<Seq<char>>,
    r: Result<RequestSpec, ErrorKind>,
) -> bool {
    if !has_body(body_lines) {
        &&& r matches Ok(s)
        &&& s.method == method
        &&& s.url@ == url_line
        &&& s.body is None
        &&& s.timeout_secs == REQUEST_TIMEOUT_SECS
    } else {
        match json_parse_of(joined_lines(body_lines)) {
            Ok(v) => {
                &&& r matches Ok(s)
                &&& s.method == method
                &&& s.url@ == url_line
                &&& s.body == Some(v)
                &&& s.timeout_secs == REQUEST_TIMEOUT_SECS
            },
            Err(m) => {
                &&& r matches Err(e)
                &&& e matches ErrorKind::BodyParse(detail)
                &&& detail@ == m
            },
        }
    }
}

/// Build a request descriptor from the two fields, or reject the body text.
///
/// The URL is field 0's first line, verbatim. The body is attached only when
/// field 1's first line is non-empty, and is the concatenation of all of
/// field 1's lines; text the JSON parser rejects yields `BodyParse` with the
/// parser's message. No side effects: a pure function of the field contents.
pub fn build_request(
    method: Method,
    url_lines: &Vec<String>,
    body_lines: &Vec<String>,
) -> (r: Result<RequestSpec, ErrorKind>)
    requires
        url_lines@.len() >= 1,
        body_lines@.len() >= 1,
    ensures
        built_request(method, url_lines@[0]@, body_lines@.map_values(|l: String| l@), r),
{
    let ghost lines_view = body_lines@.map_values(|l: String| l@);
    let url = url_lines[0].clone();
    if body_lines[0].as_str().is_empty() {
        assert(!has_body(lines_view));
        Ok(RequestSpec { method, url, body: None, timeout_secs: REQUEST_TIMEOUT_SECS })
    } else {
        let text = join_lines(body_lines);
        match crate::json::parse_json(text.as_str()) {
            Ok(v) => Ok(RequestSpec {
                method,
                url,
                body: Some(v),
                timeout_secs: REQUEST_TIMEOUT_SECS,
            }),
            Err(m) => Err(ErrorKind::BodyParse(m)),
        }
    }
}

/// Concatenate all lines of a field, in order, without separators.
pub fn join_lines(lines: &Vec<String>) -> (text: String)
    ensures
        text@ == joined_lines(lines@.map_values(|l: String| l@)),
{
    let ghost lines_view = lines@.map_values(|l: String| l@);
    let mut text = String::new();
    let mut i: usize = 0;
    while i < lines.len()
        invariant
            i <= lines@.len(),
            lines_view == lines@.map_values(|l: String| l@),
            text@ == joined_lines(lines_view.take(i as int)),
        decreases lines@.len() - i,
    {
        text.append(lines[i].as_str());
        proof {
            assert(lines_view.take(i + 1).drop_last() =~= lines_view.take(i as int));
            assert(lines_view.take(i + 1).last() == lines_view[i as int]);
        }
        i += 1;
    }
    proof {
        assert(lines_view.take(lines_view.len() as int) =~= lines_view);
    }
    text
}

/// A non-empty body field builds a request exactly when its text parses as
/// JSON; text the parser rejects is reported as `BodyParse` and nothing else.
pub proof fn lemma_build_succeeds_iff_body_parses(
    method: Method,
    url_line: Seq<char>,
    body_lines: Seq<Seq<char>>,
    r: Result<RequestSpec, ErrorKind>,
)
    requires
        has_body(body_lines),
        built_request(method, url_line, body_lines, r),
    ensures
        r is Ok <==> json_parses(joined_lines(body_lines)),
        r matches Err(e) ==> e is BodyParse,
{
}

} // verus!
