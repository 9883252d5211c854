//! The error taxonomy of one dispatch.
//!
//! `BodyParse` is raised before dispatch, inside the UI task; `Transport` and
//! `ResponseParse` are raised by the worker and travel back as the `Err` arm
//! of a dispatch result. None of them is fatal: each is rendered in the
//! response pane as the object `{"Request error": <message>}`.

use vstd::prelude::*;
use vstd::string::StringExecFns;

verus! {

/// Why one dispatch failed, with the underlying message.
#[derive(Debug)]
pub enum ErrorKind {
    /// The body field's text is not valid JSON; detected before dispatch.
    BodyParse(String),
    /// The HTTP exchange itself failed (connection, DNS, timeout).
    Transport(String),
    /// The HTTP response body could not be parsed as JSON.
    ResponseParse(String),
}

/// The human message shown for a rejected body text.
pub open spec fn body_parse_message(detail: Seq<char>) -> Seq<char> {
    "Error parsing JSON: "@ + detail
}

/// The human message shown for a failed exchange.
pub open spec fn transport_message(detail: Seq<char>) -> Seq<char> {
    "Error sending request: "@ + detail
}

/// The human message shown for a response body that is not JSON.
pub open spec fn response_parse_message(detail: Seq<char>) -> Seq<char> {
    "Error parsing JSON: "@ + detail
}

impl ErrorKind {
    /// The underlying message, without the prefix.
    pub open spec fn detail(self) -> Seq<char> {
        match self {
            ErrorKind::BodyParse(m) => m@,
            ErrorKind::Transport(m) => m@,
            ErrorKind::ResponseParse(m) => m@,
        }
    }

    /// The human message shown in the response pane for this error.
    pub open spec fn ui_message(self) -> Seq<char> {
        match self {
            ErrorKind::BodyParse(m) => body_parse_message(m@),
            ErrorKind::Transport(m) => transport_message(m@),
            ErrorKind::ResponseParse(m) => response_parse_message(m@),
        }
    }

    /// Render the human message for the response pane.
    pub fn render_message(&self) -> (s: String)
        ensures
            s@ == self.ui_message(),
    {
        match self {
            ErrorKind::BodyParse(m) => {
                let mut s = "Error parsing JSON: ".to_owned();
                s.append(m.as_str());
                s
            },
            ErrorKind::Transport(m) => {
                let mut s = "Error sending request: ".to_owned();
                s.append(m.as_str());
                s
            },
            ErrorKind::ResponseParse(m) => {
                let mut s = "Error parsing JSON: ".to_owned();
                s.append(m.as_str());
                s
            },
        }
    }
}

} // verus!
