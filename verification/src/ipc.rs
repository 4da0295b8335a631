//! The two ends of the status channel: what a producer writes, and what a
//! consumer does with what it reads.

use vstd::prelude::*;
use crate::api::{Request, RequestView};
use crate::text::{get_last_line, last_line};
use crate::wire::{decoded, json_fields, DecodeError};

verus! {

/// Seconds that a producer waits for its connection.
pub const CONNECT_TIMEOUT: u64 = 1;

/// Seconds that the server pauses after it failed to accept a connection.
pub const ACCEPT_PAUSE: u64 = 1;

/// What a reader does after a read from its connection.
#[derive(Debug, Clone, PartialEq, Eq)]
pub enum Reception {
    /// Hand the event on to the display and read on.
    Forward(Request),
    /// The producer has closed the connection: close it here too.
    End,
    /// The line is no status event: close the connection with this error.
    /// Other connections are not touched.
    Reject(DecodeError),
}

/// What a reader does after a read, as a mathematical value.
pub enum ReceptionView {
    Forward(RequestView),
    End,
    Reject(DecodeError),
}

impl View for Reception {
    type V = ReceptionView;

    open spec fn view(&self) -> ReceptionView {
        match self {
            Reception::Forward(request) => ReceptionView::Forward(request@),
            Reception::End => ReceptionView::End,
            Reception::Reject(error) => ReceptionView::Reject(*error),
        }
    }
}

/// What a reader does after it has read `line`, given what `serde_json`
/// read in it. A read that brings nothing is the end of the stream.
pub open spec fn reception(
    line: Seq<char>,
    parsed: Option<Seq<crate::wire::FieldView>>,
) -> ReceptionView {
    if line.len() == 0 {
        ReceptionView::End
    } else {
        match decoded(parsed) {
            Ok(request) => ReceptionView::Forward(request),
            Err(error) => ReceptionView::Reject(error),
        }
    }
}

/// Decides what a reader does after it has read `line` from its
/// connection: a line with its line feed, or nothing at the end of the
/// stream.
pub fn handle_client(line: &str) -> (next: Reception)
    ensures
        next@ == reception(line@, json_fields(line@)),
{
    if line.is_empty() {
        return Reception::End;
    }
    match Request::decode(line) {
        Ok(request) => Reception::Forward(request),
        Err(error) => Reception::Reject(error),
    }
}

/// What the server does after an attempt to accept a connection.
#[derive(Debug, Clone, Copy, PartialEq, Eq, Structural)]
pub enum Acceptance {
    /// Read the new connection, on a thread of its own.
    Serve,
    /// Pause for so many seconds, then accept again.
    Pause { seconds: u64 },
}

/// Decides what the server does after an attempt to accept a connection:
/// a failure never ends the server.
pub fn after_accept(accepted: bool) -> (next: Acceptance)
    ensures
        next == (if accepted {
            Acceptance::Serve
        } else {
            Acceptance::Pause { seconds: ACCEPT_PAUSE }
        }),
{
    if accepted {
        Acceptance::Serve
    } else {
        Acceptance::Pause { seconds: ACCEPT_PAUSE }
    }
}

/// The status event that shows the output of a running command so far: its
/// last line.
pub fn command_output_request(output: &str) -> (request: Request)
    ensures
        request@ == (RequestView::CommandOutput { text: last_line(output@) }),
{
    Request::CommandOutput { text: get_last_line(output) }
}

} // verus!
