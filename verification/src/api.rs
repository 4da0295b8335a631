//! Status events that the appliance manager reports to the display.

use vstd::prelude::*;

verus! {

/// Largest value of a progress percentage.
pub const MAX_PERCENT: u8 = 100;

/// A status event. Every variant carries the text to show.
#[derive(Debug, Clone, PartialEq, Eq)]
pub enum Request {
    /// Information message
    Info { text: String },
    /// Informational message with progress bar update
    ProgressInfo { text: String, percent: u8 },
    /// Informational message indicating successful boot up
    ReadyInfo { text: String },
    /// Warning message
    Warning { text: String },
    /// Error message
    Error { text: String },
    /// Output of a command
    CommandOutput { text: String },
}

/// A status event as a mathematical value.
pub enum RequestView {
    Info { text: Seq<char> },
    ProgressInfo { text: Seq<char>, percent: u8 },
    ReadyInfo { text: Seq<char> },
    Warning { text: Seq<char> },
    Error { text: Seq<char> },
    CommandOutput { text: Seq<char> },
}

impl View for Request {
    type V = RequestView;

    open spec fn view(&self) -> RequestView {
        match self {
            Request::Info { text } => RequestView::Info { text: text@ },
            Request::ProgressInfo { text, percent } => RequestView::ProgressInfo {
                text: text@,
                percent: *percent,
            },
            Request::ReadyInfo { text } => RequestView::ReadyInfo { text: text@ },
            Request::Warning { text } => RequestView::Warning { text: text@ },
            Request::Error { text } => RequestView::Error { text: text@ },
            Request::CommandOutput { text } => RequestView::CommandOutput { text: text@ },
        }
    }
}

/// `percent`, or the largest percentage where it exceeds that.
pub open spec fn clamped(percent: int) -> u8 {
    if percent > MAX_PERCENT {
        MAX_PERCENT
    } else if percent < 0 {
        0
    } else {
        percent as u8
    }
}

/// `percent`, or the largest percentage where it exceeds that.
pub fn clamp_percent(percent: u8) -> (kept: u8)
    ensures
        kept == clamped(percent as int),
        kept <= MAX_PERCENT,
{
    if percent > MAX_PERCENT {
        MAX_PERCENT
    } else {
        percent
    }
}

impl RequestView {
    /// The text that the event carries.
    pub open spec fn text(self) -> Seq<char> {
        match self {
            RequestView::Info { text } => text,
            RequestView::ProgressInfo { text, .. } => text,
            RequestView::ReadyInfo { text } => text,
            RequestView::Warning { text } => text,
            RequestView::Error { text } => text,
            RequestView::CommandOutput { text } => text,
        }
    }

    /// The percentage that the event carries, if it is a progress event.
    pub open spec fn percent(self) -> Option<u8> {
        match self {
            RequestView::ProgressInfo { percent, .. } => Some(percent),
            _ => None,
        }
    }

    /// The word that names the variant on the wire.
    pub open spec fn discriminator(self) -> Seq<char> {
        match self {
            RequestView::Info { .. } => "info"@,
            RequestView::ProgressInfo { .. } => "progress_info"@,
            RequestView::ReadyInfo { .. } => "ready_info"@,
            RequestView::Warning { .. } => "warning"@,
            RequestView::Error { .. } => "error"@,
            RequestView::CommandOutput { .. } => "command_output"@,
        }
    }

    /// The event as a producer sends it: a progress percentage is brought
    /// into range, everything else stays.
    pub open spec fn normalized(self) -> RequestView {
        match self {
            RequestView::ProgressInfo { text, percent } => RequestView::ProgressInfo {
                text,
                percent: clamped(percent as int),
            },
            _ => self,
        }
    }
}

impl Request {
    /// A progress event for `text`, with `percent` brought into range.
    pub fn progress(text: String, percent: u8) -> (request: Request)
        ensures
            request@ == (RequestView::ProgressInfo { text: text@, percent: clamped(percent as int) }),
    {
        Request::ProgressInfo { text, percent: clamp_percent(percent) }
    }

    /// The text that the event carries.
    pub fn text(&self) -> (text: &String)
        ensures
            text@ == self@.text(),
    {
        match self {
            Request::Info { text } => text,
            Request::ProgressInfo { text, .. } => text,
            Request::ReadyInfo { text } => text,
            Request::Warning { text } => text,
            Request::Error { text } => text,
            Request::CommandOutput { text } => text,
        }
    }

    /// The percentage that the event carries, if it is a progress event.
    pub fn percent(&self) -> (percent: Option<u8>)
        ensures
            percent == self@.percent(),
    {
        match self {
            Request::ProgressInfo { percent, .. } => Some(*percent),
            _ => None,
        }
    }

    /// The event as a producer sends it: a progress percentage is brought
    /// into range, everything else stays.
    pub fn normalized(&self) -> (request: Request)
        ensures
            request@ == self@.normalized(),
    {
        match self {
            Request::Info { text } => Request::Info { text: text.clone() },
            Request::ProgressInfo { text, percent } => Request::ProgressInfo {
                text: text.clone(),
                percent: clamp_percent(*percent),
            },
            Request::ReadyInfo { text } => Request::ReadyInfo { text: text.clone() },
            Request::Warning { text } => Request::Warning { text: text.clone() },
            Request::Error { text } => Request::Error { text: text.clone() },
            Request::CommandOutput { text } => Request::CommandOutput { text: text.clone() },
        }
    }

    /// Whether this event and `other` are the same: the same variant with
    /// the same text and, for progress events, the same percentage.
    pub fn same_as(&self, other: &Request) -> (same: bool)
        ensures
            same == (self@ == other@),
    {
        match (self, other) {
            (Request::Info { text: a }, Request::Info { text: b }) => *a == *b,
            (
                Request::ProgressInfo { text: a, percent: p },
                Request::ProgressInfo { text: b, percent: q },
            ) => *a == *b && *p == *q,
            (Request::ReadyInfo { text: a }, Request::ReadyInfo { text: b }) => *a == *b,
            (Request::Warning { text: a }, Request::Warning { text: b }) => *a == *b,
            (Request::Error { text: a }, Request::Error { text: b }) => *a == *b,
            (Request::CommandOutput { text: a }, Request::CommandOutput { text: b }) => *a == *b,
            _ => false,
        }
    }

    /// The word that names the variant on the wire.
    pub fn discriminator(&self) -> (word: &'static str)
        ensures
            word@ == self@.discriminator(),
    {
        match self {
            Request::Info { .. } => "info",
            Request::ProgressInfo { .. } => "progress_info",
            Request::ReadyInfo { .. } => "ready_info",
            Request::Warning { .. } => "warning",
            Request::Error { .. } => "error",
            Request::CommandOutput { .. } => "command_output",
        }
    }
}

/// What the display does with a status event.
#[derive(Debug, Clone, PartialEq, Eq)]
pub enum DisplayUpdate {
    /// Show the text and hide the progress bar.
    Message { text: String },
    /// Show the text and the progress bar at `percent`.
    Progress { text: String, percent: u8 },
    /// Show the text as the output of the running command; an empty text
    /// clears it.
    CommandOutput { text: String },
}

/// A display update as a mathematical value.
pub enum DisplayUpdateView {
    Message { text: Seq<char> },
    Progress { text: Seq<char>, percent: u8 },
    CommandOutput { text: Seq<char> },
}

impl View for DisplayUpdate {
    type V = DisplayUpdateView;

    open spec fn view(&self) -> DisplayUpdateView {
        match self {
            DisplayUpdate::Message { text } => DisplayUpdateView::Message { text: text@ },
            DisplayUpdate::Progress { text, percent } => DisplayUpdateView::Progress {
                text: text@,
                percent: *percent,
            },
            DisplayUpdate::CommandOutput { text } => DisplayUpdateView::CommandOutput {
                text: text@,
            },
        }
    }
}

/// What the display does with `event`.
pub open spec fn display_update(event: RequestView) -> DisplayUpdateView {
    match event {
        RequestView::ProgressInfo { text, percent } => DisplayUpdateView::Progress {
            text,
            percent: clamped(percent as int),
        },
        RequestView::CommandOutput { text } => DisplayUpdateView::CommandOutput { text },
        _ => DisplayUpdateView::Message { text: event.text() },
    }
}

/// Decides what the display does with a status event. A percentage out of
/// range is not trusted: the progress bar never gets more than the largest.
pub fn handle_ipc_event(ipc_event: Request) -> (update: DisplayUpdate)
    ensures
        update@ == display_update(ipc_event@),
{
    match ipc_event {
        Request::ProgressInfo { text, percent } => DisplayUpdate::Progress {
            text,
            percent: clamp_percent(percent),
        },
        Request::ReadyInfo { text } => DisplayUpdate::Message { text },
        Request::Info { text } => DisplayUpdate::Message { text },
        Request::Warning { text } => DisplayUpdate::Message { text },
        Request::Error { text } => DisplayUpdate::Message { text },
        Request::CommandOutput { text } => DisplayUpdate::CommandOutput { text },
    }
}

} // verus!
