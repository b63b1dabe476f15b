//! What can go wrong, and how each failure is worded.

use vstd::prelude::*;
use crate::decimal::NumberError;

verus! {

/// A failure of the library's own rules. Failures of the outside world (a
/// file that cannot be read, a notification that cannot be sent) are not
/// among them: they never reach the library.
#[derive(Debug, PartialEq, Eq)]
pub enum Error {
    /// None of the places where the configuration may lie holds a file.
    ConfigNotFound,
    /// The configuration does not say where the state file lies.
    StateFileUnset,
    /// The state names its current song by something that is no position.
    /// `text` is what follows the marker, as it stands in the line.
    InvalidIndex { text: String, cause: NumberError },
    /// The state names no current song, or none that its playlist holds.
    NoCurrentSong,
    /// The state file was announced and did not appear in time.
    StateFileAbsent { path: String },
    /// The watch loop was handed an event that it was not waiting for.
    UnexpectedEvent,
}

/// An `Error` with its texts as sequences of characters.
pub enum ErrorView {
    ConfigNotFound,
    StateFileUnset,
    InvalidIndex { text: Seq<char>, cause: NumberError },
    NoCurrentSong,
    StateFileAbsent { path: Seq<char> },
    UnexpectedEvent,
}

impl View for Error {
    type V = ErrorView;

    open spec fn view(&self) -> ErrorView {
        match *self {
            Error::ConfigNotFound => ErrorView::ConfigNotFound,
            Error::StateFileUnset => ErrorView::StateFileUnset,
            Error::InvalidIndex { text, cause } => ErrorView::InvalidIndex { text: text@, cause },
            Error::NoCurrentSong => ErrorView::NoCurrentSong,
            Error::StateFileAbsent { path } => ErrorView::StateFileAbsent { path: path@ },
            Error::UnexpectedEvent => ErrorView::UnexpectedEvent,
        }
    }
}

/// `text` between two backticks, behind `lead`.
pub open spec fn quoting(lead: Seq<char>, text: Seq<char>) -> Seq<char> {
    lead + seq!['`'] + text + seq!['`']
}

/// The wording of a text that is no number.
pub open spec fn number_message_of(e: NumberError) -> Seq<char> {
    match e {
        NumberError::Empty => "cannot parse integer from empty string"@,
        NumberError::InvalidDigit => "invalid digit found in string"@,
        NumberError::Overflow => "number too large to fit in target type"@,
    }
}

/// The wording of a failure.
pub open spec fn message_of(e: ErrorView) -> Seq<char> {
    match e {
        ErrorView::ConfigNotFound => "failed to find MPD configuration file"@,
        ErrorView::StateFileUnset => "MPD configuration does not specify `state_file`"@,
        ErrorView::InvalidIndex { text, cause } => quoting(
            "failed to parse current song index "@,
            text,
        ),
        ErrorView::NoCurrentSong =>
            "failed to find currently playing song in MPD state file contents"@,
        ErrorView::StateFileAbsent { path } => quoting("failed to find MPD state file at "@, path),
        ErrorView::UnexpectedEvent => "the watch loop received an event out of turn"@,
    }
}

/// The wording of what lies behind a failure, where something does.
pub open spec fn cause_of(e: ErrorView) -> Option<Seq<char>> {
    match e {
        ErrorView::InvalidIndex { text, cause } => Some(number_message_of(cause)),
        _ => None,
    }
}

/// Writes `text` between two backticks, behind `lead`.
pub fn quote(lead: &str, text: &str) -> (r: String)
    ensures
        r@ == quoting(lead@, text@),
{
    let mut r = String::from_str(lead);
    r.push('`');
    r.append(text);
    r.push('`');
    r
}

impl NumberError {
    /// Words the failure.
    pub fn message(&self) -> (r: String)
        ensures
            r@ == number_message_of(*self),
    {
        match self {
            NumberError::Empty => String::from_str("cannot parse integer from empty string"),
            NumberError::InvalidDigit => String::from_str("invalid digit found in string"),
            NumberError::Overflow => String::from_str("number too large to fit in target type"),
        }
    }
}

impl Error {
    /// Words the failure.
    pub fn message(&self) -> (r: String)
        ensures
            r@ == message_of(self@),
    {
        match self {
            Error::ConfigNotFound => String::from_str("failed to find MPD configuration file"),
            Error::StateFileUnset => String::from_str(
                "MPD configuration does not specify `state_file`",
            ),
            Error::InvalidIndex { text, cause } => quote(
                "failed to parse current song index ",
                text.as_str(),
            ),
            Error::NoCurrentSong => String::from_str(
                "failed to find currently playing song in MPD state file contents",
            ),
            Error::StateFileAbsent { path } => quote(
                "failed to find MPD state file at ",
                path.as_str(),
            ),
            Error::UnexpectedEvent => String::from_str(
                "the watch loop received an event out of turn",
            ),
        }
    }

    /// Words what lies behind the failure, where something does.
    pub fn cause(&self) -> (r: Option<String>)
        ensures
            match r {
                Some(text) => cause_of(self@) == Some(text@),
                None => cause_of(self@) is None,
            },
    {
        match self {
            Error::InvalidIndex { text, cause } => Some(cause.message()),
            _ => None,
        }
    }
}

} // verus!
