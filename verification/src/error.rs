//! The ways in which fetching the metrics fails.

use vstd::prelude::*;
use crate::status::{status_line, status_text};

verus! {

/// Why no metrics were produced. Every failure is final: nothing is retried
/// and no partial result is given.
#[derive(Debug, PartialEq, Eq)]
pub enum FetchError {
    /// The request never got an answer; the text is the transport's own
    /// account of it.
    Transport(String),
    /// The server answered with a status outside 200..=299.
    HttpStatus(u16),
    /// The body is no JSON document of the expected shape.
    Decode,
    /// The document has the expected shape and lists no zone.
    EmptyZones,
}

/// A `FetchError` with its text as a sequence of characters.
pub enum FetchFailure {
    Transport(Seq<char>),
    HttpStatus(u16),
    Decode,
    EmptyZones,
}

impl View for FetchError {
    type V = FetchFailure;

    open spec fn view(&self) -> FetchFailure {
        match self {
            FetchError::Transport(reason) => FetchFailure::Transport(reason@),
            FetchError::HttpStatus(code) => FetchFailure::HttpStatus(*code),
            FetchError::Decode => FetchFailure::Decode,
            FetchError::EmptyZones => FetchFailure::EmptyZones,
        }
    }
}

/// The one line that tells a reader of a failure.
pub open spec fn message_text(failure: FetchFailure) -> Seq<char> {
    match failure {
        FetchFailure::Transport(reason) => reason,
        FetchFailure::HttpStatus(code) => "HTTP request failed with status: "@ + status_text(code),
        FetchFailure::Decode => "error decoding response body"@,
        FetchFailure::EmptyZones => "No zones in response"@,
    }
}

impl FetchError {
    /// The one line that tells a reader of this failure.
    pub fn message(&self) -> (line: String)
        ensures
            line@ == message_text(self@),
    {
        match self {
            FetchError::Transport(reason) => reason.clone(),
            FetchError::HttpStatus(code) => {
                let mut line = String::from_str("HTTP request failed with status: ");
                let status = status_line(*code);
                line.append(status.as_str());
                line
            },
            FetchError::Decode => String::from_str("error decoding response body"),
            FetchError::EmptyZones => String::from_str("No zones in response"),
        }
    }
}

} // verus!
