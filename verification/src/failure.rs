//! What the shell says when the server cannot be started.

use vstd::prelude::*;
use crate::relay::{LogLine, LogLineView, Stream};

verus! {

/// Why the server could not be started. Neither kind is fatal to the shell:
/// the failure is reported once and the application keeps running.
#[derive(Clone, Debug, PartialEq, Eq)]
pub enum LaunchError {
    /// The application's resource directory could not be resolved.
    ResourceDirUnavailable(String),
    /// The server process could not be spawned.
    SpawnFailure(String),
}

/// The mathematical value of a [`LaunchError`].
pub enum LaunchErrorView {
    ResourceDirUnavailable(Seq<char>),
    SpawnFailure(Seq<char>),
}

impl LaunchErrorView {
    /// The underlying message of the failure.
    pub open spec fn message(self) -> Seq<char> {
        match self {
            LaunchErrorView::ResourceDirUnavailable(message) => message,
            LaunchErrorView::SpawnFailure(message) => message,
        }
    }
}

impl View for LaunchError {
    type V = LaunchErrorView;

    open spec fn view(&self) -> LaunchErrorView {
        match self {
            LaunchError::ResourceDirUnavailable(message) => LaunchErrorView::ResourceDirUnavailable(
                message@,
            ),
            LaunchError::SpawnFailure(message) => LaunchErrorView::SpawnFailure(message@),
        }
    }
}

impl LaunchError {
    /// The underlying message of the failure.
    pub fn message(&self) -> (message: &str)
        ensures
            message@ == self@.message(),
    {
        match self {
            LaunchError::ResourceDirUnavailable(message) => message.as_str(),
            LaunchError::SpawnFailure(message) => message.as_str(),
        }
    }
}

/// The words in front of the message of a failed start.
pub open spec fn failure_prefix() -> Seq<char> {
    "Failed to start server: "@
}

/// The diagnostic for a failed start: on standard error, the prefix followed
/// by the underlying message.
pub open spec fn failure_line(error: LaunchErrorView) -> LogLineView {
    LogLineView { stream: Stream::Stderr, text: failure_prefix() + error.message() }
}

/// Decides what to log once the attempt to start the server has ended.
///
/// A failed start gives exactly one diagnostic, on standard error; a
/// successful one gives none. Neither ends the application.
pub fn report_start(outcome: Result<(), LaunchError>) -> (line: Option<LogLine>)
    ensures
        outcome is Ok <==> line is None,
        outcome matches Err(error) ==> line matches Some(l) && l@ == failure_line(error@),
{
    match outcome {
        Ok(()) => None,
        Err(error) => {
            let mut text = String::from_str("Failed to start server: ");
            text.append(error.message());
            Some(LogLine { stream: Stream::Stderr, text })
        },
    }
}

} // verus!
