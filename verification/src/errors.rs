//! Error values carried through a sync run.
//!
//! Every failure the library can decide on is one of a fixed set of
//! kinds; an `Abort` is the one outcome that is not reported as an
//! error. Messages are plain strings assembled by the library so that
//! contracts can pin them down exactly.

use vstd::prelude::*;

verus! {

/// The kind of a run failure, or `Abort` for a user-requested stop.
#[derive(Clone, Copy, Debug, PartialEq, Eq, Structural)]
pub enum ErrorType {
    /// User-requested cancellation; never printed as a failure.
    Abort,
    /// Rejected configuration: overlapping codec sets, an out-of-range
    /// bitrate, or a missing required option.
    Configuration,
    /// The target backend is not reachable or not running.
    BackendUnavailable,
    /// Codec detection failed for one specific file.
    ProbeFailure,
    /// The external transcoder exited with a non-zero status.
    TranscoderFailure,
    /// A backend copy failed.
    CopyFailure,
    /// A failure described only by its message.
    Descriptive,
    /// An input/output failure surfaced by the caller.
    Io,
}

/// A failure with its kind, a message, and an optional context note.
#[derive(Debug)]
pub struct Error {
    pub type_: ErrorType,
    pub message: String,
    pub context: Option<String>,
}

impl Error {
    /// Builds an error of the given kind with the given message and no
    /// context.
    pub fn new(type_: ErrorType, message: &str) -> (r: Error)
        ensures
            r.type_ == type_,
            r.message@ == message@,
            r.context is None,
    {
        Error { type_, message: message.to_owned(), context: None }
    }

    /// Builds a `Descriptive` error from a message alone.
    pub fn descriptive(message: &str) -> (r: Error)
        ensures
            r.type_ == ErrorType::Descriptive,
            r.message@ == message@,
            r.context is None,
    {
        Error::new(ErrorType::Descriptive, message)
    }

    /// Returns the same error with its context note set.
    pub fn with_context(self, context: &str) -> (r: Error)
        ensures
            r.type_ == self.type_,
            r.message@ == self.message@,
            r.context matches Some(c) && c@ == context@,
    {
        Error { type_: self.type_, message: self.message, context: Some(context.to_owned()) }
    }

    /// True when the failure must be printed: every kind but `Abort`.
    pub fn should_report(&self) -> (r: bool)
        ensures
            r == (self.type_ != ErrorType::Abort),
    {
        !(self.type_ == ErrorType::Abort)
    }

    /// Renders the message, followed by `: context` when a context note
    /// is present.
    pub fn to_message(&self) -> (r: String)
        ensures
            self.context matches Some(c) ==> r@ == self.message@ + ": "@ + c@,
            self.context is None ==> r@ == self.message@,
    {
        match &self.context {
            Some(c) => self.message.clone().concat(": ").concat(c.as_str()),
            None => self.message.clone(),
        }
    }
}

} // verus!
