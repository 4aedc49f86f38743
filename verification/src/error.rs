//! Errors reported by the planning functions.

use vstd::prelude::*;
use vstd::string::*;

verus! {

/// The kinds of failure a paste operation can end with.
#[derive(Clone, Copy, Debug, PartialEq, Eq, Structural)]
pub enum ErrorKind {
    EnvironmentUnavailable,
    ConnectionFailed,
    ProtocolUnsupported,
    PermissionDenied,
    SubprocessSpawnFailed,
    SubprocessExitedWithError,
    NoPreviousFocus,
    AllStrategiesExhausted,
    FetchFailed,
    PublishFailed,
}

/// A failure: its kind and the text shown to the user.
#[derive(Debug)]
pub struct PasteError {
    pub kind: ErrorKind,
    pub message: String,
}

/// The mathematical value of a `PasteError`.
pub struct PasteErrorView {
    pub kind: ErrorKind,
    pub message: Seq<char>,
}

impl View for PasteError {
    type V = PasteErrorView;

    open spec fn view(&self) -> PasteErrorView {
        PasteErrorView { kind: self.kind, message: self.message@ }
    }
}

impl PasteError {
    /// An error of kind `kind` with the text `text`.
    pub fn fixed(kind: ErrorKind, text: &str) -> (e: PasteError)
        ensures
            e@ == (PasteErrorView { kind, message: text@ }),
    {
        PasteError { kind, message: String::from_str(text) }
    }

    /// An error whose text is `prefix` followed by a detail reported from outside.
    pub fn prefixed(kind: ErrorKind, prefix: &str, detail: &str) -> (e: PasteError)
        ensures
            e@ == (PasteErrorView { kind, message: prefix@ + detail@ }),
    {
        let mut message = String::from_str(prefix);
        message.append(detail);
        PasteError { kind, message }
    }

    /// An error whose text frames a detail reported from outside.
    pub fn framed(kind: ErrorKind, prefix: &str, detail: &str, suffix: &str) -> (e: PasteError)
        ensures
            e@ == (PasteErrorView { kind, message: prefix@ + detail@ + suffix@ }),
    {
        let mut message = String::from_str(prefix);
        message.append(detail);
        message.append(suffix);
        PasteError { kind, message }
    }

    /// A copy of this error.
    pub fn duplicate(&self) -> (e: PasteError)
        ensures
            e@ == self@,
    {
        PasteError { kind: self.kind, message: self.message.clone() }
    }
}

} // verus!
