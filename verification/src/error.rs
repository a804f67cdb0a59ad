//! Failure values reported by the command layer.

use vstd::prelude::*;

verus! {

/// Everything that can go wrong while preparing an invocation of the external
/// tool or while interpreting what it produced.
///
/// * `MissingCredential`: the caller supplied an empty service-account token;
///   no invocation may be attempted.
/// * `Cli`: the external tool exited with a non-zero status; the payload is
///   its standard-error text, verbatim.
/// * `MalformedResponse`: the tool exited successfully but its standard
///   output was not the JSON shape the operation expects.
#[derive(Debug, PartialEq, Eq)]
pub enum OpError {
    MissingCredential,
    Cli(String),
    MalformedResponse,
}

/// Mathematical view of an `OpError`.
pub enum OpErrorView {
    MissingCredential,
    Cli(Seq<char>),
    MalformedResponse,
}

impl View for OpError {
    type V = OpErrorView;

    open spec fn view(&self) -> OpErrorView {
        match self {
            OpError::MissingCredential => OpErrorView::MissingCredential,
            OpError::Cli(text) => OpErrorView::Cli(text@),
            OpError::MalformedResponse => OpErrorView::MalformedResponse,
        }
    }
}

impl OpError {
    /// The error text shown to a caller, matching the wording the external
    /// tool and the credential check produce.
    pub fn message(&self) -> (r: String)
        ensures
            r@ == self.message_text(),
    {
        match self {
            OpError::MissingCredential => "Service account token is missing.".to_owned(),
            OpError::Cli(text) => text.clone(),
            OpError::MalformedResponse => "Malformed external response.".to_owned(),
        }
    }

    /// What `message` returns, as a sequence of characters.
    pub open spec fn message_text(&self) -> Seq<char> {
        match self {
            OpError::MissingCredential => "Service account token is missing."@,
            OpError::Cli(text) => text@,
            OpError::MalformedResponse => "Malformed external response."@,
        }
    }
}

} // verus!
