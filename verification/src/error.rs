//! The failures that the session layer reports.

use vstd::prelude::*;
use crate::link::StoreCommand;

verus! {

/// A failure of the session layer, as a mathematical value.
pub enum SessionErrorView {
    NotFound(Seq<char>),
    LinkFailed(StoreCommand, Seq<char>),
    UnexpectedReply,
}

impl SessionErrorView {
    /// The text by which the failure is reported.
    pub open spec fn message(self) -> Seq<char> {
        match self {
            SessionErrorView::NotFound(id) => "Session not found: "@ + id,
            SessionErrorView::LinkFailed(command, detail) => "Failed to call "@ + command.name_text()
                + ": "@ + detail,
            SessionErrorView::UnexpectedReply => "unexpected result type"@,
        }
    }
}

/// A failure of the session layer.
#[derive(Debug, PartialEq, Eq)]
pub enum SessionError {
    /// No session is held under the identifier.
    NotFound(String),
    /// The mapping store could not be reached over either route; the text is
    /// what the host said.
    LinkFailed(StoreCommand, String),
    /// The host answered a read with something that is neither a text nor
    /// absent.
    UnexpectedReply,
}

impl View for SessionError {
    type V = SessionErrorView;

    open spec fn view(&self) -> SessionErrorView {
        match self {
            SessionError::NotFound(id) => SessionErrorView::NotFound(id@),
            SessionError::LinkFailed(command, detail) => SessionErrorView::LinkFailed(*command, detail@),
            SessionError::UnexpectedReply => SessionErrorView::UnexpectedReply,
        }
    }
}

impl SessionError {
    /// The text by which the failure is reported.
    pub fn message(&self) -> (text: String)
        ensures
            text@ == self@.message(),
    {
        match self {
            SessionError::NotFound(id) => {
                let mut text = String::from_str("Session not found: ");
                text.append(id.as_str());
                text
            },
            SessionError::LinkFailed(command, detail) => {
                let mut text = String::from_str("Failed to call ");
                text.append(command.name());
                text.append(": ");
                text.append(detail.as_str());
                text
            },
            SessionError::UnexpectedReply => String::from_str("unexpected result type"),
        }
    }
}

} // verus!
