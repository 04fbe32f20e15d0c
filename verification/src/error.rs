//! Failures reported by the client.

use vstd::prelude::*;

verus! {

/// The stage at which the body of a reply could not be read.
#[derive(Clone, Copy, Debug, PartialEq, Eq, Structural)]
pub enum DecodeError {
    /// The reply announces no length that can be read, or holds a body of
    /// another length than the one it announces.
    LengthMismatch,
    /// The body is not valid UTF-8.
    NotUtf8,
    /// The body is text, but not a JSON document.
    NotJson,
    /// The body is a JSON document of another shape than the one asked for.
    ShapeMismatch,
}

/// Everything that can go wrong in this crate.
#[derive(Clone, Debug, PartialEq, Eq)]
pub enum ClientError {
    /// The path could not be resolved against the agent's base address.
    UrlResolution,
    /// The request never produced a reply.
    Transport,
    /// The reply arrived, but its body could not be read.
    Decode(DecodeError),
    /// The agent answered with a status that the operation does not accept.
    ServerError { status: u16, text: String },
    /// No agent binary is published for this machine.
    UnsupportedPlatform,
    /// The agent did not answer within the allowed number of probes.
    BootstrapExhausted,
}

/// A [`ClientError`] with its text as a sequence of characters.
pub enum ClientErrorView {
    UrlResolution,
    Transport,
    Decode(DecodeError),
    ServerError { status: u16, text: Seq<char> },
    UnsupportedPlatform,
    BootstrapExhausted,
}

impl View for ClientError {
    type V = ClientErrorView;

    open spec fn view(&self) -> ClientErrorView {
        match self {
            ClientError::UrlResolution => ClientErrorView::UrlResolution,
            ClientError::Transport => ClientErrorView::Transport,
            ClientError::Decode(e) => ClientErrorView::Decode(*e),
            ClientError::ServerError { status, text } => ClientErrorView::ServerError {
                status: *status,
                text: text@,
            },
            ClientError::UnsupportedPlatform => ClientErrorView::UnsupportedPlatform,
            ClientError::BootstrapExhausted => ClientErrorView::BootstrapExhausted,
        }
    }
}

} // verus!
