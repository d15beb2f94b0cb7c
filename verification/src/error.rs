//! The ways in which one request can fail.

use vstd::prelude::*;

verus! {

/// The request did not bring back a body: the connection failed, timed out,
/// or the body could not be read as text.
#[derive(Debug, PartialEq, Eq)]
pub struct TransportError {
    pub message: String,
}

/// The body of the response is not JSON.
#[derive(Debug, PartialEq, Eq)]
pub struct DecodeError {
    pub message: String,
}

/// Why a request produced no output. Either failure ends the request; none
/// is retried.
#[derive(Debug, PartialEq, Eq)]
pub enum ClientError {
    Transport(TransportError),
    Decode(DecodeError),
}

/// An error without the wording of a decode failure, which is the parser's
/// own and does not bear on what the library decides.
pub enum ClientErrorView {
    Transport(Seq<char>),
    Decode,
}

impl View for ClientError {
    type V = ClientErrorView;

    open spec fn view(&self) -> ClientErrorView {
        match self {
            ClientError::Transport(e) => ClientErrorView::Transport(e.message@),
            ClientError::Decode(_) => ClientErrorView::Decode,
        }
    }
}

impl ClientError {
    /// The text that describes the failure.
    pub fn message(&self) -> (text: &String)
        ensures
            self matches ClientError::Transport(e) ==> text@ == e.message@,
            self matches ClientError::Decode(e) ==> text@ == e.message@,
    {
        match self {
            ClientError::Transport(e) => &e.message,
            ClientError::Decode(e) => &e.message,
        }
    }
}

} // verus!
