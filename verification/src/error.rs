//! What can go wrong on a socket.

use vstd::prelude::*;

verus! {

/// Why a message was not sent.
#[derive(Debug, PartialEq, Eq)]
pub enum EncryptSendError {
    /// The message could not be sealed.
    Crypto(String),
    /// The sealed message does not fit in a frame.
    Framing(String),
    /// The transport did not take the frame.
    Transport(String),
    /// The sender has stopped.
    ChannelClosed,
}

/// Why a received message was not read.
#[derive(Debug, PartialEq, Eq)]
pub enum SocketError {
    /// The message did not open.
    Crypto(String),
}

/// What the sender answers a job with.
pub type SendResult = Result<(), EncryptSendError>;

/// An [`EncryptSendError`] by its characters.
pub enum EncryptSendErrorView {
    Crypto(Seq<char>),
    Framing(Seq<char>),
    Transport(Seq<char>),
    ChannelClosed,
}

impl View for EncryptSendError {
    type V = EncryptSendErrorView;

    open spec fn view(&self) -> EncryptSendErrorView {
        match self {
            EncryptSendError::Crypto(text) => EncryptSendErrorView::Crypto(text@),
            EncryptSendError::Framing(text) => EncryptSendErrorView::Framing(text@),
            EncryptSendError::Transport(text) => EncryptSendErrorView::Transport(text@),
            EncryptSendError::ChannelClosed => EncryptSendErrorView::ChannelClosed,
        }
    }
}

/// A [`SendResult`] by the view of its error.
pub open spec fn send_result_view(result: SendResult) -> Result<(), EncryptSendErrorView> {
    match result {
        Ok(()) => Ok(()),
        Err(error) => Err(error@),
    }
}

} // verus!
