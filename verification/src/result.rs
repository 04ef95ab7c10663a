//! Results and error handling.

use vstd::prelude::*;
use vstd::string::StringExecFns;

verus! {

/// What an operation of this library returns.
pub type Result<T> = std::result::Result<T, Error>;

/// Ways in which a channel operation fails.
#[derive(Debug)]
pub enum Error {
    /// The receiving end was gone when a value was sent. Holds the channel's
    /// own diagnostic.
    ChannelSend(String),
    /// The channel reported a fault on receive. Holds the channel's own
    /// diagnostic.
    ChannelRecv(String),
    /// The queue is drained and no sender is left.
    ChannelSenderClosed,
}

/// An [`Error`] with its diagnostic as a sequence of characters.
pub enum ErrorView {
    ChannelSend(Seq<char>),
    ChannelRecv(Seq<char>),
    ChannelSenderClosed,
}

impl View for Error {
    type V = ErrorView;

    open spec fn view(&self) -> ErrorView {
        match self {
            Error::ChannelSend(text) => ErrorView::ChannelSend(text@),
            Error::ChannelRecv(text) => ErrorView::ChannelRecv(text@),
            Error::ChannelSenderClosed => ErrorView::ChannelSenderClosed,
        }
    }
}

impl ErrorView {
    /// The text that a user reads for this error.
    pub open spec fn message(self) -> Seq<char> {
        match self {
            ErrorView::ChannelSend(text) => "channel send error: "@ + text,
            ErrorView::ChannelRecv(text) => "channel receive error: "@ + text,
            ErrorView::ChannelSenderClosed => "sending end of channel closed"@,
        }
    }
}

impl Clone for Error {
    fn clone(&self) -> (copy: Self)
        ensures
            copy@ == self@,
    {
        match self {
            Error::ChannelSend(detail) => Error::ChannelSend(detail.clone()),
            Error::ChannelRecv(detail) => Error::ChannelRecv(detail.clone()),
            Error::ChannelSenderClosed => Error::ChannelSenderClosed,
        }
    }
}

impl Error {
    /// The text that a user reads for this error.
    pub fn message(&self) -> (text: String)
        ensures
            text@ == self@.message(),
    {
        match self {
            Error::ChannelSend(detail) => {
                String::from_str("channel send error: ").concat(detail.as_str())
            },
            Error::ChannelRecv(detail) => {
                String::from_str("channel receive error: ").concat(detail.as_str())
            },
            Error::ChannelSenderClosed => String::from_str("sending end of channel closed"),
        }
    }
}

} // verus!
