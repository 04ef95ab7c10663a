//! Channels of Tokio.

use crate::result::{Error, ErrorView};
use crate::runtime::{Channel, Front, Receiver, Runtime, Sender};
use tokio::sync::mpsc::error::{SendError, TryRecvError};
use tokio::sync::mpsc::{UnboundedReceiver, UnboundedSender};
use vstd::prelude::*;

verus! {

/// `tokio::sync::mpsc::UnboundedSender`, carried as it is.
#[verifier::external_type_specification]
#[verifier::external_body]
#[verifier::reject_recursive_types(T)]
pub struct ExUnboundedSender<T>(UnboundedSender<T>);

/// `tokio::sync::mpsc::UnboundedReceiver`, carried as it is.
#[verifier::external_type_specification]
#[verifier::external_body]
#[verifier::reject_recursive_types(T)]
pub struct ExUnboundedReceiver<T>(UnboundedReceiver<T>);

/// `tokio::sync::mpsc::error::SendError`, carried as it is.
#[verifier::external_type_specification]
#[verifier::external_body]
#[verifier::reject_recursive_types(T)]
pub struct ExSendError<T>(SendError<T>);

/// `tokio::sync::mpsc::unbounded_channel` makes the two ends of a new queue.
/// Nothing is claimed of them.
pub assume_specification<T>[ tokio::sync::mpsc::unbounded_channel::<T> ]() -> (ends: (
    UnboundedSender<T>,
    UnboundedReceiver<T>,
));

/// `UnboundedSender::send` never waits. Nothing is claimed of its outcome:
/// it depends on whether the receiving end is still there.
#[verifier::external_body]
fn push<T>(tx: &UnboundedSender<T>, message: T) -> (sent: std::result::Result<(), SendError<T>>) {
    tx.send(message)
}

/// `UnboundedSender::clone` makes one more sender for the same queue.
pub assume_specification<T>[ <UnboundedSender<T> as Clone>::clone ](
    tx: &UnboundedSender<T>,
) -> (copy: UnboundedSender<T>);

/// `UnboundedReceiver::try_recv` takes the value at the front of the queue
/// if one is there, and does not wait for one. Nothing is claimed of what it
/// finds: that depends on what the senders have done.
#[verifier::external_body]
fn look<T>(rx: &mut UnboundedReceiver<T>) -> (front: Front<T>) {
    match rx.try_recv() {
        Ok(value) => Front::Value(value),
        Err(TryRecvError::Empty) => Front::Empty,
        Err(TryRecvError::Disconnected) => Front::Closed,
    }
}

/// The text that `SendError`'s `Display` writes: the fixed words
/// "channel closed", whatever the value that came back.
#[verifier::external_body]
fn send_error_text<T>(e: &SendError<T>) -> (text: String)
    ensures
        text@ == "channel closed"@,
{
    e.to_string()
}

/// The marker for Tokio.
#[derive(Clone, Copy)]
pub struct Tokio;

impl Runtime for Tokio {
    type Channel = TokioChannel;
}

/// The channel family of Tokio: a queue without bound, with many producers.
#[derive(Clone, Copy)]
pub struct TokioChannel;

impl<T: Clone + Send> Channel<T> for TokioChannel {
    type Sender = TokioSender<T>;

    type Receiver = TokioReceiver<T>;

    fn unbounded() -> (ends: (Self::Sender, Self::Receiver)) {
        let (tx, rx) = tokio::sync::mpsc::unbounded_channel();
        (TokioSender(tx), TokioReceiver(rx, Ghost(Seq::empty())))
    }
}

/// The sending end of a queue of Tokio.
#[verifier::reject_recursive_types(T)]
pub struct TokioSender<T>(UnboundedSender<T>);

impl<T> Clone for TokioSender<T> {
    fn clone(&self) -> Self {
        TokioSender(self.0.clone())
    }
}

impl<T> TokioSender<T> {
    /// What a send gives for what the queue said to it: success for
    /// success, and for a refusal the error of sending, with the queue's own
    /// diagnostic.
    fn sent(pushed: std::result::Result<(), SendError<T>>) -> (sent: std::result::Result<
        (),
        Error,
    >)
        ensures
            pushed is Ok ==> sent is Ok,
            pushed is Err ==> sent is Err,
            sent matches Err(e) ==> e@ == ErrorView::ChannelSend("channel closed"@),
    {
        match pushed {
            Ok(()) => Ok(()),
            Err(e) => Err(Error::ChannelSend(send_error_text(&e))),
        }
    }
}

impl<T: Clone + Send> Sender<T> for TokioSender<T> {
    /// Never waits. The diagnostic of a failure is the queue's own.
    fn send(&self, value: T) -> (sent: std::result::Result<(), Error>)
        ensures
            sent matches Err(e) ==> e@ == ErrorView::ChannelSend("channel closed"@),
    {
        Self::sent(push(&self.0, value))
    }
}

/// The receiving end of a queue of Tokio, with the record of what was taken
/// through it. The queue's own receiver is open to callers that wait on it
/// in another way.
#[verifier::reject_recursive_types(T)]
pub struct TokioReceiver<T>(pub UnboundedReceiver<T>, Ghost<Seq<T>>);

impl<T> TokioReceiver<T> {
    /// What a receive gives for what the look at the queue found: the
    /// value, which goes on record as taken; nothing for now; or the report
    /// that the queue is drained and without senders.
    fn took(&mut self, front: Front<T>) -> (received: std::result::Result<Option<T>, Error>)
        ensures
            received == (match front {
                Front::Value(value) => Ok::<Option<T>, Error>(Some(value)),
                Front::Empty => Ok(None),
                Front::Closed => Err(Error::ChannelSenderClosed),
            }),
            final(self).1@ == (match front {
                Front::Value(value) => old(self).1@.push(value),
                _ => old(self).1@,
            }),
            final(self).0 == old(self).0,
    {
        match front {
            Front::Value(value) => {
                proof {
                    self.1@ = self.1@.push(value);
                }
                Ok(Some(value))
            },
            Front::Empty => Ok(None),
            Front::Closed => Err(Error::ChannelSenderClosed),
        }
    }
}

impl<T: Send> Receiver<T> for TokioReceiver<T> {
    closed spec fn taken(&self) -> Seq<T> {
        self.1@
    }

    /// Never waits for a value. The only failure is the queue that is
    /// drained and without senders.
    fn try_recv(&mut self) -> (front: std::result::Result<Option<T>, Error>)
        ensures
            front matches Err(e) ==> e is ChannelSenderClosed,
    {
        let found = look(&mut self.0);
        self.took(found)
    }
}

} // verus!
