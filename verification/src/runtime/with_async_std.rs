//! Channels of async-std, which are those of the crate `async_channel`.

use crate::result::{Error, ErrorView};
use crate::runtime::{Channel, Front, Receiver, Runtime, Sender};
use async_channel::{Receiver as QueueReceiver, SendError, Sender as QueueSender, TryRecvError};
use vstd::prelude::*;

verus! {

/// `async_channel::Sender`, carried as it is.
#[verifier::external_type_specification]
#[verifier::external_body]
#[verifier::reject_recursive_types(T)]
pub struct ExQueueSender<T>(QueueSender<T>);

/// `async_channel::Receiver`, carried as it is.
#[verifier::external_type_specification]
#[verifier::external_body]
#[verifier::reject_recursive_types(T)]
pub struct ExQueueReceiver<T>(QueueReceiver<T>);

/// `async_channel::SendError`, carried as it is.
#[verifier::external_type_specification]
#[verifier::external_body]
#[verifier::reject_recursive_types(T)]
pub struct ExSendError<T>(SendError<T>);

/// `async_channel::unbounded` makes the two ends of a new queue. Nothing is
/// claimed of them.
#[verifier::external_body]
fn new_queue<T>() -> (ends: (QueueSender<T>, QueueReceiver<T>)) {
    async_channel::unbounded()
}

/// `Sender::send_blocking` puts a value into the queue. It waits only for
/// room in a full queue, and a queue made by `unbounded` is never full.
/// Nothing is claimed of its outcome: it depends on whether the queue is
/// closed.
pub assume_specification<T>[ QueueSender::<T>::send_blocking ](
    tx: &QueueSender<T>,
    msg: T,
) -> (sent: std::result::Result<(), SendError<T>>);

/// `Sender::clone` makes one more sender for the same queue.
pub assume_specification<T>[ <QueueSender<T> as Clone>::clone ](tx: &QueueSender<T>) -> (copy:
    QueueSender<T>);

/// `Receiver::try_recv` takes the value at the front of the queue if one is
/// there, and does not wait for one. Nothing is claimed of what it finds:
/// that depends on what the senders have done.
#[verifier::external_body]
fn look<T>(rx: &QueueReceiver<T>) -> (front: Front<T>) {
    match rx.try_recv() {
        Ok(value) => Front::Value(value),
        Err(TryRecvError::Empty) => Front::Empty,
        Err(TryRecvError::Closed) => Front::Closed,
    }
}

/// The text that `SendError`'s `Display` writes: the fixed words
/// "sending into a closed channel", whatever the value that came back.
#[verifier::external_body]
fn send_error_text<T>(e: &SendError<T>) -> (text: String)
    ensures
        text@ == "sending into a closed channel"@,
{
    e.to_string()
}

/// The marker for async-std.
#[derive(Clone, Copy)]
pub struct AsyncStd;

impl Runtime for AsyncStd {
    type Channel = AsyncStdChannel;
}

/// The channel family of async-std: a queue without bound, with many
/// producers.
#[derive(Clone, Copy)]
pub struct AsyncStdChannel;

impl<T: Clone + Send> Channel<T> for AsyncStdChannel {
    type Sender = AsyncStdSender<T>;

    type Receiver = AsyncStdReceiver<T>;

    fn unbounded() -> (ends: (Self::Sender, Self::Receiver)) {
        let (tx, rx) = new_queue();
        (AsyncStdSender(tx), AsyncStdReceiver(rx, Ghost(Seq::empty())))
    }
}

/// The sending end of a queue of async-std.
#[verifier::reject_recursive_types(T)]
pub struct AsyncStdSender<T>(QueueSender<T>);

impl<T> Clone for AsyncStdSender<T> {
    fn clone(&self) -> Self {
        AsyncStdSender(self.0.clone())
    }
}

impl<T> AsyncStdSender<T> {
    /// What a send gives for what the queue said to it: success for
    /// success, and for a refusal the error of sending, with the queue's own
    /// diagnostic.
    fn sent(pushed: std::result::Result<(), SendError<T>>) -> (sent: std::result::Result<
        (),
        Error,
    >)
        ensures
            pushed is Ok ==> sent is Ok,
            pushed is Err ==> sent is Err,
            sent matches Err(e) ==> e@ == ErrorView::ChannelSend("sending into a closed channel"@),
    {
        match pushed {
            Ok(()) => Ok(()),
            Err(e) => Err(Error::ChannelSend(send_error_text(&e))),
        }
    }
}

impl<T: Clone + Send> Sender<T> for AsyncStdSender<T> {
    /// Never waits. The diagnostic of a failure is the queue's own.
    fn send(&self, value: T) -> (sent: std::result::Result<(), Error>)
        ensures
            sent matches Err(e) ==> e@ == ErrorView::ChannelSend("sending into a closed channel"@),
    {
        Self::sent(self.0.send_blocking(value))
    }
}

/// The receiving end of a queue of async-std, with the record of what was
/// taken through it. The queue's own receiver is open to callers that wait
/// on it.
#[verifier::reject_recursive_types(T)]
pub struct AsyncStdReceiver<T>(pub QueueReceiver<T>, Ghost<Seq<T>>);

impl<T> AsyncStdReceiver<T> {
    /// What a receive gives for what the look at the queue found: the
    /// value, which goes on record as taken; nothing for now; or the report
    /// that the queue is drained and without senders.
    fn took(&mut self, front: Front<T>) -> (received: std::result::Result<Option<T>, Error>)
        ensures
            received == (match front {
                Front::Value(value) => Ok::<Option<T>, Error>(Some(value)),
                Front::Empty => Ok(None),
                Front::Closed => Err(Error::ChannelSenderClosed),
            }),
            final(self).1@ == (match front {
                Front::Value(value) => old(self).1@.push(value),
                _ => old(self).1@,
            }),
            final(self).0 == old(self).0,
    {
        match front {
            Front::Value(value) => {
                proof {
                    self.1@ = self.1@.push(value);
                }
                Ok(Some(value))
            },
            Front::Empty => Ok(None),
            Front::Closed => Err(Error::ChannelSenderClosed),
        }
    }
}

impl<T: Send> Receiver<T> for AsyncStdReceiver<T> {
    closed spec fn taken(&self) -> Seq<T> {
        self.1@
    }

    /// Never waits for a value. The only failure is the queue that is
    /// drained and without senders.
    fn try_recv(&mut self) -> (front: std::result::Result<Option<T>, Error>)
        ensures
            front matches Err(e) ==> e is ChannelSenderClosed,
    {
        let found = look(&self.0);
        self.took(found)
    }
}

} // verus!
