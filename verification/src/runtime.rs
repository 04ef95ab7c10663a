//! The capabilities that a channel family has to offer.

pub mod with_async_std;
pub mod with_tokio;

use crate::protocol::{CommandResult, Request};
use crate::result::Error;
use vstd::prelude::*;

verus! {

/// A marker for one way of running tasks. It names the channel family that
/// goes with it, which has to carry the two payloads of the actor: requests
/// and replies.
pub trait Runtime: Clone + Send + Sized {
    type Channel: Channel<CommandResult> + Channel<Request<Self>>;
}

/// A channel family: for a payload type `T`, it makes connected pairs of
/// endpoints over an unbounded first-in-first-out queue.
pub trait Channel<T: Clone + Send>: Clone + Send + Sized {
    type Sender: Sender<T>;

    type Receiver: Receiver<T>;

    /// A new queue, as its two ends. No instance of the family is needed.
    /// Nothing has been taken from it yet.
    fn unbounded() -> (ends: (Self::Sender, Self::Receiver))
        ensures
            ends.1.taken() == Seq::<T>::empty(),
    ;
}

/// The sending end of a channel. It can be cloned: a queue takes values from
/// many producers.
pub trait Sender<T: Clone + Send>: Clone + Send + Sized {
    /// Puts `value` at the back of the queue. The only failure is that the
    /// receiving end is gone; the error then holds the channel's diagnostic.
    fn send(&self, value: T) -> (sent: Result<(), Error>)
        ensures
            sent matches Err(e) ==> e is ChannelSend,
    ;
}

/// What a look at the front of a queue finds.
pub enum Front<T> {
    /// A value, which is taken from the queue.
    Value(T),
    /// Nothing for now: a sender is left, and a value may yet come.
    Empty,
    /// Nothing, for good: the queue is drained and no sender is left.
    Closed,
}

/// The receiving end of a channel. A queue has one consumer.
pub trait Receiver<T: Send>: Sized {
    /// The values that `try_recv` has taken from the queue through this end,
    /// first to last.
    spec fn taken(&self) -> Seq<T>;

    /// Takes the value at the front of the queue, if one is there: the
    /// value returned is the latest one taken. It never waits: where the
    /// queue holds nothing for now, it says so and nothing was taken. It
    /// fails when the queue is drained and no sender is left, or when the
    /// channel itself reports a fault; then nothing was taken either.
    fn try_recv(&mut self) -> (front: Result<Option<T>, Error>)
        ensures
            final(self).taken() == (match front {
                Ok(Some(value)) => old(self).taken().push(value),
                _ => old(self).taken(),
            }),
            front matches Err(e) ==> e is ChannelSenderClosed || e is ChannelRecv,
    ;
}

} // verus!
