//! The handle and the driver of an actor that owns one string.
//!
//! Nothing here waits. The handle makes a request and hands it to the
//! queue; the driver takes what the queue holds for now and answers it. To
//! wait, for a request or for a reply, is the caller's part.

use crate::model::{observed, ActorModel, Phase};
use crate::protocol::{commands, Command, CommandResult, ReplyView, Request};
use crate::result::{Error, ErrorView, Result};
use crate::runtime::{Channel, Receiver, Runtime, Sender};
use vstd::prelude::*;

verus! {

/// The sending end of the queue of requests.
pub type CommandSender<R> = <<R as Runtime>::Channel as Channel<Request<R>>>::Sender;

/// The receiving end of the queue of requests.
pub type CommandReceiver<R> = <<R as Runtime>::Channel as Channel<Request<R>>>::Receiver;

/// The reply that a handle waits for, on the channel made for one request.
pub type ReplyReceiver<R> = <<R as Runtime>::Channel as Channel<CommandResult>>::Receiver;

/// The view of a reply that may be absent.
pub open spec fn reply_view(reply: Option<CommandResult>) -> Option<ReplyView> {
    match reply {
        Some(r) => Some(r@),
        None => None,
    }
}

/// The view of what waiting for a reply gave.
pub open spec fn received_view(
    received: Result<CommandResult>,
) -> std::result::Result<ReplyView, ErrorView> {
    match received {
        Ok(reply) => Ok(reply@),
        Err(e) => Err(e@),
    }
}

/// The view of what a handle returns.
pub open spec fn outcome_view(outcome: Result<String>) -> ReplyView {
    match outcome {
        Ok(state) => Ok(state@),
        Err(e) => Err(e@),
    }
}

/// The client of an actor. It is cheap to clone; all clones feed one queue.
pub struct App<R: Runtime> {
    cmd_tx: CommandSender<R>,
}

impl<R: Runtime> Clone for App<R> {
    fn clone(&self) -> Self {
        App { cmd_tx: self.cmd_tx.clone() }
    }
}

impl<R: Runtime> App<R> {
    /// Create the app with initial state.
    pub fn new(state: &str) -> (pair: (Self, AppDriver<R>))
        ensures
            pair.1@ == ActorModel::start(state@),
            pair.1.is_open(),
            pair.1.requests() == Seq::<Request<R>>::empty(),
    {
        let (cmd_tx, cmd_rx) = <R::Channel as Channel<Request<R>>>::unbounded();
        (App { cmd_tx }, AppDriver::new(state.to_owned(), cmd_rx))
    }

    /// Makes what is handed to the queue for `cmd`: the request, which
    /// carries `cmd` as it is and the sending end of a channel made for this
    /// request alone, and the receiving end of that channel, from which
    /// nothing has been taken. The request carries a clone of the sender,
    /// and the first sender ends with this call: a request that is dropped
    /// unanswered leaves the reply channel without senders.
    pub fn request(cmd: Command) -> (made: (Request<R>, ReplyReceiver<R>))
        ensures
            made.0.cmd == cmd,
            made.1.taken() == Seq::<CommandResult>::empty(),
    {
        let (reply_tx, reply_rx) = <R::Channel as Channel<CommandResult>>::unbounded();
        (Request { cmd, reply_tx: reply_tx.clone() }, reply_rx)
    }

    /// What a call of the handle gives for what the queue said to the
    /// request: the receiving end for the reply where the request was
    /// taken, and the queue's refusal where it was not.
    pub fn pending(sent: Result<()>, reply_rx: ReplyReceiver<R>) -> (pending: Result<
        ReplyReceiver<R>,
    >)
        ensures
            pending == (match sent {
                Ok(_) => Ok::<ReplyReceiver<R>, Error>(reply_rx),
                Err(e) => Err(e),
            }),
    {
        match sent {
            Ok(()) => Ok(reply_rx),
            Err(e) => Err(e),
        }
    }

    /// Sends the request that `request` makes for `cmd` to the driver, and
    /// returns the receiving end on which the one reply will come. It does
    /// not wait for the reply. The only failure is that the driver's end of
    /// the queue is gone.
    pub fn submit(&self, cmd: Command) -> (pending: Result<ReplyReceiver<R>>)
        ensures
            pending matches Ok(reply_rx) ==> reply_rx.taken() == Seq::<CommandResult>::empty(),
            pending matches Err(e) ==> e is ChannelSend,
    {
        let (request, reply_rx) = Self::request(cmd);
        let sent = self.cmd_tx.send(request);
        Self::pending(sent, reply_rx)
    }

    /// What the caller gets for the outcome of waiting for the reply: the
    /// content of the reply, or the failure of the wait.
    pub fn reply_outcome(received: Result<CommandResult>) -> (outcome: Result<String>)
        ensures
            outcome_view(outcome) == observed(received_view(received)),
    {
        match received {
            Ok(reply) => reply.0,
            Err(e) => Err(e),
        }
    }
}

/// The owner of the actor's state, at the receiving end of the queue of
/// requests. It holds that end as long as it has not stopped: a driver that
/// stops lets go of it, so that whoever sends a request after that is told
/// that nobody listens.
pub struct AppDriver<R: Runtime> {
    state: String,
    phase: Phase,
    cmd_rx: Option<CommandReceiver<R>>,
    taken: Ghost<Seq<Request<R>>>,
}

impl<R: Runtime> View for AppDriver<R> {
    type V = ActorModel;

    closed spec fn view(&self) -> ActorModel {
        ActorModel { state: self.state@, phase: self.phase }
    }
}

impl<R: Runtime> AppDriver<R> {
    /// The driver's end of the queue of requests, if it still holds it.
    pub closed spec fn queue(&self) -> Option<CommandReceiver<R>> {
        self.cmd_rx
    }

    /// Whether the driver still holds its end of the queue.
    pub open spec fn is_open(&self) -> bool {
        self.queue() is Some
    }

    /// The requests that the driver took from the queue by `next_request`
    /// and `run`, first to last.
    pub closed spec fn requests(&self) -> Seq<Request<R>> {
        self.taken@
    }

    /// A running driver that owns `state` and reads its requests from
    /// `cmd_rx`.
    pub fn new(state: String, cmd_rx: CommandReceiver<R>) -> (driver: AppDriver<R>)
        ensures
            driver@ == ActorModel::start(state@),
            driver.queue() == Some(cmd_rx),
            driver.requests() == Seq::<Request<R>>::empty(),
    {
        AppDriver { state, phase: Phase::Running, cmd_rx: Some(cmd_rx), taken: Ghost(Seq::empty()) }
    }

    /// Whether the driver takes requests.
    pub fn is_running(&self) -> (running: bool)
        ensures
            running == (self@.phase is Running),
    {
        self.phase == Phase::Running
    }

    /// The phase of the driver.
    pub fn phase(&self) -> (phase: Phase)
        ensures
            phase == self@.phase,
    {
        self.phase
    }

    /// The state that the driver owns.
    pub fn state(&self) -> (state: &str)
        ensures
            state@ == self@.state,
    {
        self.state.as_str()
    }

    /// Decides on one command: changes the state as the command asks and
    /// returns the reply that is owed. A driver that does not run refuses:
    /// it changes nothing and owes no reply.
    pub fn apply(&mut self, cmd: Command) -> (reply: Option<CommandResult>)
        ensures
            (final(self)@, reply_view(reply)) == old(self)@.step(cmd@),
            final(self).queue() == old(self).queue(),
            final(self).requests() == old(self).requests(),
    {
        if self.phase != Phase::Running {
            return None;
        }
        match cmd {
            Command::GetState => {},
            Command::UpdateState(new_state) => {
                self.state = new_state;
            },
            Command::Terminate => {
                self.phase = Phase::Terminating;
            },
        }
        Some(CommandResult(Ok(self.state.clone())))
    }

    /// Lets go of the queue if the driver has stopped.
    fn close_if_stopped(&mut self)
        ensures
            final(self)@ == old(self)@,
            final(self).requests() == old(self).requests(),
            final(self).queue() == (if old(self)@.phase is Stopped {
                None
            } else {
                old(self).queue()
            }),
    {
        if self.phase == Phase::Stopped {
            self.cmd_rx = None;
        }
    }

    /// Takes note of what became of the reply: `sent` is what the channel
    /// said to it, and is handed on. A reply that was not delivered stops
    /// the driver, and so does the delivery of its last one. A driver that
    /// has stopped lets go of the queue.
    pub fn conclude(&mut self, sent: Result<()>) -> (outcome: Result<()>)
        ensures
            final(self)@ == old(self)@.settle(sent is Ok),
            final(self).queue() == (if final(self)@.phase is Stopped {
                None
            } else {
                old(self).queue()
            }),
            final(self).requests() == old(self).requests(),
            outcome == sent,
    {
        if sent.is_err() || self.phase != Phase::Running {
            self.phase = Phase::Stopped;
        }
        self.close_if_stopped();
        sent
    }

    /// Handles one request from end to end: decides, sends the one reply,
    /// and takes note of what became of it. A driver that does not run
    /// drops the request unanswered.
    pub fn handle_request(&mut self, request: Request<R>) -> (outcome: Result<()>)
        ensures
            final(self)@ == old(self)@.serve(request.cmd@, outcome is Ok),
            final(self).queue() == (if final(self)@.phase is Stopped {
                None
            } else {
                old(self).queue()
            }),
            final(self).requests() == old(self).requests(),
            !(old(self)@.phase is Running) ==> outcome is Ok,
            outcome matches Err(e) ==> e is ChannelSend,
    {
        let Request { cmd, reply_tx } = request;
        match self.apply(cmd) {
            Some(reply) => {
                let sent = reply_tx.send(reply);
                self.conclude(sent)
            },
            None => {
                self.close_if_stopped();
                Ok(())
            },
        }
    }

    /// Takes note of what a look at the queue found, for a driver that runs
    /// and has just looked: a request goes on the driver's record and is
    /// handed on, nothing for now changes nothing, and a failure of the
    /// channel stops the driver.
    fn found(&mut self, front: Result<Option<Request<R>>>) -> (next: Result<Option<Request<R>>>)
        ensures
            next == front,
            final(self).requests() == (match front {
                Ok(Some(request)) => old(self).requests().push(request),
                _ => old(self).requests(),
            }),
            final(self)@ == (if front is Err {
                old(self)@.at(Phase::Stopped)
            } else {
                old(self)@
            }),
            final(self).queue() == (if final(self)@.phase is Stopped {
                None
            } else {
                old(self).queue()
            }),
    {
        match front {
            Ok(Some(request)) => {
                proof {
                    self.taken@ = self.taken@.push(request);
                }
                self.close_if_stopped();
                Ok(Some(request))
            },
            Ok(None) => {
                self.close_if_stopped();
                Ok(None)
            },
            Err(e) => {
                self.phase = Phase::Stopped;
                self.close_if_stopped();
                Err(e)
            },
        }
    }

    /// Takes the next request from the queue, if one is there. It never
    /// waits: where the queue holds nothing for now, there is none. A driver
    /// that does not run reads nothing: there is none either, and the
    /// driver is as it was. A failure of the channel stops the driver.
    pub fn next_request(&mut self) -> (next: Result<Option<Request<R>>>)
        ensures
            !(old(self)@.phase is Running) ==> next matches Ok(None),
            !(old(self)@.phase is Running) ==> *final(self) == *old(self),
            final(self).requests() == (match next {
                Ok(Some(request)) => old(self).requests().push(request),
                _ => old(self).requests(),
            }),
            final(self)@ == (if next is Err {
                old(self)@.at(Phase::Stopped)
            } else {
                old(self)@
            }),
            final(self).is_open() == (old(self).is_open() && !(final(self)@.phase is Stopped
                && old(self)@.phase is Running)),
            next matches Err(e) ==> e is ChannelSenderClosed || e is ChannelRecv,
    {
        if self.phase != Phase::Running {
            return Ok(None);
        }
        match self.cmd_rx.take() {
            Some(cmd_rx) => {
                let mut cmd_rx = cmd_rx;
                let front = cmd_rx.try_recv();
                self.cmd_rx = Some(cmd_rx);
                self.found(front)
            },
            None => Ok(None),
        }
    }

    /// Serves the requests that the queue holds, in their order of arrival,
    /// one reply to each, until the queue holds nothing for now, the driver
    /// stops running, or `limit` requests have been served. It never waits.
    ///
    /// It takes requests from the queue, `limit` at most, each of them
    /// while it runs: after a request to terminate nothing more is read. If
    /// all went well, the driver is what a run of the actor over their
    /// commands makes of it. If the reply to the last of them could not be
    /// delivered, that failure comes back, and the driver has stopped where
    /// it stood. If the queue failed, that failure comes back, and the
    /// driver has stopped after all of them were served. With nothing to
    /// do, because the limit is zero or the driver does not run, the driver
    /// is as it was. A driver that has stopped has let go of the queue.
    pub fn run(&mut self, limit: usize) -> (outcome: Result<()>)
        ensures
            ({
                let cmds = commands(
                    final(self).requests().skip(old(self).requests().len() as int),
                );
                &&& old(self).requests().is_prefix_of(final(self).requests())
                &&& cmds.len() <= limit
                &&& cmds.len() > 0 ==> old(self)@.run(cmds.drop_last()).phase is Running
                &&& final(self)@ == (match outcome {
                    Ok(_) => old(self)@.run(cmds),
                    Err(Error::ChannelSend(_)) => old(self)@.run(cmds.drop_last()).serve(
                        cmds.last(),
                        false,
                    ),
                    Err(_) => old(self)@.run(cmds).at(Phase::Stopped),
                })
                &&& outcome matches Err(Error::ChannelSend(_)) ==> cmds.len() > 0
            }),
            limit == 0 || !(old(self)@.phase is Running) ==> outcome is Ok && *final(self) == *old(
                self,
            ),
            final(self).is_open() == (old(self).is_open() && !(final(self)@.phase is Stopped
                && old(self)@.phase is Running)),
    {
        let mut served: usize = 0;
        let ghost mut taken: Seq<Request<R>> = Seq::empty();
        while served < limit
            invariant
                served <= limit,
                taken.len() == served,
                self.requests() == old(self).requests() + taken,
                self@ == old(self)@.run(commands(taken)),
                served == 0 ==> *self == *old(self),
                served > 0 ==> old(self)@.phase is Running,
                served > 0 ==> old(self)@.run(commands(taken).drop_last()).phase is Running,
                self.is_open() == (old(self).is_open() && !(self@.phase is Stopped && old(
                    self,
                )@.phase is Running)),
            decreases limit - served,
        {
            let ghost before = self@;
            match self.next_request() {
                Ok(Some(request)) => {
                    let ghost longer = taken.push(request);
                    proof {
                        assert(commands(longer).drop_last() =~= commands(taken));
                        assert(old(self).requests() + longer =~= (old(self).requests()
                            + taken).push(request));
                        taken = longer;
                    }
                    served = served + 1;
                    match self.handle_request(request) {
                        Ok(()) => {},
                        Err(e) => {
                            proof {
                                Self::taken_since(old(self).requests(), taken);
                            }
                            return Err(e);
                        },
                    }
                },
                Ok(None) => {
                    proof {
                        Self::taken_since(old(self).requests(), taken);
                    }
                    return Ok(());
                },
                Err(e) => {
                    proof {
                        Self::taken_since(old(self).requests(), taken);
                    }
                    return Err(e);
                },
            }
        }
        proof {
            Self::taken_since(old(self).requests(), taken);
        }
        Ok(())
    }

    /// What was taken after `before` is what comes behind it.
    proof fn taken_since(before: Seq<Request<R>>, taken: Seq<Request<R>>)
        ensures
            before.is_prefix_of(before + taken),
            (before + taken).skip(before.len() as int) == taken,
    {
        assert((before + taken).subrange(0, before.len() as int) =~= before);
        assert((before + taken).skip(before.len() as int) =~= taken);
    }

    /// The driver's end of the queue of requests, if it still holds it, for
    /// a caller that waits on it. What the caller makes of it is the
    /// driver's end from then on; what the caller takes from it is not on
    /// the driver's record. State and phase stay.
    pub fn receiver(&mut self) -> (cmd_rx: Option<&mut CommandReceiver<R>>)
        ensures
            cmd_rx is Some == old(self).is_open(),
            cmd_rx is Some ==> old(self).queue() == Some(*cmd_rx.unwrap()) && final(self).queue()
                == Some(*final(cmd_rx.unwrap())),
            cmd_rx is None ==> final(self).queue() == old(self).queue(),
            final(self)@ == old(self)@,
            final(self).requests() == old(self).requests(),
    {
        self.cmd_rx.as_mut()
    }
}

} // verus!
