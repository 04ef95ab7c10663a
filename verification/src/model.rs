//! The actor as a state machine over sequences of characters: what it holds,
//! where it stands in its life, and what each request does to it.

use crate::protocol::{CommandView, ReplyView};
use crate::result::ErrorView;
use vstd::prelude::*;

verus! {

/// Where a driver stands in its life. It only ever moves forward: from
/// running to terminating to stopped, or from running straight to stopped
/// when a channel fails.
#[derive(Clone, Copy, Debug, PartialEq, Eq, Structural)]
pub enum Phase {
    /// It takes requests.
    Running,
    /// It has answered a request to terminate, and the reply is on its way.
    /// It takes no request any more.
    Terminating,
    /// Its work is over: the last reply is delivered, or a channel failed.
    Stopped,
}

/// The state that a command leaves behind.
pub open spec fn next_state(state: Seq<char>, cmd: CommandView) -> Seq<char> {
    match cmd {
        CommandView::UpdateState(value) => value,
        _ => state,
    }
}

/// The state after a sequence of commands, applied first to last.
pub open spec fn state_after(state: Seq<char>, cmds: Seq<CommandView>) -> Seq<char>
    decreases cmds.len(),
{
    if cmds.len() == 0 {
        state
    } else {
        next_state(state_after(state, cmds.drop_last()), cmds.last())
    }
}

/// What a handle makes of the outcome of waiting for its reply: the reply's
/// own content, or the failure of the wait.
pub open spec fn observed(received: Result<ReplyView, ErrorView>) -> ReplyView {
    match received {
        Ok(reply) => reply,
        Err(e) => Err(e),
    }
}

/// An actor: the state it owns and its phase.
pub struct ActorModel {
    pub state: Seq<char>,
    pub phase: Phase,
}

impl ActorModel {
    /// A new actor.
    pub open spec fn start(state: Seq<char>) -> ActorModel {
        ActorModel { state, phase: Phase::Running }
    }

    /// This actor with another phase.
    pub open spec fn at(self, phase: Phase) -> ActorModel {
        ActorModel { state: self.state, phase }
    }

    /// What one request does: the actor after it, and the reply that is owed.
    /// A running actor answers every request with the state that the request
    /// leaves behind. Any other actor refuses: nothing changes and no reply
    /// is owed.
    pub open spec fn step(self, cmd: CommandView) -> (ActorModel, Option<ReplyView>) {
        if self.phase is Running {
            let state = next_state(self.state, cmd);
            let phase = if cmd is Terminate {
                Phase::Terminating
            } else {
                Phase::Running
            };
            (ActorModel { state, phase }, Some(Ok(state)))
        } else {
            (self, None)
        }
    }

    /// The actor once the reply it owed has been handed to the channel.
    /// A reply that could not be delivered stops it, and so does the
    /// delivery of its last one.
    pub open spec fn settle(self, delivered: bool) -> ActorModel {
        if delivered && self.phase is Running {
            self
        } else {
            self.at(Phase::Stopped)
        }
    }

    /// The actor after one request was handled from end to end.
    pub open spec fn serve(self, cmd: CommandView, delivered: bool) -> ActorModel {
        if self.phase is Running {
            self.step(cmd).0.settle(delivered)
        } else {
            self
        }
    }

    /// The actor after a sequence of requests, handled in their order of
    /// arrival, each reply delivered.
    pub open spec fn run(self, cmds: Seq<CommandView>) -> ActorModel
        decreases cmds.len(),
    {
        if cmds.len() == 0 {
            self
        } else {
            self.run(cmds.drop_last()).serve(cmds.last(), true)
        }
    }

    /// The reply to the request at place `k` of a sequence of arrivals.
    pub open spec fn reply_at(self, cmds: Seq<CommandView>, k: int) -> Option<ReplyView>
        recommends
            0 <= k < cmds.len(),
    {
        self.run(cmds.take(k)).step(cmds[k]).1
    }

    /// What the handle that sent the request at place `k` gets, once its
    /// wait is over: the content of the reply, if one was owed and came; for
    /// a request that was dropped unanswered, the report that the reply
    /// channel is left without senders.
    pub open spec fn outcome_at(self, cmds: Seq<CommandView>, k: int) -> ReplyView
        recommends
            0 <= k < cmds.len(),
    {
        match self.reply_at(cmds, k) {
            Some(reply) => observed(Ok(reply)),
            None => observed(Err(ErrorView::ChannelSenderClosed)),
        }
    }
}

} // verus!
