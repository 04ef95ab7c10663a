//! The commands an actor understands and the replies it gives.

use crate::result::{Error, ErrorView};
use crate::runtime::{Channel, Runtime};
use vstd::prelude::*;

verus! {

/// What a handle asks of the actor.
#[derive(Debug)]
pub enum Command {
    /// Read the state.
    GetState,
    /// Replace the state by the given value.
    UpdateState(String),
    /// Read the state and stop the actor.
    Terminate,
}

/// A [`Command`] with its payload as a sequence of characters.
pub enum CommandView {
    GetState,
    UpdateState(Seq<char>),
    Terminate,
}

impl View for Command {
    type V = CommandView;

    open spec fn view(&self) -> CommandView {
        match self {
            Command::GetState => CommandView::GetState,
            Command::UpdateState(value) => CommandView::UpdateState(value@),
            Command::Terminate => CommandView::Terminate,
        }
    }
}

impl Clone for Command {
    fn clone(&self) -> (copy: Self)
        ensures
            copy@ == self@,
    {
        match self {
            Command::GetState => Command::GetState,
            Command::UpdateState(value) => Command::UpdateState(value.clone()),
            Command::Terminate => Command::Terminate,
        }
    }
}

impl Command {
    /// The command that asks to replace the state by `new_state`.
    pub fn update(new_state: &str) -> (cmd: Command)
        ensures
            cmd@ == CommandView::UpdateState(new_state@),
    {
        Command::UpdateState(new_state.to_owned())
    }
}

/// What a reply carries: the state, or the reason why there is none.
pub type ReplyView = std::result::Result<Seq<char>, ErrorView>;

/// The outcome of exactly one [`Command`].
pub struct CommandResult(pub std::result::Result<String, Error>);

impl View for CommandResult {
    type V = ReplyView;

    open spec fn view(&self) -> ReplyView {
        match self.0 {
            Ok(state) => Ok(state@),
            Err(e) => Err(e@),
        }
    }
}

impl Clone for CommandResult {
    fn clone(&self) -> (copy: Self)
        ensures
            copy@ == self@,
    {
        match &self.0 {
            Ok(state) => CommandResult(Ok(state.clone())),
            Err(e) => CommandResult(Err(e.clone())),
        }
    }
}

/// A command on its way to the driver, with the sender for its one reply.
/// The reply channel is made for this request and used for nothing else.
pub struct Request<R: Runtime> {
    /// What is asked.
    pub cmd: Command,
    /// Where the one reply goes.
    pub reply_tx: <R::Channel as Channel<CommandResult>>::Sender,
}

/// The commands that a sequence of requests carries, in the same order.
pub open spec fn commands<R: Runtime>(requests: Seq<Request<R>>) -> Seq<CommandView> {
    requests.map_values(|request: Request<R>| request.cmd@)
}

impl<R: Runtime> Clone for Request<R> {
    fn clone(&self) -> (copy: Self)
        ensures
            copy.cmd@ == self.cmd@,
    {
        Request { cmd: self.cmd.clone(), reply_tx: self.reply_tx.clone() }
    }
}

} // verus!
