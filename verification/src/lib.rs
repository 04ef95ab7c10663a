//! An actor whose handle and driver are written once against a small set of
//! channel capabilities, and bound to a concrete channel family by a marker
//! type chosen at compile time.
//!
//! Nothing in this library waits: a handle makes a request and hands it to
//! the queue, a driver takes what the queue holds for now and answers it.
//! Waiting for a request or for a reply is left to the caller, which knows
//! how its tasks are run.

pub mod app;
pub mod laws;
pub mod model;
pub mod protocol;
pub mod result;
pub mod runtime;

pub use app::{App, AppDriver, CommandReceiver, CommandSender, ReplyReceiver};
pub use model::{ActorModel, Phase};
pub use protocol::{commands, Command, CommandResult, CommandView, ReplyView, Request};
pub use result::{Error, ErrorView, Result};
pub use runtime::with_async_std::{AsyncStd, AsyncStdChannel, AsyncStdReceiver, AsyncStdSender};
pub use runtime::with_tokio::{Tokio, TokioChannel, TokioReceiver, TokioSender};
pub use runtime::{Channel, Front, Receiver, Runtime, Sender};
