//! The ordered command channel between the public handle and the network
//! loop.
//!
//! Producers submit `Disconnect` and `Send` commands; the loop consumes them
//! in submission order with a non-blocking poll. Once the channel is closed
//! (when a connect cycle ends) further submissions fail with `ChannelClosed`.

use vstd::prelude::*;

use crate::errors::EasyWsError;

verus! {

/// An intent queued by the caller for the network loop to execute.
#[derive(Debug, PartialEq, Eq)]
pub enum EasyWsCommand {
    Disconnect,
    Send(String),
}

/// The mathematical value of a command: the text of a `Send` is abstracted
/// to its character sequence.
pub enum CommandModel {
    Disconnect,
    Send(Seq<char>),
}

impl View for EasyWsCommand {
    type V = CommandModel;

    open spec fn view(&self) -> CommandModel {
        match self {
            EasyWsCommand::Disconnect => CommandModel::Disconnect,
            EasyWsCommand::Send(text) => CommandModel::Send(text@),
        }
    }
}

/// A first-in first-out queue of pending commands, with a closed flag that
/// refuses further submissions once the connect cycle it belongs to is over.
///
/// The view of a channel is the sequence of queued command values in
/// submission order, oldest first.
pub struct CommandChannel {
    pub queue: Vec<EasyWsCommand>,
    pub closed: bool,
}

impl View for CommandChannel {
    type V = Seq<CommandModel>;

    open spec fn view(&self) -> Seq<CommandModel> {
        self.queue@.map_values(|c: EasyWsCommand| c@)
    }
}

impl CommandChannel {
    /// A fresh channel is open and holds no commands.
    pub fn new() -> (c: CommandChannel)
        ensures
            c@ =~= Seq::<CommandModel>::empty(),
            !c.closed,
    {
        CommandChannel { queue: Vec::new(), closed: false }
    }

    /// Queues `command` behind every previously submitted command, or fails
    /// with `ChannelClosed` (leaving the channel untouched) once the channel
    /// is closed.
    pub fn submit(&mut self, command: EasyWsCommand) -> (r: Result<(), EasyWsError>)
        ensures
            old(self).closed ==> r == Err::<(), EasyWsError>(EasyWsError::ChannelClosed)
                && *final(self) == *old(self),
            !old(self).closed ==> r is Ok
                && final(self)@ =~= old(self)@.push(command@)
                && !final(self).closed,
    {
        if self.closed {
            Err(EasyWsError::ChannelClosed)
        } else {
            self.queue.push(command);
            Ok(())
        }
    }

    /// Removes and returns the oldest pending command, or `None` when the
    /// queue is empty. Polling never changes the closed flag, so a closed
    /// channel can still be drained.
    pub fn poll(&mut self) -> (r: Option<EasyWsCommand>)
        ensures
            final(self).closed == old(self).closed,
            old(self)@.len() == 0 ==> r is None && *final(self) == *old(self),
            old(self)@.len() > 0 ==> (match r {
                Some(c) => c@ == old(self)@.first() && final(self)@ =~= old(self)@.drop_first(),
                None => false,
            }),
    {
        if self.queue.len() == 0 {
            None
        } else {
            let c = self.queue.remove(0);
            proof {
                assert(self@ =~= old(self)@.drop_first());
            }
            Some(c)
        }
    }

    /// Closes the channel: pending commands stay pollable, but every later
    /// submission fails with `ChannelClosed`.
    pub fn close(&mut self)
        ensures
            final(self).closed,
            final(self)@ == old(self)@,
    {
        self.closed = true;
    }

    /// How many commands are pending.
    pub fn len(&self) -> (n: usize)
        ensures
            n == self@.len(),
    {
        self.queue.len()
    }

    /// Whether the channel refuses further submissions.
    pub fn is_closed(&self) -> (b: bool)
        ensures
            b == self.closed,
    {
        self.closed
    }
}

} // verus!
