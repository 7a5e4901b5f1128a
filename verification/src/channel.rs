//! Channels: the streams of one session, for commands, shells and forwarded
//! connections.

use crate::error::{failure, EngineError, ErrorView, SshResult, SSH_AGAIN};
use crate::session::Session;
use crate::text::{marshal, EngineString};
use vstd::prelude::*;

verus! {

/// How far a channel has come.
#[derive(Debug, Clone, Copy, PartialEq, Eq)]
pub enum ChannelState {
    /// The engine has a place for the channel; nothing was opened yet.
    Allocated,
    /// The channel is open in both directions.
    Open,
    /// This side has sent all it has to send; the peer may still send.
    HalfClosed,
    /// The channel is closed.
    Closed,
}

/// One stream of a session. A channel holds the session's handle together
/// with the session: give it back with `Session::release_channel`.
#[derive(Debug)]
pub struct Channel {
    state: ChannelState,
}

/// What the engine's answer to a read or a write means: for a count that is
/// not negative, that many bytes were moved, which may be fewer than were
/// asked for; a retry where the call would block; and for every other
/// answer the failure that the slot explains.
pub open spec fn transfer_outcome(n: i32, slot: EngineError, fallback: Seq<char>) -> Result<
    usize,
    ErrorView,
> {
    if n >= 0 {
        Ok(n as usize)
    } else if n == SSH_AGAIN {
        Err(ErrorView::TryAgain)
    } else {
        Err(failure(slot, fallback))
    }
}

/// The outcome of a read or a write, by its view.
pub open spec fn transfer_view(r: SshResult<usize>) -> Result<usize, ErrorView> {
    match r {
        Ok(n) => Ok(n),
        Err(e) => Err(e@),
    }
}

/// The exit status that the engine reports: none while it reports `-1`.
pub open spec fn exit_status(raw: i32) -> Option<i32> {
    if raw == -1 {
        None
    } else {
        Some(raw)
    }
}

impl Channel {
    /// The channel in a place that the engine just made for it.
    pub(crate) fn new(state: ChannelState) -> (channel: Channel)
        ensures
            channel.state() == state,
    {
        Channel { state }
    }

    /// How far the channel has come.
    pub closed spec fn state(&self) -> ChannelState {
        self.state
    }

    /// How far the channel has come.
    pub fn current_state(&self) -> (state: ChannelState)
        ensures
            state == self.state(),
    {
        self.state
    }

    /// Whether the channel is open, at least for receiving.
    pub fn is_open(&self) -> (open: bool)
        ensures
            open == (self.state() == ChannelState::Open || self.state() == ChannelState::HalfClosed),
    {
        matches!(self.state, ChannelState::Open | ChannelState::HalfClosed)
    }

    /// Whether the channel is closed.
    pub fn is_closed(&self) -> (closed: bool)
        ensures
            closed == (self.state() == ChannelState::Closed),
    {
        matches!(self.state, ChannelState::Closed)
    }

    /// Takes the engine's answer to opening the channel for a command or a
    /// shell. The channel is open if the engine says so.
    pub fn open_session(&mut self, session: &mut Session, res: i32, error: EngineError) -> (r:
        SshResult<()>)
        ensures
            crate::error::status_view(r) == crate::error::status_outcome(
                res,
                error,
                "ssh_channel_open_session failed"@,
            ),
            final(session)@ == old(session)@.with_error(error),
            final(self).state() == if r is Ok {
                ChannelState::Open
            } else {
                old(self).state()
            },
    {
        let r = session.basic_status(res, error, "ssh_channel_open_session failed");
        if r.is_ok() {
            self.state = ChannelState::Open;
        }
        r
    }

    /// Says what the engine is to be given as the command to run.
    pub fn request_exec_command(command: &str) -> (r: SshResult<EngineString>)
        ensures
            crate::text::marshalled_view(r) == marshal(command@),
    {
        EngineString::new(command)
    }

    /// Takes the engine's answer to the request to run a command. A command
    /// that cannot be handed to the engine is refused whatever the answer.
    pub fn request_exec(&self, session: &mut Session, command: &str, res: i32, error: EngineError) -> (r:
        SshResult<()>)
        ensures
            crate::error::status_view(r) == match marshal(command@) {
                Ok(_) => crate::error::status_outcome(res, error, "ssh_channel_request_exec failed"@),
                Err(e) => Err(e),
            },
            final(session)@ == if marshal(command@) is Ok {
                old(session)@.with_error(error)
            } else {
                old(session)@
            },
    {
        match EngineString::new(command) {
            Ok(_) => session.basic_status(res, error, "ssh_channel_request_exec failed"),
            Err(e) => Err(e),
        }
    }

    /// Takes the engine's answer to the request for a shell.
    pub fn request_shell(&self, session: &mut Session, res: i32, error: EngineError) -> (r:
        SshResult<()>)
        ensures
            crate::error::status_view(r) == crate::error::status_outcome(
                res,
                error,
                "ssh_channel_request_shell failed"@,
            ),
            final(session)@ == old(session)@.with_error(error),
    {
        session.basic_status(res, error, "ssh_channel_request_shell failed")
    }

    /// Takes the engine's answer to a read: the number of bytes that it put
    /// into the caller's buffer, or a status below zero.
    pub fn read(&self, session: &mut Session, n: i32, error: EngineError) -> (r: SshResult<usize>)
        ensures
            transfer_view(r) == transfer_outcome(n, error, "ssh_channel_read failed"@),
            final(session)@ == old(session)@.with_error(error),
    {
        session.transfer_status(n, error, "ssh_channel_read failed")
    }

    /// Takes the engine's answer to a write: the number of bytes that it
    /// took from the caller's buffer, or a status below zero.
    pub fn write(&self, session: &mut Session, n: i32, error: EngineError) -> (r: SshResult<usize>)
        ensures
            transfer_view(r) == transfer_outcome(n, error, "ssh_channel_write failed"@),
            final(session)@ == old(session)@.with_error(error),
    {
        session.transfer_status(n, error, "ssh_channel_write failed")
    }

    /// Takes the engine's answer to closing this side's half of the
    /// channel.
    pub fn send_eof(&mut self, session: &mut Session, res: i32, error: EngineError) -> (r:
        SshResult<()>)
        ensures
            crate::error::status_view(r) == crate::error::status_outcome(
                res,
                error,
                "ssh_channel_send_eof failed"@,
            ),
            final(session)@ == old(session)@.with_error(error),
            final(self).state() == if r is Ok && old(self).state() == ChannelState::Open {
                ChannelState::HalfClosed
            } else {
                old(self).state()
            },
    {
        let r = session.basic_status(res, error, "ssh_channel_send_eof failed");
        if r.is_ok() {
            if let ChannelState::Open = self.state {
                self.state = ChannelState::HalfClosed;
            }
        }
        r
    }

    /// Takes what the engine reports as the exit status of the command:
    /// there is none yet while it reports `-1`.
    pub fn get_exit_status(&self, raw: i32) -> (status: Option<i32>)
        ensures
            status == exit_status(raw),
    {
        if raw == -1 {
            None
        } else {
            Some(raw)
        }
    }

    /// Takes the engine's answer to closing the channel.
    pub fn close(&mut self, session: &mut Session, res: i32, error: EngineError) -> (r: SshResult<
        (),
    >)
        ensures
            crate::error::status_view(r) == crate::error::status_outcome(
                res,
                error,
                "ssh_channel_close failed"@,
            ),
            final(session)@ == old(session)@.with_error(error),
            final(self).state() == if r is Ok {
                ChannelState::Closed
            } else {
                old(self).state()
            },
    {
        let r = session.basic_status(res, error, "ssh_channel_close failed");
        if r.is_ok() {
            self.state = ChannelState::Closed;
        }
        r
    }
}

} // verus!
