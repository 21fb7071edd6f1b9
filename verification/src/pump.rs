//! The two pumps of a connection. The read pump turns what arrives on the
//! socket into command invocations for the router; the write pump turns the
//! messages queued for the connection into writes on the socket. Each pump is
//! a small state machine: the embedding program reports what happened, the
//! pump says what to do next.
//!
//! A pump that has terminated stays terminated, and says so with the
//! connection to release from the registry.

use vstd::prelude::*;
use crate::connection::ConnectionId;
use crate::message::{ClientMessage, ServerMessage};

verus! {

/// A command sent by a client, tagged with the connection it came in on.
#[derive(Debug, Clone, PartialEq, Eq)]
pub struct CommandInvocation {
    pub id: ConnectionId,
    pub cmd: String,
    pub args: Vec<String>,
}

/// What the read side of a connection reports.
#[derive(Debug, Clone, PartialEq, Eq)]
pub enum ReadEvent {
    /// A frame was decoded into a message.
    Message(ClientMessage),
    /// A frame could not be decoded.
    Malformed,
    /// The stream has ended.
    Closed,
    /// The router no longer takes commands: the last one was not forwarded.
    ForwardFailed,
}

/// What the read pump does next.
#[derive(Debug, Clone, PartialEq, Eq)]
pub enum ReadAction {
    /// Hand the invocation to the router and go on reading.
    Forward(CommandInvocation),
    /// Stop reading and release the connection.
    Terminate { release: ConnectionId },
}

/// The read pump's answer to `event`, and whether the pump lives on.
pub open spec fn spec_read_step(alive: bool, id: ConnectionId, event: ReadEvent) -> (
    bool,
    ReadAction,
) {
    if !alive {
        (false, ReadAction::Terminate { release: id })
    } else {
        match event {
            ReadEvent::Message(ClientMessage::CommandRequest { cmd, args }) => (
                true,
                ReadAction::Forward(CommandInvocation { id, cmd, args }),
            ),
            _ => (false, ReadAction::Terminate { release: id }),
        }
    }
}

/// The read side of one connection.
pub struct ReadPump {
    id: ConnectionId,
    alive: bool,
}

impl ReadPump {
    /// The connection that this pump reads for.
    pub closed spec fn spec_id(&self) -> ConnectionId {
        self.id
    }

    /// Whether the pump has not terminated yet.
    pub closed spec fn spec_alive(&self) -> bool {
        self.alive
    }

    /// A live pump for the connection `id`.
    pub fn new(id: ConnectionId) -> (pump: ReadPump)
        ensures
            pump.spec_id() == id,
            pump.spec_alive(),
    {
        ReadPump { id, alive: true }
    }

    pub fn id(&self) -> (id: ConnectionId)
        ensures
            id == self.spec_id(),
    {
        self.id
    }

    pub fn is_alive(&self) -> (alive: bool)
        ensures
            alive == self.spec_alive(),
    {
        self.alive
    }

    /// Takes one event and says what to do. A command request is forwarded
    /// under this pump's connection, with its name and arguments as they
    /// came; anything else ends the pump.
    pub fn step(&mut self, event: ReadEvent) -> (action: ReadAction)
        ensures
            final(self).spec_id() == old(self).spec_id(),
            (final(self).spec_alive(), action) == spec_read_step(
                old(self).spec_alive(),
                old(self).spec_id(),
                event,
            ),
    {
        if !self.alive {
            ReadAction::Terminate { release: self.id }
        } else {
            match event {
                ReadEvent::Message(ClientMessage::CommandRequest { cmd, args }) => {
                    ReadAction::Forward(CommandInvocation { id: self.id, cmd, args })
                },
                _ => {
                    self.alive = false;
                    ReadAction::Terminate { release: self.id }
                },
            }
        }
    }
}

/// What the write side of a connection reports.
#[derive(Debug, Clone, PartialEq, Eq)]
pub enum WriteEvent {
    /// A message was taken from the connection's outbound channel.
    Message(ServerMessage),
    /// The outbound channel is closed and empty.
    ChannelClosed,
    /// The last message could not be written to the socket.
    WriteFailed,
}

/// What the write pump does next.
#[derive(Debug, Clone, PartialEq, Eq)]
pub enum WriteAction {
    /// Write the message to the socket and go on.
    Write(ServerMessage),
    /// Stop writing and release the connection.
    Terminate { release: ConnectionId },
}

/// The write pump's answer to `event`, and whether the pump lives on.
pub open spec fn spec_write_step(alive: bool, id: ConnectionId, event: WriteEvent) -> (
    bool,
    WriteAction,
) {
    if !alive {
        (false, WriteAction::Terminate { release: id })
    } else {
        match event {
            WriteEvent::Message(message) => (true, WriteAction::Write(message)),
            _ => (false, WriteAction::Terminate { release: id }),
        }
    }
}

/// The write side of one connection.
pub struct WritePump {
    id: ConnectionId,
    alive: bool,
}

impl WritePump {
    /// The connection that this pump writes for.
    pub closed spec fn spec_id(&self) -> ConnectionId {
        self.id
    }

    /// Whether the pump has not terminated yet.
    pub closed spec fn spec_alive(&self) -> bool {
        self.alive
    }

    /// A live pump for the connection `id`.
    pub fn new(id: ConnectionId) -> (pump: WritePump)
        ensures
            pump.spec_id() == id,
            pump.spec_alive(),
    {
        WritePump { id, alive: true }
    }

    pub fn id(&self) -> (id: ConnectionId)
        ensures
            id == self.spec_id(),
    {
        self.id
    }

    pub fn is_alive(&self) -> (alive: bool)
        ensures
            alive == self.spec_alive(),
    {
        self.alive
    }

    /// Takes one event and says what to do. Messages are written in the
    /// order in which they are reported; a closed channel or a failed write
    /// ends the pump.
    pub fn step(&mut self, event: WriteEvent) -> (action: WriteAction)
        ensures
            final(self).spec_id() == old(self).spec_id(),
            (final(self).spec_alive(), action) == spec_write_step(
                old(self).spec_alive(),
                old(self).spec_id(),
                event,
            ),
    {
        if !self.alive {
            WriteAction::Terminate { release: self.id }
        } else {
            match event {
                WriteEvent::Message(message) => WriteAction::Write(message),
                _ => {
                    self.alive = false;
                    WriteAction::Terminate { release: self.id }
                },
            }
        }
    }
}

} // verus!
