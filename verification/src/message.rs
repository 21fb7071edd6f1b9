//! Messages exchanged between clients and the server.

use vstd::prelude::*;
use vstd::std_specs::convert::FromSpecImpl;

verus! {

/// Severity of a console line reported by the embedded application.
#[derive(Debug, Clone, Copy, PartialEq, Eq)]
pub enum UnityLogType {
    Error,
    Assert,
    Warning,
    Log,
    Exception,
    Unknown,
}

impl UnityLogType {
    /// The severity that an integer code stands for; any code outside `0..=4`
    /// stands for `Unknown`.
    pub open spec fn spec_from_code(code: int) -> UnityLogType {
        if code == 0 {
            UnityLogType::Error
        } else if code == 1 {
            UnityLogType::Assert
        } else if code == 2 {
            UnityLogType::Warning
        } else if code == 3 {
            UnityLogType::Log
        } else if code == 4 {
            UnityLogType::Exception
        } else {
            UnityLogType::Unknown
        }
    }

    /// The integer code of a severity, `0..=5` in declaration order.
    pub open spec fn spec_code(self) -> u32 {
        match self {
            UnityLogType::Error => 0,
            UnityLogType::Assert => 1,
            UnityLogType::Warning => 2,
            UnityLogType::Log => 3,
            UnityLogType::Exception => 4,
            UnityLogType::Unknown => 5,
        }
    }

    /// The integer code of this severity.
    pub fn code(&self) -> (code: u32)
        ensures
            code == self.spec_code(),
            UnityLogType::spec_from_code(code as int) == *self,
    {
        match self {
            UnityLogType::Error => 0,
            UnityLogType::Assert => 1,
            UnityLogType::Warning => 2,
            UnityLogType::Log => 3,
            UnityLogType::Exception => 4,
            UnityLogType::Unknown => 5,
        }
    }

    /// The severity that an unsigned code stands for, with `Unknown` as the
    /// fallback for every code that names no other severity.
    pub fn from_code(code: u32) -> (log_type: UnityLogType)
        ensures
            log_type == UnityLogType::spec_from_code(code as int),
    {
        if code == 0 {
            UnityLogType::Error
        } else if code == 1 {
            UnityLogType::Assert
        } else if code == 2 {
            UnityLogType::Warning
        } else if code == 3 {
            UnityLogType::Log
        } else if code == 4 {
            UnityLogType::Exception
        } else {
            UnityLogType::Unknown
        }
    }
}

impl From<i32> for UnityLogType {
    fn from(value: i32) -> (log_type: UnityLogType) {
        if value == 0 {
            UnityLogType::Error
        } else if value == 1 {
            UnityLogType::Assert
        } else if value == 2 {
            UnityLogType::Warning
        } else if value == 3 {
            UnityLogType::Log
        } else if value == 4 {
            UnityLogType::Exception
        } else {
            UnityLogType::Unknown
        }
    }
}

impl FromSpecImpl<i32> for UnityLogType {
    open spec fn obeys_from_spec() -> bool {
        true
    }

    open spec fn from_spec(value: i32) -> UnityLogType {
        UnityLogType::spec_from_code(value as int)
    }
}

/// A request sent from a client to the server.
#[derive(Debug, Clone, PartialEq, Eq)]
pub enum ClientMessage {
    /// Invoke the named command with an ordered list of arguments.
    CommandRequest { cmd: String, args: Vec<String> },
}

/// What a `ClientMessage` holds, as mathematical values.
pub enum ClientMessageView {
    CommandRequest { cmd: Seq<char>, args: Seq<Seq<char>> },
}

/// The texts held by a list of strings.
pub open spec fn strings_view(strings: Seq<String>) -> Seq<Seq<char>> {
    Seq::new(strings.len(), |i: int| strings[i]@)
}

impl View for ClientMessage {
    type V = ClientMessageView;

    open spec fn view(&self) -> ClientMessageView {
        match self {
            ClientMessage::CommandRequest { cmd, args } => ClientMessageView::CommandRequest {
                cmd: cmd@,
                args: strings_view(args@),
            },
        }
    }
}

/// An event or response sent from the server to a client.
#[derive(Debug, Clone, PartialEq, Eq)]
pub enum ServerMessage {
    /// A line of console output with its severity and stack trace.
    UnityConsoleOutput { log_type: UnityLogType, log: String, stack_trace: String },
    CompilationStarted,
    Compiling,
    CompilationFinished {  },
    AssemblyUnloaded,
    AssemblyReloading,
    AssemblyReloaded,
    /// The application cannot take a command right now.
    IsBusy,
    /// A command has completed, successfully or not, with an optional result text.
    CommandFinished { is_success: bool, msg: Option<String> },
}

/// What a `ServerMessage` holds, as mathematical values.
pub enum ServerMessageView {
    UnityConsoleOutput { log_type: UnityLogType, log: Seq<char>, stack_trace: Seq<char> },
    CompilationStarted,
    Compiling,
    CompilationFinished,
    AssemblyUnloaded,
    AssemblyReloading,
    AssemblyReloaded,
    IsBusy,
    CommandFinished { is_success: bool, msg: Option<Seq<char>> },
}

impl View for ServerMessage {
    type V = ServerMessageView;

    open spec fn view(&self) -> ServerMessageView {
        match self {
            ServerMessage::UnityConsoleOutput {
                log_type,
                log,
                stack_trace,
            } => ServerMessageView::UnityConsoleOutput {
                log_type: *log_type,
                log: log@,
                stack_trace: stack_trace@,
            },
            ServerMessage::CompilationStarted => ServerMessageView::CompilationStarted,
            ServerMessage::Compiling => ServerMessageView::Compiling,
            ServerMessage::CompilationFinished {  } => ServerMessageView::CompilationFinished,
            ServerMessage::AssemblyUnloaded => ServerMessageView::AssemblyUnloaded,
            ServerMessage::AssemblyReloading => ServerMessageView::AssemblyReloading,
            ServerMessage::AssemblyReloaded => ServerMessageView::AssemblyReloaded,
            ServerMessage::IsBusy => ServerMessageView::IsBusy,
            ServerMessage::CommandFinished { is_success, msg } => ServerMessageView::CommandFinished {
                is_success: *is_success,
                msg: match msg {
                    Some(text) => Some(text@),
                    None => None,
                },
            },
        }
    }
}

impl ServerMessage {
    /// Whether this message reports the end of a command, and if so whether
    /// the command succeeded.
    pub fn command_outcome(&self) -> (outcome: Option<bool>)
        ensures
            outcome == match self@ {
                ServerMessageView::CommandFinished { is_success, .. } => Some(is_success),
                _ => None,
            },
    {
        match self {
            ServerMessage::CommandFinished { is_success, .. } => Some(*is_success),
            _ => None,
        }
    }
}

} // verus!
