//! The byte form of each message: a tag that names the variant, as a 32-bit
//! little-endian number, followed by the variant's fields in declaration order.

use vstd::prelude::*;
use crate::message::{
    strings_view,
    ClientMessage,
    ClientMessageView,
    ServerMessage,
    ServerMessageView,
    UnityLogType,
};
use crate::wire::{
    lemma_concat_assoc,
    lemma_read_bool,
    lemma_read_opt_text,
    lemma_read_text,
    lemma_read_text_list,
    lemma_read_u32_le,
    lemma_skip_prefix,
    opt_text_view,
    put_bool,
    put_opt_text,
    put_text,
    put_text_list,
    put_u32_le,
    read_bool,
    read_opt_text,
    read_text,
    read_text_list,
    read_u32_le,
    spec_bool_bytes,
    spec_opt_text_bytes,
    spec_opt_text_fits,
    spec_read_bool,
    spec_read_opt_text,
    spec_read_text,
    spec_read_text_list,
    spec_read_u32_le,
    spec_text_bytes,
    spec_text_fits,
    spec_text_list_bytes,
    spec_text_list_fits,
    spec_u32_le_bytes,
};

verus! {

/// Why a message could not be written or read.
#[derive(Debug, Clone, Copy, PartialEq, Eq, Structural)]
pub enum CodecError {
    /// The message has no byte form: its payload is too long for a frame.
    SerializationError,
    /// The payload does not have the shape of the expected message.
    DeserializationError,
    /// The stream ended in the middle of a frame.
    UnexpectedEof,
}

/// A message with a byte form.
pub trait Payload: View + Sized {
    /// Whether a message with this content can be written at all.
    spec fn spec_representable(content: Self::V) -> bool;

    /// The bytes of a message with this content.
    spec fn spec_payload(content: Self::V) -> Seq<u8>;

    /// The content of the message at the front of `bytes` and the number of
    /// bytes it takes, or `None` where `bytes` does not start with a message.
    spec fn spec_read(bytes: Seq<u8>) -> Option<(Self::V, nat)>;

    /// Reading the bytes of a message gives the message back and takes
    /// exactly those bytes, whatever follows them.
    proof fn lemma_round_trip(content: Self::V, tail: Seq<u8>)
        requires
            Self::spec_representable(content),
        ensures
            Self::spec_read(Self::spec_payload(content) + tail) == Some(
                (content, Self::spec_payload(content).len()),
            ),
    ;

    /// Appends the bytes of this message to `dst`.
    fn write_payload(&self, dst: &mut Vec<u8>)
        ensures
            Self::spec_representable(self@),
            final(dst)@ == old(dst)@ + Self::spec_payload(self@),
    ;

    /// Reads the message at the front of `src`. Bytes after it are ignored.
    fn read_payload(src: &[u8]) -> (r: Result<Self, CodecError>)
        ensures
            match Self::spec_read(src@) {
                Some((content, _)) => r matches Ok(message) && message@ == content,
                None => r == Err::<Self, CodecError>(CodecError::DeserializationError),
            },
    ;
}

impl Payload for ClientMessage {
    open spec fn spec_representable(content: ClientMessageView) -> bool {
        match content {
            ClientMessageView::CommandRequest { cmd, args } => spec_text_fits(cmd)
                && spec_text_list_fits(args),
        }
    }

    open spec fn spec_payload(content: ClientMessageView) -> Seq<u8> {
        match content {
            ClientMessageView::CommandRequest { cmd, args } => spec_u32_le_bytes(0)
                + spec_text_bytes(cmd) + spec_text_list_bytes(args),
        }
    }

    open spec fn spec_read(bytes: Seq<u8>) -> Option<(ClientMessageView, nat)> {
        match spec_read_u32_le(bytes) {
            Some((tag, _)) if tag == 0 => match spec_read_text(bytes.skip(4)) {
                None => None,
                Some((cmd, n)) => match spec_read_text_list(bytes.skip(4 + n as int)) {
                    None => None,
                    Some((args, m)) => Some(
                        (ClientMessageView::CommandRequest { cmd, args }, 4 + n + m),
                    ),
                },
            },
            _ => None,
        }
    }

    proof fn lemma_round_trip(content: ClientMessageView, tail: Seq<u8>) {
        match content {
            ClientMessageView::CommandRequest { cmd, args } => {
                let all = Self::spec_payload(content) + tail;
                let after_tag = spec_text_bytes(cmd) + (spec_text_list_bytes(args) + tail);
                lemma_read_u32_le(0, after_tag);
                assert(all =~= spec_u32_le_bytes(0) + after_tag);
                assert(all.skip(4) =~= after_tag);
                lemma_read_text(cmd, spec_text_list_bytes(args) + tail);
                let n = spec_text_bytes(cmd).len();
                assert(all.skip(4 + n as int) =~= spec_text_list_bytes(args) + tail);
                lemma_read_text_list(args, tail);
            },
        }
    }

    fn write_payload(&self, dst: &mut Vec<u8>) {
        match self {
            ClientMessage::CommandRequest { cmd, args } => {
                put_u32_le(dst, 0);
                put_text(dst, cmd.as_str());
                put_text_list(dst, args);
                assert(dst@ =~= old(dst)@ + Self::spec_payload(self@));
            },
        }
    }

    fn read_payload(src: &[u8]) -> (r: Result<Self, CodecError>) {
        assert(src@.skip(0) =~= src@);
        match read_u32_le(src, 0) {
            Some(tag) if tag == 0 => match read_text(src, 4) {
                None => Err(CodecError::DeserializationError),
                Some((cmd, next)) => match read_text_list(src, next) {
                    None => Err(CodecError::DeserializationError),
                    Some((args, _)) => Ok(ClientMessage::CommandRequest { cmd, args }),
                },
            },
            _ => Err(CodecError::DeserializationError),
        }
    }
}

impl Payload for ServerMessage {
    open spec fn spec_representable(content: ServerMessageView) -> bool {
        match content {
            ServerMessageView::UnityConsoleOutput { log_type, log, stack_trace } => spec_text_fits(
                log,
            ) && spec_text_fits(stack_trace),
            ServerMessageView::CommandFinished { is_success, msg } => spec_opt_text_fits(msg),
            _ => true,
        }
    }

    open spec fn spec_payload(content: ServerMessageView) -> Seq<u8> {
        match content {
            ServerMessageView::UnityConsoleOutput {
                log_type,
                log,
                stack_trace,
            } => spec_u32_le_bytes(0) + spec_u32_le_bytes(log_type.spec_code()) + spec_text_bytes(
                log,
            ) + spec_text_bytes(stack_trace),
            ServerMessageView::CompilationStarted => spec_u32_le_bytes(1),
            ServerMessageView::Compiling => spec_u32_le_bytes(2),
            ServerMessageView::CompilationFinished => spec_u32_le_bytes(3),
            ServerMessageView::AssemblyUnloaded => spec_u32_le_bytes(4),
            ServerMessageView::AssemblyReloading => spec_u32_le_bytes(5),
            ServerMessageView::AssemblyReloaded => spec_u32_le_bytes(6),
            ServerMessageView::IsBusy => spec_u32_le_bytes(7),
            ServerMessageView::CommandFinished { is_success, msg } => spec_u32_le_bytes(8)
                + spec_bool_bytes(is_success) + spec_opt_text_bytes(msg),
        }
    }

    open spec fn spec_read(bytes: Seq<u8>) -> Option<(ServerMessageView, nat)> {
        match spec_read_u32_le(bytes) {
            None => None,
            Some((tag, _)) => {
                if tag == 0 {
                    spec_read_console_output(bytes)
                } else if tag == 1 {
                    Some((ServerMessageView::CompilationStarted, 4))
                } else if tag == 2 {
                    Some((ServerMessageView::Compiling, 4))
                } else if tag == 3 {
                    Some((ServerMessageView::CompilationFinished, 4))
                } else if tag == 4 {
                    Some((ServerMessageView::AssemblyUnloaded, 4))
                } else if tag == 5 {
                    Some((ServerMessageView::AssemblyReloading, 4))
                } else if tag == 6 {
                    Some((ServerMessageView::AssemblyReloaded, 4))
                } else if tag == 7 {
                    Some((ServerMessageView::IsBusy, 4))
                } else if tag == 8 {
                    spec_read_command_finished(bytes)
                } else {
                    None
                }
            },
        }
    }

    proof fn lemma_round_trip(content: ServerMessageView, tail: Seq<u8>) {
        match content {
            ServerMessageView::UnityConsoleOutput { log_type, log, stack_trace } => {
                lemma_console_output_round_trip(log_type, log, stack_trace, tail);
            },
            ServerMessageView::CommandFinished { is_success, msg } => {
                lemma_command_finished_round_trip(is_success, msg, tail);
            },
            ServerMessageView::CompilationStarted => {
                lemma_read_u32_le(1, tail);
            },
            ServerMessageView::Compiling => {
                lemma_read_u32_le(2, tail);
            },
            ServerMessageView::CompilationFinished => {
                lemma_read_u32_le(3, tail);
            },
            ServerMessageView::AssemblyUnloaded => {
                lemma_read_u32_le(4, tail);
            },
            ServerMessageView::AssemblyReloading => {
                lemma_read_u32_le(5, tail);
            },
            ServerMessageView::AssemblyReloaded => {
                lemma_read_u32_le(6, tail);
            },
            ServerMessageView::IsBusy => {
                lemma_read_u32_le(7, tail);
            },
        }
    }

    fn write_payload(&self, dst: &mut Vec<u8>) {
        match self {
            ServerMessage::UnityConsoleOutput { log_type, log, stack_trace } => {
                put_u32_le(dst, 0);
                put_u32_le(dst, log_type.code());
                put_text(dst, log.as_str());
                put_text(dst, stack_trace.as_str());
            },
            ServerMessage::CompilationStarted => put_u32_le(dst, 1),
            ServerMessage::Compiling => put_u32_le(dst, 2),
            ServerMessage::CompilationFinished {  } => put_u32_le(dst, 3),
            ServerMessage::AssemblyUnloaded => put_u32_le(dst, 4),
            ServerMessage::AssemblyReloading => put_u32_le(dst, 5),
            ServerMessage::AssemblyReloaded => put_u32_le(dst, 6),
            ServerMessage::IsBusy => put_u32_le(dst, 7),
            ServerMessage::CommandFinished { is_success, msg } => {
                put_u32_le(dst, 8);
                put_bool(dst, *is_success);
                put_opt_text(dst, msg);
            },
        }
    }

    fn read_payload(src: &[u8]) -> (r: Result<Self, CodecError>) {
        match read_u32_le(src, 0) {
            None => Err(CodecError::DeserializationError),
            Some(tag) => {
                if tag == 0 {
                    read_console_output(src)
                } else if tag == 1 {
                    Ok(ServerMessage::CompilationStarted)
                } else if tag == 2 {
                    Ok(ServerMessage::Compiling)
                } else if tag == 3 {
                    Ok(ServerMessage::CompilationFinished {  })
                } else if tag == 4 {
                    Ok(ServerMessage::AssemblyUnloaded)
                } else if tag == 5 {
                    Ok(ServerMessage::AssemblyReloading)
                } else if tag == 6 {
                    Ok(ServerMessage::AssemblyReloaded)
                } else if tag == 7 {
                    Ok(ServerMessage::IsBusy)
                } else if tag == 8 {
                    read_command_finished(src)
                } else {
                    Err(CodecError::DeserializationError)
                }
            },
        }
    }
}

/// The console-output message whose fields follow the four tag bytes at the
/// front of `bytes`. A severity code that names no severity reads as
/// `Unknown`.
pub open spec fn spec_read_console_output(bytes: Seq<u8>) -> Option<(ServerMessageView, nat)> {
    match spec_read_u32_le(bytes.skip(4)) {
        None => None,
        Some((code, _)) => match spec_read_text(bytes.skip(8)) {
            None => None,
            Some((log, n)) => match spec_read_text(bytes.skip(8 + n as int)) {
                None => None,
                Some((stack_trace, m)) => Some(
                    (
                        ServerMessageView::UnityConsoleOutput {
                            log_type: UnityLogType::spec_from_code(code as int),
                            log,
                            stack_trace,
                        },
                        8 + n + m,
                    ),
                ),
            },
        },
    }
}

/// The command-finished message whose fields follow the four tag bytes at the
/// front of `bytes`.
pub open spec fn spec_read_command_finished(bytes: Seq<u8>) -> Option<(ServerMessageView, nat)> {
    match spec_read_bool(bytes.skip(4)) {
        None => None,
        Some((is_success, _)) => match spec_read_opt_text(bytes.skip(5)) {
            None => None,
            Some((msg, n)) => Some(
                (ServerMessageView::CommandFinished { is_success, msg }, 5 + n),
            ),
        },
    }
}

/// Reads the fields of a console-output message after its tag.
fn read_console_output(src: &[u8]) -> (r: Result<ServerMessage, CodecError>)
    requires
        src@.len() >= 4,
    ensures
        match spec_read_console_output(src@) {
            Some((content, _)) => r matches Ok(message) && message@ == content,
            None => r == Err::<ServerMessage, CodecError>(CodecError::DeserializationError),
        },
{
    match read_u32_le(src, 4) {
        None => Err(CodecError::DeserializationError),
        Some(code) => match read_text(src, 8) {
            None => Err(CodecError::DeserializationError),
            Some((log, next)) => match read_text(src, next) {
                None => Err(CodecError::DeserializationError),
                Some((stack_trace, _)) => Ok(
                    ServerMessage::UnityConsoleOutput {
                        log_type: UnityLogType::from_code(code),
                        log,
                        stack_trace,
                    },
                ),
            },
        },
    }
}

/// Reads the fields of a command-finished message after its tag.
fn read_command_finished(src: &[u8]) -> (r: Result<ServerMessage, CodecError>)
    requires
        src@.len() >= 4,
    ensures
        match spec_read_command_finished(src@) {
            Some((content, _)) => r matches Ok(message) && message@ == content,
            None => r == Err::<ServerMessage, CodecError>(CodecError::DeserializationError),
        },
{
    match read_bool(src, 4) {
        None => Err(CodecError::DeserializationError),
        Some(is_success) => match read_opt_text(src, 5) {
            None => Err(CodecError::DeserializationError),
            Some((msg, _)) => Ok(ServerMessage::CommandFinished { is_success, msg }),
        },
    }
}

/// The fields of a console-output message are read back from their bytes.
proof fn lemma_console_output_fields(
    log_type: UnityLogType,
    log: Seq<char>,
    stack_trace: Seq<char>,
    head: Seq<u8>,
    tail: Seq<u8>,
)
    requires
        spec_text_fits(log),
        spec_text_fits(stack_trace),
        head.len() == 4,
    ensures
        spec_read_console_output(
            head + spec_u32_le_bytes(log_type.spec_code()) + spec_text_bytes(log) + spec_text_bytes(
                stack_trace,
            ) + tail,
        ) == Some(
            (
                ServerMessageView::UnityConsoleOutput { log_type, log, stack_trace },
                (8 + spec_text_bytes(log).len() + spec_text_bytes(stack_trace).len()) as nat,
            ),
        ),
{
    let code = log_type.spec_code();
    let code_bytes = spec_u32_le_bytes(code);
    let log_bytes = spec_text_bytes(log);
    let trace_bytes = spec_text_bytes(stack_trace);
    let all = head + code_bytes + log_bytes + trace_bytes + tail;
    let after_log = trace_bytes + tail;
    let after_code = log_bytes + after_log;
    lemma_read_u32_le(code, after_code);
    lemma_read_text(log, after_log);
    lemma_read_text(stack_trace, tail);
    assert(all == head + (code_bytes + after_code) && all == (head + code_bytes) + after_code
        && all == (head + code_bytes + log_bytes) + after_log) by {
        lemma_concat_assoc(head + code_bytes + log_bytes, trace_bytes, tail);
        lemma_concat_assoc(head + code_bytes, log_bytes, after_log);
        lemma_concat_assoc(head, code_bytes, after_code);
    }
    lemma_skip_prefix(head, code_bytes + after_code);
    lemma_skip_prefix(head + code_bytes, after_code);
    lemma_skip_prefix(head + code_bytes + log_bytes, after_log);
}

/// A console-output message is read back from its own bytes.
proof fn lemma_console_output_round_trip(
    log_type: UnityLogType,
    log: Seq<char>,
    stack_trace: Seq<char>,
    tail: Seq<u8>,
)
    requires
        spec_text_fits(log),
        spec_text_fits(stack_trace),
    ensures
        ({
            let content = ServerMessageView::UnityConsoleOutput { log_type, log, stack_trace };
            ServerMessage::spec_read(ServerMessage::spec_payload(content) + tail) == Some(
                (content, ServerMessage::spec_payload(content).len()),
            )
        }),
{
    let tag = spec_u32_le_bytes(0);
    let code = spec_u32_le_bytes(log_type.spec_code());
    let after_code = spec_text_bytes(log) + (spec_text_bytes(stack_trace) + tail);
    let all = tag + code + spec_text_bytes(log) + spec_text_bytes(stack_trace) + tail;
    assert(all == tag + (code + after_code)) by {
        lemma_concat_assoc(tag + code + spec_text_bytes(log), spec_text_bytes(stack_trace), tail);
        lemma_concat_assoc(tag + code, spec_text_bytes(log), spec_text_bytes(stack_trace) + tail);
        lemma_concat_assoc(tag, code, after_code);
    }
    lemma_read_u32_le(0, code + after_code);
    lemma_read_u32_le(log_type.spec_code(), after_code);
    lemma_console_output_fields(log_type, log, stack_trace, tag, tail);
}

/// The fields of a command-finished message are read back from their bytes.
proof fn lemma_command_finished_fields(
    is_success: bool,
    msg: Option<Seq<char>>,
    head: Seq<u8>,
    tail: Seq<u8>,
)
    requires
        spec_opt_text_fits(msg),
        head.len() == 4,
    ensures
        spec_read_command_finished(
            head + spec_bool_bytes(is_success) + spec_opt_text_bytes(msg) + tail,
        ) == Some(
            (
                ServerMessageView::CommandFinished { is_success, msg },
                (5 + spec_opt_text_bytes(msg).len()) as nat,
            ),
        ),
{
    let flag_bytes = spec_bool_bytes(is_success);
    let all = head + flag_bytes + spec_opt_text_bytes(msg) + tail;
    let after_flag = spec_opt_text_bytes(msg) + tail;
    lemma_read_bool(is_success, after_flag);
    lemma_read_opt_text(msg, tail);
    assert(all == head + (flag_bytes + after_flag) && all == (head + flag_bytes) + after_flag) by {
        lemma_concat_assoc(head + flag_bytes, spec_opt_text_bytes(msg), tail);
        lemma_concat_assoc(head, flag_bytes, after_flag);
    }
    lemma_skip_prefix(head, flag_bytes + after_flag);
    lemma_skip_prefix(head + flag_bytes, after_flag);
}

/// A command-finished message is read back from its own bytes.
proof fn lemma_command_finished_round_trip(
    is_success: bool,
    msg: Option<Seq<char>>,
    tail: Seq<u8>,
)
    requires
        spec_opt_text_fits(msg),
    ensures
        ({
            let content = ServerMessageView::CommandFinished { is_success, msg };
            ServerMessage::spec_read(ServerMessage::spec_payload(content) + tail) == Some(
                (content, ServerMessage::spec_payload(content).len()),
            )
        }),
{
    let tag = spec_u32_le_bytes(8);
    let flag = spec_bool_bytes(is_success);
    let after_flag = spec_opt_text_bytes(msg) + tail;
    let all = tag + flag + spec_opt_text_bytes(msg) + tail;
    assert(all == tag + (flag + after_flag)) by {
        lemma_concat_assoc(tag + flag, spec_opt_text_bytes(msg), tail);
        lemma_concat_assoc(tag, flag, after_flag);
    }
    lemma_read_u32_le(8, flag + after_flag);
    lemma_command_finished_fields(is_success, msg, tag, tail);
}

} // verus!
