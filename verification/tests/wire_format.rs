use ucli::frame::{next_frame_len, payload_len, write_frame};
use ucli::message::{ClientMessage, ServerMessage, UnityLogType};
use ucli::payload::Payload;
use ucli::wire::{
    put_bool, put_bytes, put_opt_text, put_text, put_text_list, put_u32_be, put_u32_le,
    put_u64_le, read_bool, read_opt_text, read_text, read_text_list, read_u32_be, read_u32_le,
    read_u64_le, u32_from_parts,
};

fn payload_of<M: Payload>(message: &M) -> Vec<u8> {
    let mut bytes = Vec::new();
    message.write_payload(&mut bytes);
    bytes
}

#[test]
fn integers_are_written_in_their_byte_order() {
    let mut bytes: Vec<u8> = vec![0xee];
    put_u32_le(&mut bytes, 0x0102_0304);
    put_u32_be(&mut bytes, 0x0102_0304);
    put_u64_le(&mut bytes, 0x0102_0304_0506_0708);
    assert_eq!(bytes, vec![0xee, 4, 3, 2, 1, 1, 2, 3, 4, 8, 7, 6, 5, 4, 3, 2, 1]);
    assert_eq!(read_u32_le(&bytes, 1), Some(0x0102_0304));
    assert_eq!(read_u32_be(&bytes, 5), Some(0x0102_0304));
    assert_eq!(read_u64_le(&bytes, 9), Some(0x0102_0304_0506_0708));
    assert_eq!(read_u64_le(&bytes, 10), None);
    assert_eq!(read_u32_le(&bytes, 14), None);
    assert_eq!(read_u32_be(&bytes, 17), None);
    assert_eq!(u32_from_parts(0x78, 0x56, 0x34, 0x12), 0x1234_5678);
}

#[test]
fn extreme_integers_round_trip() {
    for value in [0u32, 1, 255, 256, 65535, 65536, u32::MAX] {
        let mut bytes = Vec::new();
        put_u32_le(&mut bytes, value);
        assert_eq!(bytes, value.to_le_bytes());
        assert_eq!(read_u32_le(&bytes, 0), Some(value));
        let mut bytes = Vec::new();
        put_u32_be(&mut bytes, value);
        assert_eq!(bytes, value.to_be_bytes());
        assert_eq!(read_u32_be(&bytes, 0), Some(value));
    }
    for value in [0u64, u32::MAX as u64, u32::MAX as u64 + 1, u64::MAX] {
        let mut bytes = Vec::new();
        put_u64_le(&mut bytes, value);
        assert_eq!(bytes, value.to_le_bytes());
        assert_eq!(read_u64_le(&bytes, 0), Some(value));
    }
}

#[test]
fn text_is_length_prefixed_utf8() {
    let mut bytes = Vec::new();
    put_text(&mut bytes, "h\u{e9}");
    assert_eq!(bytes, vec![3, 0, 0, 0, 0, 0, 0, 0, b'h', 0xc3, 0xa9]);
    assert_eq!(read_text(&bytes, 0), Some(("h\u{e9}".to_string(), 11)));
    assert_eq!(read_text(&bytes[..10], 0), None);
    assert_eq!(read_text(&bytes, 1), None);
}

#[test]
fn text_list_is_count_then_items() {
    let texts = vec!["a".to_string(), String::new(), "bc".to_string()];
    let mut bytes = vec![9u8];
    put_text_list(&mut bytes, &texts);
    let mut expected = vec![9u8, 3, 0, 0, 0, 0, 0, 0, 0];
    expected.extend_from_slice(&[1, 0, 0, 0, 0, 0, 0, 0, b'a']);
    expected.extend_from_slice(&[0, 0, 0, 0, 0, 0, 0, 0]);
    expected.extend_from_slice(&[2, 0, 0, 0, 0, 0, 0, 0, b'b', b'c']);
    assert_eq!(bytes, expected);
    assert_eq!(read_text_list(&bytes, 1), Some((texts, bytes.len())));
    assert_eq!(read_text_list(&bytes[..bytes.len() - 1], 1), None);
}

#[test]
fn flags_and_optional_texts() {
    let mut bytes = Vec::new();
    put_bool(&mut bytes, true);
    put_bool(&mut bytes, false);
    put_opt_text(&mut bytes, &None);
    put_opt_text(&mut bytes, &Some("z".to_string()));
    put_bytes(&mut bytes, &[5, 6]);
    assert_eq!(bytes, vec![1, 0, 0, 1, 1, 0, 0, 0, 0, 0, 0, 0, b'z', 5, 6]);
    assert_eq!(read_bool(&bytes, 0), Some(true));
    assert_eq!(read_bool(&bytes, 1), Some(false));
    assert_eq!(read_bool(&bytes, 13), None);
    assert_eq!(read_bool(&bytes, 15), None);
    assert_eq!(read_opt_text(&bytes, 2), Some((None, 3)));
    assert_eq!(read_opt_text(&bytes, 3), Some((Some("z".to_string()), 13)));
    assert_eq!(read_opt_text(&bytes, 13), None);
    assert_eq!(read_opt_text(&bytes, 15), None);
}

#[test]
fn frames_and_their_lengths() {
    let mut stream = vec![1u8];
    assert!(write_frame(&[7, 8, 9], &mut stream));
    assert_eq!(stream, vec![1, 0, 0, 0, 3, 7, 8, 9]);
    assert_eq!(payload_len(&[0, 0, 0, 3]), 3);
    assert_eq!(payload_len(&[0x01, 0x02, 0x03, 0x04]), 0x0102_0304);
    assert_eq!(next_frame_len(&stream[1..]), Some(3));
    assert_eq!(next_frame_len(&stream[1..7]), None);
    assert_eq!(next_frame_len(&stream[1..4]), None);
    assert_eq!(next_frame_len(&[0, 0, 0, 0]), Some(0));
    assert_eq!(next_frame_len(&[]), None);
}

#[test]
fn tags_of_the_server_messages() {
    let tags: Vec<(ServerMessage, u8)> = vec![
        (ServerMessage::CompilationStarted, 1),
        (ServerMessage::Compiling, 2),
        (ServerMessage::CompilationFinished {}, 3),
        (ServerMessage::AssemblyUnloaded, 4),
        (ServerMessage::AssemblyReloading, 5),
        (ServerMessage::AssemblyReloaded, 6),
        (ServerMessage::IsBusy, 7),
    ];
    for (message, tag) in tags {
        assert_eq!(payload_of(&message), vec![tag, 0, 0, 0]);
        assert_eq!(ServerMessage::read_payload(&[tag, 0, 0, 0]), Ok(message));
    }
}

#[test]
fn payloads_match_bincode_for_requests() {
    let cmd = "foo".to_string();
    let args = vec!["--bar".to_string(), "42".to_string(), "\u{1f913}".to_string()];
    let message = ClientMessage::CommandRequest { cmd: cmd.clone(), args: args.clone() };
    let expected = bincode::serialize(&(0u32, cmd.clone(), args.clone())).unwrap();
    assert_eq!(payload_of(&message), expected);

    let read: (u32, String, Vec<String>) = bincode::deserialize(&payload_of(&message)).unwrap();
    assert_eq!(read, (0, cmd, args));
    assert_eq!(ClientMessage::read_payload(&expected), Ok(message));
}

#[test]
fn payloads_match_bincode_for_console_output() {
    let severities = [
        (UnityLogType::Error, 0u32),
        (UnityLogType::Assert, 1),
        (UnityLogType::Warning, 2),
        (UnityLogType::Log, 3),
        (UnityLogType::Exception, 4),
        (UnityLogType::Unknown, 5),
    ];
    for (log_type, code) in severities {
        let log = "log to connection A".to_string();
        let stack_trace = "some stack trace A".repeat(100);
        let message = ServerMessage::UnityConsoleOutput {
            log_type,
            log: log.clone(),
            stack_trace: stack_trace.clone(),
        };
        let expected = bincode::serialize(&(0u32, code, log, stack_trace)).unwrap();
        assert_eq!(payload_of(&message), expected);
        assert_eq!(ServerMessage::read_payload(&expected), Ok(message));
    }
}

#[test]
fn payloads_match_bincode_for_command_finished() {
    for is_success in [true, false] {
        for msg in [None, Some("ok".to_string()), Some(String::new())] {
            let message = ServerMessage::CommandFinished { is_success, msg: msg.clone() };
            let expected = bincode::serialize(&(8u32, is_success, msg)).unwrap();
            assert_eq!(payload_of(&message), expected);
            assert_eq!(ServerMessage::read_payload(&expected), Ok(message));
        }
    }
}

#[test]
fn severity_codes() {
    assert_eq!(UnityLogType::from(0), UnityLogType::Error);
    assert_eq!(UnityLogType::from(1), UnityLogType::Assert);
    assert_eq!(UnityLogType::from(2), UnityLogType::Warning);
    assert_eq!(UnityLogType::from(3), UnityLogType::Log);
    assert_eq!(UnityLogType::from(4), UnityLogType::Exception);
    assert_eq!(UnityLogType::from(5), UnityLogType::Unknown);
    assert_eq!(UnityLogType::from(6), UnityLogType::Unknown);
    assert_eq!(UnityLogType::from(-1), UnityLogType::Unknown);
    assert_eq!(UnityLogType::from(i32::MAX), UnityLogType::Unknown);
    assert_eq!(UnityLogType::from(i32::MIN), UnityLogType::Unknown);
    for code in 0..=5u32 {
        assert_eq!(UnityLogType::from_code(code).code(), code);
    }
    assert_eq!(UnityLogType::from_code(6), UnityLogType::Unknown);
    assert_eq!(UnityLogType::from_code(u32::MAX), UnityLogType::Unknown);
}

#[test]
fn only_the_end_of_a_command_has_an_outcome() {
    assert_eq!(
        ServerMessage::CommandFinished { is_success: true, msg: None }.command_outcome(),
        Some(true)
    );
    assert_eq!(
        ServerMessage::CommandFinished { is_success: false, msg: Some("no".to_string()) }
            .command_outcome(),
        Some(false)
    );
    assert_eq!(ServerMessage::IsBusy.command_outcome(), None);
    assert_eq!(
        ServerMessage::UnityConsoleOutput {
            log_type: UnityLogType::Error,
            log: String::new(),
            stack_trace: String::new()
        }
        .command_outcome(),
        None
    );
}
