use obs_comm::errors::ObsError;
use obs_comm::wire::{encode_command, encode_simple_command, ensure_trailing_newline};
use obs_comm::writer::{writer_step, WriterAction, WriterEvent};

#[test]
fn simple_command_without_identifier() {
    let v = encode_simple_command(1, None);
    assert_eq!(v, b"{\"cmd\":1}".to_vec());
}

#[test]
fn simple_command_with_identifier() {
    let v = encode_simple_command(3, Some(42));
    assert_eq!(v, b"{\"cmd\":3,\"identifier\":42}".to_vec());
}

#[test]
fn simple_command_with_negative_numbers() {
    let v = encode_simple_command(-7, Some(-2147483648));
    assert_eq!(v, b"{\"cmd\":-7,\"identifier\":-2147483648}".to_vec());
}

#[test]
fn command_with_payload_members_flattened() {
    let v = encode_command(4, Some(9), b"{\"recorder_type\":1}").unwrap();
    assert_eq!(v, b"{\"cmd\":4,\"identifier\":9,\"recorder_type\":1}".to_vec());
}

#[test]
fn command_with_empty_payload_object() {
    let v = encode_command(12, None, b"{}").unwrap();
    assert_eq!(v, b"{\"cmd\":12}".to_vec());
}

#[test]
fn command_with_malformed_payload_is_rejected() {
    let r = encode_command(4, Some(9), b"[1,2]");
    assert!(matches!(r, Err(ObsError::Serialization(_))));
    let r = encode_command(4, Some(9), b"");
    assert!(matches!(r, Err(ObsError::Serialization(_))));
}

#[test]
fn encoded_command_parses_back_as_json() {
    let v = encode_command(3, Some(5), b"{\"game_foreground\":true,\"is_minimized\":false}")
        .unwrap();
    let parsed: serde_json::Value = serde_json::from_slice(&v).unwrap();
    assert_eq!(parsed.get("cmd").and_then(serde_json::Value::as_i64), Some(3));
    assert_eq!(parsed.get("identifier").and_then(serde_json::Value::as_i64), Some(5));
    assert_eq!(parsed.get("game_foreground").and_then(serde_json::Value::as_bool), Some(true));
}

#[test]
fn newline_appended_only_when_missing() {
    let mut line = b"{\"cmd\":1}".to_vec();
    ensure_trailing_newline(&mut line);
    assert_eq!(line, b"{\"cmd\":1}\n".to_vec());
    ensure_trailing_newline(&mut line);
    assert_eq!(line, b"{\"cmd\":1}\n".to_vec());
    let mut empty: Vec<u8> = Vec::new();
    ensure_trailing_newline(&mut empty);
    assert_eq!(empty, b"\n".to_vec());
}

#[test]
fn writer_writes_normalized_command() {
    match writer_step(WriterEvent::Command(b"{\"cmd\":2}".to_vec())) {
        WriterAction::Write(w) => assert_eq!(w, b"{\"cmd\":2}\n".to_vec()),
        WriterAction::Exit => panic!("writer exited on a command"),
    }
}

#[test]
fn writer_exits_without_writing_when_queue_closes() {
    assert!(matches!(writer_step(WriterEvent::Closed), WriterAction::Exit));
}
