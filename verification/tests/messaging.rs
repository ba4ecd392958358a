use paperd::endian::ByteOrder;
use paperd::error::CoreError;
use paperd::messaging::{
    create_receive_channel, open_flags, open_message_channel, reply_queue_key,
    resolve_queue_path, MessageChannel, MessageHandler, ResponseChannel, IPC_CREAT, IPC_RMID,
    PROJECT_SEED, QUEUE_MODE, REFUSED,
};
use paperd::paging::frame_message;
use paperd::wire::WireMessage;

struct StatusRequest;

impl MessageHandler for StatusRequest {
    fn type_id() -> i16 {
        1
    }

    fn expect_response() -> bool {
        true
    }
}

struct StopRequest;

impl MessageHandler for StopRequest {
    fn type_id() -> i16 {
        3
    }

    fn expect_response() -> bool {
        false
    }
}

fn channel() -> MessageChannel {
    open_message_channel(10, String::new()).unwrap()
}

fn reply_channel() -> ResponseChannel {
    create_receive_channel(20, String::new()).unwrap()
}

fn parse_running(text: &str) -> Result<bool, String> {
    let value: serde_json::Value = serde_json::from_str(text).map_err(|e| e.to_string())?;
    match value.get("running").and_then(|v| v.as_bool()) {
        Some(running) => Ok(running),
        None => Err("missing field `running`".to_string()),
    }
}

#[test]
fn queue_constants() {
    assert_eq!(REFUSED, -1);
    assert_eq!(IPC_CREAT, 0o1000);
    assert_eq!(IPC_RMID, 0);
    assert_eq!(QUEUE_MODE, 0o666);
    assert_eq!(PROJECT_SEED, b'P');
}

#[test]
fn open_flags_hold_the_mode_and_the_create_flag() {
    assert_eq!(open_flags(QUEUE_MODE), 0o1666);
    assert_eq!(open_flags(0), 0o1000);
    assert_eq!(open_flags(0o600), 0o1600);
    assert_eq!(open_flags(0o777), 0o1777);
    assert_eq!(open_flags(0o1666), 0o1666);
    assert_eq!(open_flags(u16::MAX), 0o1777);
}

#[test]
fn reply_queue_key_is_the_process_id() {
    assert_eq!(reply_queue_key(0), 0);
    assert_eq!(reply_queue_key(1234), 1234);
    assert_eq!(reply_queue_key(0x7fff_ffff), i32::MAX);
    assert_eq!(reply_queue_key(0x8000_0000), i32::MIN);
    assert_eq!(reply_queue_key(u32::MAX), -1);
}

#[test]
fn canonical_path_becomes_a_c_string() {
    assert_eq!(
        resolve_queue_path(Some(b"/var/run/paper.pid")),
        Ok(b"/var/run/paper.pid\0".to_vec())
    );
    assert_eq!(resolve_queue_path(Some(b"")), Ok(vec![0]));
}

#[test]
fn same_path_resolves_the_same() {
    let first = resolve_queue_path(Some(b"/tmp/a.pid"));
    let second = resolve_queue_path(Some(b"/tmp/a.pid"));
    let other = resolve_queue_path(Some(b"/tmp/b.pid"));
    assert_eq!(first, second);
    assert_ne!(first, other);
}

#[test]
fn unresolved_path_is_a_path_resolution_error() {
    assert_eq!(resolve_queue_path(None), Err(CoreError::PathResolution));
}

#[test]
fn path_with_a_zero_byte_is_a_path_resolution_error() {
    assert_eq!(resolve_queue_path(Some(b"/tmp/a\0b")), Err(CoreError::PathResolution));
    assert_eq!(resolve_queue_path(Some(b"\0")), Err(CoreError::PathResolution));
    assert_eq!(resolve_queue_path(Some(b"/tmp/a\0")), Err(CoreError::PathResolution));
}

#[test]
fn opened_queue_is_a_channel() {
    assert_eq!(open_message_channel(0, "unused".to_string()).unwrap().queue_id(), 0);
    assert_eq!(open_message_channel(98304, String::new()).unwrap().queue_id(), 98304);
    assert_eq!(create_receive_channel(7, String::new()).unwrap().queue_id(), 7);
}

#[test]
fn refused_queue_is_a_queue_open_error() {
    assert_eq!(
        open_message_channel(-1, "Permission denied".to_string()),
        Err(CoreError::QueueOpen("Permission denied".to_string()))
    );
    assert_eq!(
        create_receive_channel(-1, "No space left on device".to_string()),
        Err(CoreError::QueueOpen("No space left on device".to_string()))
    );
}

#[test]
fn plan_message_names_the_reply_queue() {
    let reply = reply_channel();
    let frames = channel().plan_message(b"status", 1, Some(&reply), 4321);
    assert_eq!(frames, frame_message(b"status", 1, 20, 4321));
    assert_eq!(frames.len(), 1);
    assert_eq!(frames[0].reply_queue_id(), 20);
    assert_eq!(frames[0].sender_process_id(), 4321);
    assert_eq!(frames[0].application_message_type(), 1);
    assert_eq!(frames[0].payload(), b"status");
    assert!(frames[0].is_final());
}

#[test]
fn plan_message_without_reply_names_none() {
    let frames = channel().plan_message(&[7; 150], 2, None, 1);
    assert_eq!(frames, frame_message(&[7; 150], 2, -1, 1));
    assert_eq!(frames.len(), 2);
    assert!(!frames[0].expects_reply());
    assert!(!frames[1].expects_reply());
}

#[test]
fn send_message_takes_type_and_reply_from_the_kind() {
    let reply = reply_channel();
    let asked = channel().send_message::<StatusRequest>(b"status", Some(&reply), 99);
    assert_eq!(asked, frame_message(b"status", 1, 20, 99));
    let told = channel().send_message::<StopRequest>(b"stop", Some(&reply), 99);
    assert_eq!(told, frame_message(b"stop", 3, -1, 99));
    let alone = channel().send_message::<StopRequest>(b"stop", None, 99);
    assert_eq!(alone, frame_message(b"stop", 3, -1, 99));
}

#[test]
fn send_paged_message_is_one_encoded_record() {
    let bytes = channel()
        .send_paged_message(1, 20, 99, b"status", true, ByteOrder::Little)
        .unwrap();
    let record = WireMessage::new(20, 99, 1, true, b"status".to_vec()).unwrap();
    assert_eq!(bytes, record.encode(ByteOrder::Little));
    assert_eq!(bytes.len(), 111);
    assert_eq!(bytes[10], 0x86);
    assert!(channel()
        .send_paged_message(1, 20, 99, &[0; 100], false, ByteOrder::Big)
        .is_some());
    assert!(channel()
        .send_paged_message(1, 20, 99, &[0; 101], false, ByteOrder::Big)
        .is_none());
}

#[test]
fn refused_push_is_a_send_error() {
    assert_eq!(channel().pushed(0, "unused".to_string()), Ok(()));
    assert_eq!(
        channel().pushed(-1, "Invalid argument".to_string()),
        Err(CoreError::Send("Invalid argument".to_string()))
    );
}

#[test]
fn pulled_record_is_decoded() {
    let record = WireMessage::new(-1, 5, 1, true, b"{}".to_vec()).unwrap();
    let bytes = record.encode(ByteOrder::Little);
    assert_eq!(
        reply_channel().pulled(111, &bytes, ByteOrder::Little, String::new()),
        Ok(record)
    );
}

#[test]
fn refused_pull_is_a_receive_error() {
    assert_eq!(
        reply_channel().pulled(-1, &[0; 111], ByteOrder::Little, "Identifier removed".to_string()),
        Err(CoreError::Receive("Identifier removed".to_string()))
    );
}

#[test]
fn pulled_bytes_that_are_no_record_are_malformed() {
    assert_eq!(
        reply_channel().pulled(5, &[0; 5], ByteOrder::Little, String::new()),
        Err(CoreError::Malformed)
    );
    let mut bytes = vec![0u8; 111];
    bytes[10] = 120;
    assert_eq!(
        reply_channel().pulled(111, &bytes, ByteOrder::Little, String::new()),
        Err(CoreError::Malformed)
    );
}

#[test]
fn simple_request() {
    let reply = reply_channel();
    let request = channel().send_message::<StatusRequest>(b"status", Some(&reply), 4321);
    assert_eq!(request.len(), 1);
    assert_eq!(request[0].segment_length(), 6);
    assert_eq!(request[0].application_message_type(), 1);
    assert_eq!(request[0].reply_queue_id(), reply.queue_id());
    assert!(request[0].is_final());

    let answer = frame_message(b"{\"running\":true}", 1, -1, 1);
    assert_eq!(answer.len(), 1);
    assert_eq!(answer[0].segment_length(), 16);
    assert!(answer[0].is_final());
    let parsed = reply.receive_message(&answer, |text: &str| {
        serde_json::from_str::<serde_json::Value>(text).map_err(|e| e.to_string())
    });
    let parsed = parsed.unwrap();
    assert_eq!(parsed.get("running").and_then(|v| v.as_bool()), Some(true));
    assert_eq!(parsed.as_object().map(|o| o.len()), Some(1));
    assert_eq!(reply.close(0, String::new()), Ok(()));
}

#[test]
fn oversized_payload() {
    let mut text = String::from("{\"command\":\"");
    while text.len() < 248 {
        text.push('x');
    }
    text.push_str("\"}");
    assert_eq!(text.len(), 250);
    let sent = channel().plan_message(text.as_bytes(), 2, None, 4321);
    assert_eq!(sent.len(), 3);
    assert_eq!(
        sent.iter().map(|m| m.segment_length()).collect::<Vec<usize>>(),
        vec![100, 100, 50]
    );
    assert_eq!(sent.iter().map(|m| m.is_final()).collect::<Vec<bool>>(), vec![false, false, true]);
    let order = ByteOrder::host();
    let pulled: Vec<WireMessage> = sent
        .iter()
        .map(|m| reply_channel().pulled(111, &m.encode(order), order, String::new()).unwrap())
        .collect();
    let seen = reply_channel().receive_message(&pulled, |text: &str| {
        Ok::<String, String>(text.to_string())
    });
    assert_eq!(seen, Ok(text.clone()));
    let value = reply_channel()
        .receive_message(&pulled, |text: &str| {
            serde_json::from_str::<serde_json::Value>(text).map_err(|e| e.to_string())
        })
        .unwrap();
    assert_eq!(value.get("command").and_then(|v| v.as_str()).map(|s| s.len()), Some(236));
}

#[test]
fn daemon_error() {
    let answer = frame_message(b"{\"error\":\"server not running\"}", 1, -1, 1);
    let outcome = reply_channel().receive_message(&answer, parse_running);
    assert_eq!(outcome, Err(CoreError::Server("server not running".to_string())));
    let error = outcome.unwrap_err();
    assert!(error.is_server_error());
    assert_eq!(error.exit_code(), 1);
    match error {
        CoreError::Server(message) => assert_eq!(message, "server not running"),
        other => panic!("not a server error: {:?}", other),
    }
}

#[test]
fn reply_that_is_neither_is_a_protocol_error() {
    let answer = frame_message(b"{\"stopped\":true}", 1, -1, 1);
    assert_eq!(
        reply_channel().receive_message(&answer, parse_running),
        Err(CoreError::Protocol("missing field `running`".to_string()))
    );
    let broken = frame_message(b"{\"error\":", 1, -1, 1);
    match reply_channel().receive_message(&broken, parse_running) {
        Err(CoreError::Protocol(detail)) => assert!(detail.contains("EOF")),
        other => panic!("not a protocol error: {:?}", other),
    }
}

#[test]
fn expected_reply_is_never_read_as_an_error() {
    let answer = frame_message(b"{\"error\":\"x\",\"running\":false}", 1, -1, 1);
    assert_eq!(reply_channel().receive_message(&answer, parse_running), Ok(false));
}

#[test]
fn reply_without_final_segment_is_incomplete() {
    let answer = frame_message(&[b' '; 150], 1, -1, 1);
    assert_eq!(
        reply_channel().receive_message(&answer[..1], parse_running),
        Err(CoreError::Incomplete)
    );
    assert_eq!(reply_channel().receive_message(&[], parse_running), Err(CoreError::Incomplete));
}

#[test]
fn reply_that_is_no_text_is_a_decode_error() {
    let answer = frame_message(&[0xff, 0xfe], 1, -1, 1);
    assert_eq!(reply_channel().receive_message(&answer, parse_running), Err(CoreError::Decode));
    let mut split = vec![b'a'; 99];
    split.extend_from_slice(&[0xc3, 0xa9]);
    let whole = frame_message(&split, 1, -1, 1);
    assert_eq!(whole.len(), 2);
    assert_eq!(
        reply_channel().receive_message(&whole, |text: &str| Ok::<usize, String>(text.len())),
        Ok(101)
    );
}

#[test]
fn refused_removal_is_a_close_error() {
    assert_eq!(reply_channel().close(0, "unused".to_string()), Ok(()));
    assert_eq!(
        reply_channel().close(-1, "Invalid argument".to_string()),
        Err(CoreError::Close("Invalid argument".to_string()))
    );
}
