use native_messaging::error::{IoErrorKind, NmError};
use native_messaging::frame::{encode_frame, message_from_body, read_length_prefix, MAX_FROM_BROWSER, MAX_TO_BROWSER};
use native_messaging::json::encode_message;
use native_messaging::stream::{decode_message, decode_message_opt, ByteCursor};

#[test]
fn frame_prefix_is_native_order_length() {
    let frame = encode_frame("{\"a\":1}").unwrap();
    assert_eq!(&frame[0..4], &7u32.to_ne_bytes());
    assert_eq!(&frame[4..], b"{\"a\":1}");
}

#[test]
fn frame_of_empty_text_is_prefix_only() {
    let frame = encode_frame("").unwrap();
    assert_eq!(frame, 0u32.to_ne_bytes().to_vec());
}

#[test]
fn frame_length_counts_utf8_bytes() {
    let frame = encode_frame("é🌍").unwrap();
    assert_eq!(frame.len(), 4 + 6);
    assert_eq!(u32::from_ne_bytes(frame[0..4].try_into().unwrap()), 6);
}

#[test]
fn outgoing_cap_exact_length_is_reported() {
    let text = "x".repeat(1_200_000);
    assert_eq!(
        encode_frame(&text),
        Err(NmError::OutgoingTooLarge { len: 1_200_000, max: 1_048_576 })
    );
}

#[test]
fn outgoing_cap_through_serializer() {
    let value = serde_json::Value::String("x".repeat(1_199_998));
    assert_eq!(
        encode_message(&value),
        Err(NmError::OutgoingTooLarge { len: 1_200_000, max: MAX_TO_BROWSER })
    );
}

#[test]
fn outgoing_cap_boundary_is_allowed() {
    let text = "y".repeat(MAX_TO_BROWSER);
    let frame = encode_frame(&text).unwrap();
    assert_eq!(frame.len(), 4 + MAX_TO_BROWSER);
    let over = "y".repeat(MAX_TO_BROWSER + 1);
    assert!(matches!(encode_frame(&over), Err(NmError::OutgoingTooLarge { .. })));
}

#[test]
fn hello_world_envelope_round_trip() {
    let value: serde_json::Value = serde_json::from_str(r#"{"hello":"world"}"#).unwrap();
    let frame = encode_message(&value).unwrap();
    assert_eq!(frame.len(), 4 + r#"{"hello":"world"}"#.len());
    let mut cur = ByteCursor::new(frame);
    let text = decode_message(&mut cur, MAX_FROM_BROWSER).unwrap();
    assert_eq!(text, r#"{"hello":"world"}"#);
    let back: serde_json::Value = serde_json::from_str(&text).unwrap();
    assert_eq!(back, value);
}

#[test]
fn back_to_back_frames_decode_in_order() {
    let mut stream = encode_frame("[1]").unwrap();
    stream.extend(encode_frame("\"two\"").unwrap());
    let mut cur = ByteCursor::new(stream);
    assert_eq!(decode_message(&mut cur, MAX_FROM_BROWSER).unwrap(), "[1]");
    assert_eq!(cur.position(), 7);
    assert_eq!(decode_message(&mut cur, MAX_FROM_BROWSER).unwrap(), "\"two\"");
    assert_eq!(decode_message_opt(&mut cur, MAX_FROM_BROWSER), Ok(None));
}

#[test]
fn non_json_utf8_payload_is_delivered() {
    let mut cur = ByteCursor::new(encode_frame("not json").unwrap());
    assert_eq!(decode_message(&mut cur, 64).unwrap(), "not json");
}

#[test]
fn over_cap_prefix_consumes_only_the_prefix() {
    let mut stream = 1024u32.to_ne_bytes().to_vec();
    stream.extend_from_slice(b"abc");
    let mut cur = ByteCursor::new(stream);
    let err = decode_message(&mut cur, 8).unwrap_err();
    assert_eq!(err, NmError::IncomingTooLarge { len: 1024, max: 8 });
    assert_eq!(cur.position(), 4);
}

#[test]
fn length_equal_to_cap_is_accepted() {
    let mut cur = ByteCursor::new(encode_frame("12345678").unwrap());
    assert_eq!(decode_message(&mut cur, 8).unwrap(), "12345678");
}

#[test]
fn invalid_utf8_body_is_consumed() {
    let mut stream = 3u32.to_ne_bytes().to_vec();
    stream.extend_from_slice(&[0xFF, 0xFE, 0xFD]);
    stream.extend(encode_frame("1").unwrap());
    let mut cur = ByteCursor::new(stream);
    assert_eq!(decode_message(&mut cur, 1024), Err(NmError::IncomingNotUtf8));
    assert_eq!(cur.position(), 7);
    assert_eq!(decode_message(&mut cur, 1024).unwrap(), "1");
}

#[test]
fn truncated_body_consumes_the_stream() {
    let mut stream = 10u32.to_ne_bytes().to_vec();
    stream.extend_from_slice(&[1, 2, 3]);
    let mut cur = ByteCursor::new(stream);
    assert_eq!(
        decode_message_opt(&mut cur, 1024),
        Err(NmError::Io(IoErrorKind::UnexpectedEof))
    );
    assert_eq!(cur.position(), 7);
}

#[test]
fn length_prefix_reader_cases() {
    assert_eq!(read_length_prefix(&[], 10), Ok(None));
    assert_eq!(read_length_prefix(&[1, 2, 3], 10), Ok(None));
    assert_eq!(read_length_prefix(&5u32.to_ne_bytes(), 10), Ok(Some(5)));
    assert_eq!(
        read_length_prefix(&11u32.to_ne_bytes(), 10),
        Err(NmError::IncomingTooLarge { len: 11, max: 10 })
    );
    let big = (MAX_FROM_BROWSER as u32 + 1).to_ne_bytes();
    assert_eq!(
        read_length_prefix(&big, usize::MAX),
        Err(NmError::IncomingTooLarge { len: MAX_FROM_BROWSER + 1, max: MAX_FROM_BROWSER })
    );
}

#[test]
fn body_to_message() {
    assert_eq!(message_from_body("héllo".as_bytes().to_vec()).unwrap(), "héllo");
    assert_eq!(message_from_body(vec![0xC3]), Err(NmError::IncomingNotUtf8));
    assert_eq!(message_from_body(Vec::new()).unwrap(), "");
}

#[test]
fn cursor_reads_up_to_what_is_left() {
    let mut cur = ByteCursor::new(vec![1, 2, 3]);
    assert_eq!(cur.read_up_to(2), vec![1, 2]);
    assert_eq!(cur.read_up_to(5), vec![3]);
    assert_eq!(cur.read_up_to(1), Vec::<u8>::new());
    assert_eq!(cur.position(), 3);
}

#[test]
fn hello_world_frame_is_consumed_exactly() {
    let value: serde_json::Value = serde_json::from_str(r#"{"hello":"world"}"#).unwrap();
    let mut cur = ByteCursor::new(encode_message(&value).unwrap());
    assert_eq!(decode_message(&mut cur, MAX_FROM_BROWSER).unwrap(), r#"{"hello":"world"}"#);
    assert_eq!(cur.position(), 21);
}

#[test]
fn position_past_the_end_is_left_alone() {
    let mut cur = ByteCursor { data: vec![1, 2], pos: 5 };
    assert_eq!(decode_message_opt(&mut cur, 10), Ok(None));
    assert_eq!(cur.position(), 5);
    let mut short = ByteCursor::new(vec![1, 2]);
    assert_eq!(decode_message_opt(&mut short, 10), Ok(None));
    assert_eq!(short.position(), 2);
}
