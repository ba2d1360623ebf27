use msgboard::json::{message_to_json, push_json_string};
use msgboard::message::Message;
use msgboard::stack::StackReply;

#[test]
fn json_string_escapes() {
    let mut out = String::new();
    push_json_string(&mut out, "a\"b\\c\nd\te\r\u{8}\u{c}\u{1}\u{1f}é");
    assert_eq!(out, "\"a\\\"b\\\\c\\nd\\te\\r\\b\\f\\u0001\\u001fé\"");
}

#[test]
fn message_json_with_absent_flag() {
    let m = Message { message: "hi".to_string(), important: None };
    assert_eq!(message_to_json(&m), "{\"message\":\"hi\",\"important\":null}");
    let m = Message { message: "q\"".to_string(), important: Some(false) };
    assert_eq!(message_to_json(&m), "{\"message\":\"q\\\"\",\"important\":false}");
}

#[test]
fn decode_failure_reply() {
    assert_eq!(
        StackReply::DecodeFailed.to_json(),
        "{\"status\":\"stored message could not be decoded\"}"
    );
}
