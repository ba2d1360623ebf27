use msgboard::message::{decode_entry, encode_entry, Message, SubmitError};
use msgboard::rocket;
use msgboard::stack::{MessageStack, StackReply};

fn msg(text: &str, important: Option<bool>) -> Message {
    Message { message: text.to_string(), important }
}

fn popped(r: StackReply) -> Message {
    match r {
        StackReply::Popped(m) => m,
        other => panic!("expected a message, got {:?}", other),
    }
}

#[test]
fn push_then_get_example() {
    let mut s = rocket();
    let m = Message::from_form("hello", Some(true)).unwrap();
    assert_eq!(s.push(&m).to_json(), "{\"status\":\"pushed onto stack\"}");
    assert_eq!(s.pop().to_json(), "{\"message\":\"hello\",\"important\":true}");
}

#[test]
fn get_on_empty_stack() {
    let mut s = MessageStack::new();
    assert_eq!(s.pop().to_json(), "{\"status\":\"no more messages\"}");
    assert_eq!(s.len(), 0);
}

#[test]
fn lifo_order() {
    let mut s = MessageStack::new();
    s.push(&msg("a", None));
    s.push(&msg("b", Some(false)));
    let b = popped(s.pop());
    assert_eq!(b.message, "b");
    assert_eq!(b.important, Some(false));
    let a = popped(s.pop());
    assert_eq!(a.message, "a");
    assert_eq!(a.important, None);
    assert!(matches!(s.pop(), StackReply::NoMoreMessages));
}

#[test]
fn push_pop_round_trip_keeps_text_and_flag() {
    for (text, flag) in [("x", None), ("tab\tquote\"", Some(true)), ("ü ß", Some(false)), ("", None)] {
        let mut s = MessageStack::new();
        s.push(&msg(text, flag));
        let m = popped(s.pop());
        assert_eq!(m.message, text);
        assert_eq!(m.important, flag);
    }
}

#[test]
fn interleaved_pushes_and_pops_leave_the_unpopped() {
    let mut s = MessageStack::new();
    s.push(&msg("1", None));
    s.push(&msg("2", None));
    s.pop();
    s.push(&msg("3", None));
    s.push(&msg("4", None));
    s.pop();
    assert_eq!(s.len(), 2);
    assert_eq!(popped(s.pop()).message, "3");
    assert_eq!(popped(s.pop()).message, "1");
}

#[test]
fn entry_encoding_is_flag_then_text() {
    assert_eq!(encode_entry(&msg("hi", Some(true))), "thi");
    assert_eq!(encode_entry(&msg("hi", Some(false))), "fhi");
    assert_eq!(encode_entry(&msg("hi", None)), "nhi");
    let m = decode_entry("fabc").unwrap();
    assert_eq!(m.message, "abc");
    assert_eq!(m.important, Some(false));
}

#[test]
fn malformed_entries_do_not_decode() {
    assert!(decode_entry("").is_err());
    assert!(decode_entry("xabc").is_err());
}

#[test]
fn empty_submission_is_rejected() {
    assert!(matches!(Message::from_form("", Some(true)), Err(SubmitError::EmptyMessage)));
    let m = Message::from_form("ok", None).unwrap();
    assert_eq!(m.message, "ok");
    assert_eq!(m.important, None);
}
