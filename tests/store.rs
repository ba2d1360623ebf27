use msgboard::message::Message;
use msgboard::pages::{get_message, list_messages, message_submit, message_submit_form, Page};
use msgboard::store::{MessageStore, StoreError, StoredMessage};

fn msg(text: &str, important: Option<bool>) -> Message {
    Message { message: text.to_string(), important }
}

#[test]
fn insert_then_get_by_id() {
    let mut s = MessageStore::new();
    let id = s.insert(&msg("first", Some(true))).unwrap();
    assert_eq!(id, 1);
    let row = s.get_by_id(id).unwrap();
    assert_eq!(row.id, 1);
    assert_eq!(row.message, "first");
    assert_eq!(row.important, Some(true));
}

#[test]
fn list_all_in_insertion_order() {
    let mut s = MessageStore::new();
    assert!(s.list_all().is_empty());
    let texts = ["a", "b", "c"];
    for t in texts {
        s.insert(&msg(t, None)).unwrap();
    }
    let rows = s.list_all();
    assert_eq!(rows.len(), 3);
    for (i, r) in rows.iter().enumerate() {
        assert_eq!(r.message, texts[i]);
        assert_eq!(r.important, None);
        if i > 0 {
            assert!(rows[i - 1].id < r.id);
        }
    }
}

#[test]
fn absent_flag_stays_distinct_from_false() {
    let mut s = MessageStore::new();
    let a = s.insert(&msg("a", None)).unwrap();
    let b = s.insert(&msg("b", Some(false))).unwrap();
    assert_eq!(s.get_by_id(a).unwrap().important, None);
    assert_eq!(s.get_by_id(b).unwrap().important, Some(false));
}

#[test]
fn missing_id_is_not_found() {
    let mut s = MessageStore::new();
    s.insert(&msg("a", None)).unwrap();
    assert!(matches!(s.get_by_id(2), Err(StoreError::NotFound)));
    assert!(matches!(s.get_by_id(0), Err(StoreError::NotFound)));
    assert!(matches!(s.get_by_id(-5), Err(StoreError::NotFound)));
    match s.message_page(7) {
        Page::Error { title, error } => {
            assert_eq!(title, "Error");
            assert_eq!(error, "no rows returned by a query that expected to return at least one row");
        }
        other => panic!("expected an error page, got {:?}", other),
    }
}

#[test]
fn message_page_for_existing_row() {
    let mut s = MessageStore::new();
    s.insert(&msg("a", Some(true))).unwrap();
    match s.message_page(1) {
        Page::List { title, messages } => {
            assert_eq!(title, "Message");
            assert_eq!(messages.len(), 1);
            assert_eq!(messages[0].message, "a");
        }
        other => panic!("expected a list page, got {:?}", other),
    }
}

#[test]
fn pages_for_query_outcomes() {
    match list_messages(Ok(vec![StoredMessage { id: 3, message: "x".to_string(), important: None }])) {
        Page::List { title, messages } => {
            assert_eq!(title, "Messages");
            assert_eq!(messages[0].id, 3);
        }
        other => panic!("unexpected {:?}", other),
    }
    match list_messages(Err(StoreError::Storage("disk gone".to_string()))) {
        Page::Error { title, error } => {
            assert_eq!(title, "Error");
            assert_eq!(error, "disk gone");
        }
        other => panic!("unexpected {:?}", other),
    }
    assert!(matches!(get_message(Err(StoreError::NotFound)), Page::Error { .. }));
    match message_submit_form() {
        Page::Form { title } => assert_eq!(title, "Submit message"),
        other => panic!("unexpected {:?}", other),
    }
}

#[test]
fn submit_answers_created_or_passes_error_on() {
    let c = message_submit(Ok(4)).unwrap();
    assert_eq!(c.location, "/messages");
    assert_eq!(c.body, "success");
    match message_submit(Err(StoreError::Storage("locked".to_string()))) {
        Err(StoreError::Storage(e)) => assert_eq!(e, "locked"),
        other => panic!("unexpected {:?}", other),
    }
}
