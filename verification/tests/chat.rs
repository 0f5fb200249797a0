use chatroom::{ChatLog, ChatLogEntry, ChatStorage, Message, MessageListResponse};

fn entries_equal(a: &ChatLogEntry, b: &ChatLogEntry) -> bool {
    a.msg.author == b.msg.author && a.msg.text == b.msg.text
        && a.timestamp_millis == b.timestamp_millis
}

#[test]
fn empty_store_snapshot_is_empty() {
    let storage = ChatStorage::new();
    assert_eq!(storage.all_messages().len(), 0);
}

#[test]
fn empty_log_snapshot_is_empty() {
    let log = ChatLog::new();
    assert_eq!(log.snapshot().len(), 0);
    assert_eq!(log.len(), 0);
}

#[test]
fn append_then_snapshot_single_entry() {
    let before = chrono::Utc::now().timestamp_millis();
    let storage = ChatStorage::new();
    storage.publish_message(Message::new(String::from("alice"), String::from("hi")));
    let snapshot = storage.all_messages();
    assert_eq!(snapshot.len(), 1);
    assert_eq!(snapshot[0].msg.author, "alice");
    assert_eq!(snapshot[0].msg.text, "hi");
    assert!(snapshot[0].timestamp_millis >= before);
}

#[test]
fn log_append_then_snapshot_single_entry() {
    let before = chrono::Utc::now().timestamp_millis();
    let mut log = ChatLog::new();
    log.append(Message::new(String::from("alice"), String::from("hi")));
    let snapshot = log.snapshot();
    assert_eq!(snapshot.len(), 1);
    assert_eq!(snapshot[0].msg.author, "alice");
    assert_eq!(snapshot[0].msg.text, "hi");
    assert!(snapshot[0].timestamp_millis >= before);
}

#[test]
fn snapshot_is_idempotent() {
    let storage = ChatStorage::new();
    storage.publish_message(Message::new(String::from("alice"), String::from("one")));
    storage.publish_message(Message::new(String::from("bob"), String::from("two")));
    let first = storage.all_messages();
    let second = storage.all_messages();
    assert_eq!(first.len(), second.len());
    for (a, b) in first.iter().zip(second.iter()) {
        assert!(entries_equal(a, b));
    }
}

#[test]
fn appends_appear_once_each_in_order() {
    let storage = ChatStorage::new();
    let texts = ["first", "second", "third", "fourth"];
    for text in texts.iter() {
        storage.publish_message(Message::new(String::from("alice"), String::from(*text)));
    }
    let snapshot = storage.all_messages();
    assert_eq!(snapshot.len(), texts.len());
    for (entry, text) in snapshot.iter().zip(texts.iter()) {
        assert_eq!(entry.msg.text, *text);
    }
}

#[test]
fn timestamps_never_decrease() {
    let storage = ChatStorage::new();
    for i in 0..20 {
        storage.publish_message(Message::new(String::from("bob"), format!("message {}", i)));
    }
    let snapshot = storage.all_messages();
    for pair in snapshot.windows(2) {
        assert!(pair[0].timestamp_millis <= pair[1].timestamp_millis);
    }
}

#[test]
fn announce_login_records_system_entry() {
    let storage = ChatStorage::new();
    storage.announce_login("brave bear");
    let snapshot = storage.all_messages();
    assert_eq!(snapshot.len(), 1);
    assert_eq!(snapshot[0].msg.author, "SYSTEM");
    assert_eq!(snapshot[0].msg.text, "`brave bear` has logged on.");
}

#[test]
fn chat_log_entry_wraps_message() {
    let entry = ChatLogEntry::new(Message::new(String::from("carol"), String::from("hey")));
    assert_eq!(entry.msg.author, "carol");
    assert_eq!(entry.msg.text, "hey");
}

#[test]
fn message_duplicate_is_equal() {
    let msg = Message::new(String::from("dave"), String::from("text"));
    let copy = msg.duplicate();
    assert_eq!(copy.author, msg.author);
    assert_eq!(copy.text, msg.text);
}

#[test]
fn message_list_response_holds_entries() {
    let mut log = ChatLog::new();
    log.append(Message::new(String::from("alice"), String::from("one")));
    log.append(Message::new(String::from("bob"), String::from("two")));
    let snapshot = log.snapshot();
    let response = MessageListResponse::new(&snapshot);
    let held = response.messages();
    assert_eq!(held.len(), 2);
    for (a, b) in held.iter().zip(snapshot.iter()) {
        assert!(entries_equal(a, b));
    }
}
