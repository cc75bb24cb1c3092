use angel_bot::message_storage::{
    is_expired, MessageData, MessageStorage, StoredMessage, RETENTION_WINDOW_MS,
};

const WATCHED: u64 = 714599597829390459;

fn message(id: u64, author_id: u64, content: &str) -> MessageData {
    MessageData {
        id,
        channel_id: 11,
        author_id,
        guild_id: Some(99),
        content: content.to_string(),
    }
}

fn entry(captured_at: i64, id: u64) -> StoredMessage {
    StoredMessage { captured_at, message: message(id, WATCHED, "text") }
}

fn ids(storage: &MessageStorage) -> Vec<u64> {
    storage.messages.iter().map(|e| e.message.id).collect()
}

#[test]
fn expiry_is_strictly_older_than_window() {
    assert!(!is_expired(900, 1000, 100));
    assert!(is_expired(899, 1000, 100));
    assert!(!is_expired(1000, 1000, 100));
    assert!(is_expired(i64::MIN, i64::MAX, i64::MAX));
}

#[test]
fn boundary_age_entry_is_retained_one_older_is_evicted() {
    let now: i64 = 10 * RETENTION_WINDOW_MS;
    let mut storage = MessageStorage::new();
    storage.messages.push(entry(now - RETENTION_WINDOW_MS, 1));
    storage.messages.push(entry(now - RETENTION_WINDOW_MS - 1, 2));
    storage.evict(now, RETENTION_WINDOW_MS);
    assert_eq!(ids(&storage), vec![1]);
}

#[test]
fn eviction_removes_consecutive_old_entries() {
    let now: i64 = 1_000_000;
    let mut storage = MessageStorage::new();
    for (t, id) in [(10, 1), (20, 2), (999_990, 3), (30, 4), (40, 5), (999_999, 6)] {
        storage.messages.push(entry(t, id));
    }
    storage.evict(now, 100);
    assert_eq!(ids(&storage), vec![3, 6]);
    for e in &storage.messages {
        assert!(now - e.captured_at <= 100);
    }
}

#[test]
fn eviction_of_empty_store_is_empty() {
    let mut storage = MessageStorage::new();
    storage.evict(5, 1);
    assert!(storage.messages.is_empty());
}

#[test]
fn capture_appends_watched_author_and_evicts() {
    let mut storage = MessageStorage::new();
    storage.messages.push(entry(0, 1));
    storage.messages.push(entry(RETENTION_WINDOW_MS, 2));
    let now = 2 * RETENTION_WINDOW_MS;
    assert!(storage.capture(message(3, WATCHED, "new"), WATCHED, now, RETENTION_WINDOW_MS));
    assert_eq!(ids(&storage), vec![2, 3]);
    assert_eq!(storage.messages[1].captured_at, now);
    assert_eq!(storage.messages[1].message.content, "new");
}

#[test]
fn capture_ignores_other_authors() {
    let mut storage = MessageStorage::new();
    storage.messages.push(entry(0, 1));
    let captured = storage.capture(message(3, 12345, "other"), WATCHED, 10 * RETENTION_WINDOW_MS, RETENTION_WINDOW_MS);
    assert!(!captured);
    assert_eq!(ids(&storage), vec![1]);
    assert!(storage.messages.iter().all(|e| e.message.id != 3));
}

#[test]
fn serialized_captures_keep_both_messages() {
    let mut storage = MessageStorage::new();
    assert!(storage.capture(message(1, WATCHED, "one"), WATCHED, 5000, RETENTION_WINDOW_MS));
    assert!(storage.capture(message(2, WATCHED, "two"), WATCHED, 5001, RETENTION_WINDOW_MS));
    assert_eq!(ids(&storage), vec![1, 2]);
}

#[test]
fn interleaved_captures_lose_an_update() {
    let loaded = MessageStorage::new();
    let mut first = MessageStorage::from_rows(loaded.to_rows());
    let mut second = MessageStorage::from_rows(loaded.to_rows());
    assert!(first.capture(message(1, WATCHED, "one"), WATCHED, 5000, RETENTION_WINDOW_MS));
    assert!(second.capture(message(2, WATCHED, "two"), WATCHED, 5001, RETENTION_WINDOW_MS));
    let saved_last = second;
    assert_eq!(ids(&saved_last), vec![2]);
    assert_eq!(ids(&first), vec![1]);
}

#[test]
fn json_round_trip_keeps_entries() {
    let mut storage = MessageStorage::new();
    storage.messages.push(StoredMessage {
        captured_at: 1_700_000_000_000,
        message: MessageData {
            id: 42,
            channel_id: 7,
            author_id: WATCHED,
            guild_id: None,
            content: "héllo \"wörld\"\n\u{1F600} \\ end".to_string(),
        },
    });
    storage.messages.push(StoredMessage {
        captured_at: -5,
        message: message(43, WATCHED, "plain"),
    });
    let text = storage.to_json().unwrap();
    let back = MessageStorage::from_json(&text).unwrap();
    assert_eq!(back.messages.len(), 2);
    for (a, b) in storage.messages.iter().zip(back.messages.iter()) {
        assert_eq!(a.captured_at, b.captured_at);
        assert_eq!(a.message.id, b.message.id);
        assert_eq!(a.message.channel_id, b.message.channel_id);
        assert_eq!(a.message.author_id, b.message.author_id);
        assert_eq!(a.message.guild_id, b.message.guild_id);
        assert_eq!(a.message.content, b.message.content);
    }
}

#[test]
fn json_text_is_an_array_of_rows() {
    let mut storage = MessageStorage::new();
    storage.messages.push(StoredMessage {
        captured_at: 1000,
        message: MessageData {
            id: 42,
            channel_id: 7,
            author_id: 5,
            guild_id: Some(3),
            content: "hello".to_string(),
        },
    });
    assert_eq!(storage.to_json().unwrap(), "[[1000,42,7,5,3,\"hello\"]]");
    assert_eq!(MessageStorage::new().to_json().unwrap(), "[]");
    let mut odd = MessageStorage::new();
    odd.messages.push(StoredMessage {
        captured_at: i64::MIN,
        message: MessageData {
            id: u64::MAX,
            channel_id: 0,
            author_id: 0,
            guild_id: None,
            content: "\u{0}\"\\".to_string(),
        },
    });
    assert!(odd.to_json().is_ok());
}

#[test]
fn json_reads_rows() {
    let storage = MessageStorage::from_json("[[1000,42,7,5,null,\"hi\"]]").unwrap();
    assert_eq!(storage.messages.len(), 1);
    assert_eq!(storage.messages[0].captured_at, 1000);
    assert_eq!(storage.messages[0].message.id, 42);
    assert_eq!(storage.messages[0].message.guild_id, None);
    assert_eq!(storage.messages[0].message.content, "hi");
}

#[test]
fn malformed_json_is_a_serialization_error() {
    let r = MessageStorage::from_json("{not json");
    assert!(matches!(r, Err(angel_bot::commands::CommandError::Serialization(_))));
    let r = MessageStorage::from_json("[[1, 2]]");
    assert!(matches!(r, Err(angel_bot::commands::CommandError::Serialization(_))));
}
