use chatter::chat_message::ChatMessage;
use chatter::chat_message::ChatMessageBuilder;
use chatter::chat_thread::ChatThreadBuilder;
use chatter::chatter_message::ChatterMessage;
use chatter::chatter_message::ChatterMessageSidecar;
use chatter::chatter_message::Role;
use chatter::error::DataError;
use chatter::store::Record;
use chatter::views::number_messages;
use chatter::views::persist_turn;
use chatter::store::Store;

fn hello_message() -> ChatterMessage {
    ChatterMessage {
        message: Some("Hello, world!".to_string()),
        role: Role::User,
        tool_calls: None,
        tool_call_id: None,
        sidecar: ChatterMessageSidecar::Empty,
    }
}

#[test]
fn test_put_and_get_chat_message() {
    let mut db = Store::new();

    // Build a ChatMessage item using the builder.
    // The custom setters derive the partition and sort keys.
    let chat_message = ChatMessageBuilder::default()
        .user_id("user123".to_string())
        .thread_message_ids("thread456".to_string(), 1)
        .msg(hello_message())
        .build()
        .expect("Failed building ChatMessage");

    db.put_item(chat_message.to_item())
        .expect("Failed to put ChatMessage item");

    let retrieved = ChatMessage::get_all_thread_messages(&db, "user123", "thread456")
        .expect("Get call failed");

    assert!(
        !retrieved.is_empty(),
        "Expected to find at least one chat message"
    );
    let first_message = &retrieved[0];
    assert_eq!(first_message.user_id(), "user123");
    assert_eq!(first_message.thread_id(), "thread456");
    assert_eq!(first_message.id(), 1);
    assert_eq!(first_message.msg.message.as_ref().unwrap(), "Hello, world!");
}

#[test]
fn test_get_non_existent_chat_message() {
    let db = Store::new();

    let retrieved =
        ChatMessage::get_all_thread_messages(&db, "nonexistent_user", "nonexistent_thread")
            .expect("Get call failed");

    assert!(
        retrieved.is_empty(),
        "Expected empty vector for a missing chat message record"
    );
}

#[test]
fn test_put_optimistic_lock() {
    let mut db = Store::new();

    let original_ts: i64 = 1700000000000;
    let chat_thread = ChatThreadBuilder::default()
        .user_id("user123".to_string())
        .id("thread456".to_string())
        .title("Test Thread".to_string())
        .modified_ts(original_ts)
        .archived(Some(false))
        .build()
        .expect("Failed building ChatThread");

    db.put_item(chat_thread.to_item())
        .expect("Failed to put ChatMessage item");

    let chat_message = ChatMessageBuilder::default()
        .user_id("user123".to_string())
        .thread_message_ids("thread456".to_string(), 1)
        .msg(hello_message())
        .build()
        .expect("Failed building ChatMessage");
    db.put_item(chat_message.to_item())
        .expect("Failed to put ChatMessage item");

    // Attempt to update the item with an incorrect timestamp: 10
    // seconds before the stored one.
    let result = db.put_item_lock(
        chat_thread.to_item(),
        "modified_ts",
        original_ts - 10 * 1000,
    );
    assert!(result.is_err(), "Expected optimistic lock to fail");
    if let Err(DataError::OptimisticLockFailed) = result {
        // Expected error
    } else {
        panic!("Expected optimistic lock to fail");
    }

    // Now update the item with the correct timestamp.
    let result = db.put_item_lock(chat_thread.to_item(), "modified_ts", original_ts);
    assert!(result.is_ok(), "Expected optimistic lock to succeed");

    let retrieved = ChatMessage::get_all_thread_messages(&db, "user123", "thread456")
        .expect("Get call failed");
    assert!(
        !retrieved.is_empty(),
        "Expected to find at least one chat message after optimistic lock"
    );
    let first_message = &retrieved[0];
    assert_eq!(first_message.user_id(), "user123");
    assert_eq!(first_message.thread_id(), "thread456");
}

// An exclusive create is idempotent under retry: the second call with
// the same key fails with AlreadyExists, and the stored value stays
// the winning call's.
#[test]
fn test_put_item_excl_idempotent() {
    let mut db = Store::new();

    let winner = ChatMessageBuilder::default()
        .user_id("user123".to_string())
        .thread_message_ids("thread456".to_string(), 0)
        .msg(hello_message())
        .build()
        .unwrap();
    let retry = ChatMessageBuilder::default()
        .user_id("user123".to_string())
        .thread_message_ids("thread456".to_string(), 0)
        .msg(ChatterMessage {
            message: Some("Impostor".to_string()),
            role: Role::User,
            tool_calls: None,
            tool_call_id: None,
            sidecar: ChatterMessageSidecar::Empty,
        })
        .build()
        .unwrap();

    assert!(db.put_item_excl(winner.to_item()).is_ok());
    let second = db.put_item_excl(retry.to_item());
    assert!(matches!(second, Err(DataError::AlreadyExists)));

    let stored = ChatMessage::get_all_thread_messages(&db, "user123", "thread456").unwrap();
    assert_eq!(stored.len(), 1);
    assert_eq!(stored[0].msg.message.as_ref().unwrap(), "Hello, world!");
}

#[test]
fn test_query_all_sorted_and_limited() {
    let mut db = Store::new();
    for seq in [3u32, 0, 2, 1] {
        let m = ChatMessageBuilder::default()
            .user_id("u".to_string())
            .thread_message_ids("t".to_string(), seq)
            .msg(hello_message())
            .build()
            .unwrap();
        db.put_item(m.to_item()).expect("put failed");
    }
    let all = db.query_all("User#u", "ChatMessage#t#", None);
    assert_eq!(all.len(), 4);
    let sks: Vec<String> = all.iter().map(|r| r.sk().clone()).collect();
    assert_eq!(
        sks,
        vec![
            "ChatMessage#t#000".to_string(),
            "ChatMessage#t#001".to_string(),
            "ChatMessage#t#002".to_string(),
            "ChatMessage#t#003".to_string()
        ]
    );
    let limited = db.query_all("User#u", "ChatMessage#t#", Some(2));
    assert_eq!(limited.len(), 2);
    assert_eq!(limited[1].sk(), "ChatMessage#t#001");

    // Also check get_item against a present and an absent key.
    assert!(db.get_item("User#u", "ChatMessage#t#002").is_some());
    assert!(db.get_item("User#u", "ChatMessage#t#009").is_none());
    match db.get_item("User#u", "ChatMessage#t#002") {
        Some(Record::Message(item)) => assert_eq!(item.pk, "User#u"),
        _ => panic!("expected a message record"),
    }
}

// Persistence of a turn stops at the first conflicting sequence: the
// records are exclusive creates, never overwrites.
#[test]
fn test_persist_turn_stops_on_conflict() {
    let mut db = Store::new();
    let occupying = ChatMessageBuilder::default()
        .user_id("u".to_string())
        .thread_message_ids("t".to_string(), 0)
        .msg(hello_message())
        .build()
        .unwrap();
    db.put_item(occupying.to_item()).unwrap();

    let turn = vec![hello_message(), hello_message()];
    let records = number_messages("u", "t", 0, &turn);
    assert!(matches!(
        persist_turn(&mut db, records),
        Err(DataError::AlreadyExists)
    ));

    // numbering from the stored count avoids the conflict
    let records = number_messages("u", "t", 1, &turn);
    assert!(persist_turn(&mut db, records).is_ok());
    let stored = ChatMessage::get_all_thread_messages(&db, "u", "t").unwrap();
    assert_eq!(stored.len(), 3);
    for (i, m) in stored.iter().enumerate() {
        assert_eq!(m.id(), i as u32);
    }
}
