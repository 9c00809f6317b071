use chatter::chat_thread::ChatThread;
use chatter::chat_thread::ChatThreadBuilder;
use chatter::chat_thread::ChatThreadMigrator;
use chatter::error::AppError;
use chatter::error::DataError;
use chatter::store::Store;
use chatter::store::ThreadItem;
use chatter::views::archive_thread;
use chatter::views::begin_turn;

fn fresh_thread(ts: i64) -> ChatThread {
    ChatThreadBuilder::default()
        .user_id("demo_user".to_string())
        .id("01ARZ3NDEKTSV4RRFFQ69G5FAV".to_string())
        .title("Test Thread".to_string())
        .modified_ts(ts)
        .build()
        .unwrap()
}

// A streaming POST to an archived thread is answered 409 with the
// thread_archived code, before any message is persisted.
#[test]
fn test_archived_thread_rejected() {
    let mut store = Store::new();
    let t0: i64 = 1700000000000;
    let thread = fresh_thread(t0);
    store.put_item(thread.to_item()).unwrap();
    archive_thread(&mut store, &thread, t0 + 1).unwrap();

    let archived = ChatThread::get_thread(&store, "demo_user", "01ARZ3NDEKTSV4RRFFQ69G5FAV", 0)
        .unwrap();
    assert!(archived.is_archived());
    let gate = begin_turn(&archived);
    let err = gate.unwrap_err();
    let (status, body) = err.response_parts();
    assert_eq!(status, 409);
    assert_eq!(body, "{\"error_code\":\"thread_archived\"}");

    // nothing was persisted for the rejected turn
    let messages = chatter::chat_message::ChatMessage::get_all_thread_messages(
        &store,
        "demo_user",
        "01ARZ3NDEKTSV4RRFFQ69G5FAV",
    )
    .unwrap();
    assert!(messages.is_empty());
}

#[test]
fn test_begin_turn_accepts_live_thread() {
    let thread = fresh_thread(1);
    assert!(begin_turn(&thread).is_ok());
    let (status, _) = AppError::InternalServerError("boom".to_string()).response_parts();
    assert_eq!(status, 500);
}

// The optimistic lock: client A archives at T1; client B, still
// holding the copy loaded at T0, is refused; B reloads and succeeds.
#[test]
fn test_optimistic_lock_archive_race() {
    let mut store = Store::new();
    let t0: i64 = 1700000000000;
    let thread = fresh_thread(t0);
    store.put_item(thread.to_item()).unwrap();

    let loaded_a = ChatThread::get_thread(&store, "demo_user", "01ARZ3NDEKTSV4RRFFQ69G5FAV", 0)
        .unwrap();
    let loaded_b = ChatThread::get_thread(&store, "demo_user", "01ARZ3NDEKTSV4RRFFQ69G5FAV", 0)
        .unwrap();

    // client A archives at T1 > T0
    assert!(archive_thread(&mut store, &loaded_a, t0 + 1000).is_ok());

    // client B still expects T0: 409
    let refused = archive_thread(&mut store, &loaded_b, t0 + 2000);
    assert!(matches!(refused, Err(DataError::OptimisticLockFailed)));

    // B reloads at T1 and retries: 204
    let reloaded = ChatThread::get_thread(&store, "demo_user", "01ARZ3NDEKTSV4RRFFQ69G5FAV", 0)
        .unwrap();
    assert_eq!(reloaded.modified_ts, t0 + 1000);
    assert!(archive_thread(&mut store, &reloaded, t0 + 2000).is_ok());
}

// A thread record at schema version one gains modified_ts at read time.
#[test]
fn test_thread_migration_v1_to_v2() {
    let raw = ThreadItem {
        pk: "User#demo_user".to_string(),
        sk: "ChatThread#T1".to_string(),
        title: "Old Thread".to_string(),
        modified_ts: None,
        archived: None,
        schema_version: None,
    };
    let migrated = ChatThreadMigrator::migrate(raw, 1700000000000);
    assert_eq!(migrated.modified_ts, Some(1700000000000));
    assert_eq!(migrated.schema_version, Some(2));

    let current = ThreadItem {
        pk: "User#demo_user".to_string(),
        sk: "ChatThread#T2".to_string(),
        title: "New Thread".to_string(),
        modified_ts: Some(5),
        archived: Some(false),
        schema_version: Some(2),
    };
    let unchanged = ChatThreadMigrator::migrate(current, 1700000000000);
    assert_eq!(unchanged.modified_ts, Some(5));
}

// The thread list comes back newest first.
#[test]
fn test_get_all_user_threads_newest_first() {
    let mut store = Store::new();
    for id in ["01A", "01B", "01C"] {
        let t = ChatThreadBuilder::default()
            .user_id("demo_user".to_string())
            .id(id.to_string())
            .title(id.to_string())
            .modified_ts(1)
            .build()
            .unwrap();
        store.put_item(t.to_item()).unwrap();
    }
    let threads = ChatThread::get_all_user_threads(&store, "demo_user", 0).unwrap();
    let ids: Vec<String> = threads.iter().map(|t| t.id()).collect();
    assert_eq!(
        ids,
        vec!["01C".to_string(), "01B".to_string(), "01A".to_string()]
    );
}

#[test]
fn test_thread_views() {
    let thread = fresh_thread(7);
    let view = chatter::views::Thread::of_thread(&thread);
    assert_eq!(view.id, "01ARZ3NDEKTSV4RRFFQ69G5FAV");
    assert_eq!(view.title, "Test Thread");

    let tool_reply = chatter::chatter_message::ChatterMessage {
        message: Some("internal tool text".to_string()),
        role: chatter::chatter_message::Role::Tool,
        tool_calls: None,
        tool_call_id: Some("c".to_string()),
        sidecar: chatter::chatter_message::ChatterMessageSidecar::DatabaseLookup,
    };
    let content = chatter::views::MessageContent::of_envelope(&tool_reply);
    // a tool reply's text is for the LLM, not the user
    assert!(content.message.is_none());
    assert!(matches!(
        content.sidecar,
        chatter::chatter_message::ChatterMessageSidecar::DatabaseLookup
    ));
}
