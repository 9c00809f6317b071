use chatter::chatter::AssistantReply;
use chatter::chatter::LlmEvent;
use chatter::chatter::ToolOutcome;
use chatter::chatter::TurnOutcome;
use chatter::chatter::run_turn;
use chatter::chatter_context::ChatterContext;
use chatter::chatter_message::ChatterMessageSidecar;
use chatter::chatter_message::Role;
use chatter::chatter_message::ToolCall;
use chatter::error::ChatterError;
use chatter::functions::ColumnMetadata;
use chatter::functions::QueryDatabaseParams;
use chatter::functions::TableMetadata;
use chatter::geom::GeometryKind;
use chatter::pg_helpers::PgCell;
use chatter::pg_helpers::PgColumn;
use chatter::pg_helpers::QuerySample;
use chatter::sql_query::SqlQuery;
use chatter::store::Store;
use chatter::views::number_messages;
use chatter::views::persist_turn;

fn call(id: &str, name: &str, arguments: &str) -> ToolCall {
    ToolCall {
        id: id.to_string(),
        name: name.to_string(),
        arguments: arguments.to_string(),
    }
}

fn reply(content: Option<&str>, tool_calls: Option<Vec<ToolCall>>) -> LlmEvent {
    LlmEvent::Reply(AssistantReply {
        content: content.map(|s| s.to_string()),
        tool_calls,
    })
}

fn prefecture_sample() -> QuerySample {
    let mut rows = Vec::new();
    for i in 0..5 {
        rows.push(vec![
            PgCell::I32(i),
            PgCell::Text(format!("Prefecture {}", i)),
            PgCell::Geometry(GeometryKind::Polygon),
        ]);
    }
    QuerySample {
        columns: vec![
            PgColumn {
                name: "_id".to_string(),
                pg_type: "int4".to_string(),
            },
            PgColumn {
                name: "name".to_string(),
                pg_type: "text".to_string(),
            },
            PgColumn {
                name: "geom".to_string(),
                pg_type: "geometry".to_string(),
            },
        ],
        rows,
    }
}

// The happy path: a describe call, then a query call, then a plain
// reply.  Envelopes are yielded in order — user, assistant, tool,
// assistant, tool, assistant — and numbered 0..N-1 when persisted, and
// the saved query is stored.
#[test]
fn test_happy_path_turn() {
    let mut store = Store::new();
    let mut context =
        ChatterContext::new_with_stored("01ARZ3NDEKTSV4RRFFQ69G5FAV".to_string(), Vec::new());
    context.add_user_message("show me all Japanese prefectures");

    let llm = vec![
        reply(
            None,
            Some(vec![call(
                "call_1",
                "describe_tables",
                "{\"table_names\":[\"prefectures\"]}",
            )]),
        ),
        reply(
            None,
            Some(vec![call(
                "call_2",
                "query_database",
                "{\"query_id\":\"\",\"name\":\"Prefectures\",\"query\":\"SELECT ogc_fid AS _id, name, geom FROM prefectures\"}",
            )]),
        ),
        reply(Some("Here are all Japanese prefectures."), None),
    ];
    let tools = vec![
        ToolOutcome::Describe(vec![(
            "prefectures".to_string(),
            TableMetadata {
                name: "Prefectures".to_string(),
                desc: None,
                primary_key: None,
                columns: vec![ColumnMetadata {
                    name: "name".to_string(),
                    desc: None,
                    data_type: "text".to_string(),
                    foreign_key: None,
                    enum_values: None,
                }],
            },
        )]),
        ToolOutcome::Query {
            params: QueryDatabaseParams {
                query_id: "Q1".to_string(),
                name: "Prefectures".to_string(),
                query: "SELECT ogc_fid AS _id, name, geom FROM prefectures;".to_string(),
            },
            outcome: Ok(prefecture_sample()),
        },
    ];

    let (yielded, outcome) = run_turn(&mut context, &mut store, llm, tools, 1700000000000);
    assert!(matches!(outcome, TurnOutcome::Done));

    let roles: Vec<Role> = yielded.iter().map(|m| m.role).collect();
    assert_eq!(
        roles,
        vec![
            Role::User,
            Role::Assistant,
            Role::Tool,
            Role::Assistant,
            Role::Tool,
            Role::Assistant
        ]
    );
    assert!(matches!(
        yielded[2].sidecar,
        ChatterMessageSidecar::DatabaseLookup
    ));
    match &yielded[4].sidecar {
        ChatterMessageSidecar::SQLExecution(d) => {
            assert_eq!(d.id, "Q1");
            assert_eq!(d.name, "Prefectures");
            assert_eq!(d.sql, "SELECT ogc_fid AS _id, name, geom FROM prefectures");
        }
        _ => panic!("expected the execution sidecar"),
    }
    assert!(yielded[4]
        .message
        .as_ref()
        .unwrap()
        .ends_with(",\"tsvRows\":5}"));
    assert_eq!(
        yielded[5].message.as_ref().unwrap(),
        "Here are all Japanese prefectures."
    );

    // the trailing semicolon was stripped before the query was saved
    let saved = SqlQuery::get_query(&store, "01ARZ3NDEKTSV4RRFFQ69G5FAV", "Q1").unwrap();
    assert_eq!(
        saved.query_content,
        "SELECT ogc_fid AS _id, name, geom FROM prefectures"
    );

    // the caller numbers and persists the yielded envelopes: 0..N-1
    let records = number_messages(
        "demo_user",
        "01ARZ3NDEKTSV4RRFFQ69G5FAV",
        0,
        &yielded,
    );
    assert_eq!(records.len(), 6);
    for (i, r) in records.iter().enumerate() {
        assert_eq!(r.id(), i as u32);
        assert_eq!(r.user_id(), "demo_user");
    }
    assert!(persist_turn(&mut store, records).is_ok());
    let stored = chatter::chat_message::ChatMessage::get_all_thread_messages(
        &store,
        "demo_user",
        "01ARZ3NDEKTSV4RRFFQ69G5FAV",
    )
    .unwrap();
    assert_eq!(stored.len(), 6);
    for (i, m) in stored.iter().enumerate() {
        assert_eq!(m.id(), i as u32);
    }
}

// A tool call with an unknown name is fatal; the assistant envelope
// that carried the bad call is the last one appended.
#[test]
fn test_unknown_tool_name() {
    let mut store = Store::new();
    let mut context = ChatterContext::new_with_stored("t1".to_string(), Vec::new());
    context.add_user_message("drop everything");

    let llm = vec![reply(
        None,
        Some(vec![call("call_1", "delete_database", "{}")]),
    )];
    let (yielded, outcome) = run_turn(&mut context, &mut store, llm, Vec::new(), 0);
    match outcome {
        TurnOutcome::Faulted(ChatterError::UnknownToolCall(n)) => {
            assert_eq!(n, "delete_database")
        }
        _ => panic!("expected the unknown-tool fault"),
    }
    assert_eq!(yielded.len(), 2);
    assert!(matches!(yielded[1].role, Role::Assistant));
    let last = context.messages.last().unwrap();
    assert!(matches!(last.role, Role::Assistant));
}

// Arguments that fail schema validation become a tool reply and the
// loop continues to the next LLM round.
#[test]
fn test_invalid_args_continue() {
    let mut store = Store::new();
    let mut context = ChatterContext::new_with_stored("t1".to_string(), Vec::new());
    context.add_user_message("describe");

    let llm = vec![
        reply(
            None,
            Some(vec![call("call_1", "describe_tables", "{\"bogus\":1}")]),
        ),
        reply(Some("I could not read the arguments."), None),
    ];
    let tools = vec![ToolOutcome::ArgsInvalid(
        "unknown field `bogus`".to_string(),
    )];
    let (yielded, outcome) = run_turn(&mut context, &mut store, llm, tools, 0);
    assert!(matches!(outcome, TurnOutcome::Done));
    assert_eq!(yielded.len(), 4);
    assert!(matches!(yielded[2].role, Role::Tool));
    assert!(matches!(
        yielded[2].sidecar,
        ChatterMessageSidecar::SQLExecutionError
    ));
    assert_eq!(
        yielded[2].message.as_ref().unwrap(),
        "{\"error\":true,\"message\":\"unknown field `bogus`\"}"
    );
}

// The stream is finite exactly when the model eventually replies
// without tool calls: a script that never does cannot reach Done.
#[test]
fn test_stream_ends_only_without_tool_calls() {
    let mut store = Store::new();
    let mut context = ChatterContext::new_with_stored("t1".to_string(), Vec::new());
    context.add_user_message("loop forever");

    let llm = vec![
        reply(None, Some(vec![call("c1", "describe_tables", "{}")])),
        reply(None, Some(vec![call("c2", "describe_tables", "{}")])),
    ];
    let tools = vec![
        ToolOutcome::Describe(Vec::new()),
        ToolOutcome::Describe(Vec::new()),
    ];
    let (_, outcome) = run_turn(&mut context, &mut store, llm, tools, 0);
    assert!(matches!(outcome, TurnOutcome::OutOfEvents));
}

// An LLM transport fault is fatal to the stream.
#[test]
fn test_llm_fault_is_fatal() {
    let mut store = Store::new();
    let mut context = ChatterContext::new_with_stored("t1".to_string(), Vec::new());
    context.add_user_message("hello");

    let llm = vec![LlmEvent::Fault("connection reset".to_string())];
    let (yielded, outcome) = run_turn(&mut context, &mut store, llm, Vec::new(), 0);
    match outcome {
        TurnOutcome::Faulted(ChatterError::OpenAIError(m)) => {
            assert_eq!(m, "connection reset")
        }
        _ => panic!("expected the transport fault"),
    }
    assert_eq!(yielded.len(), 1);
    assert!(matches!(yielded[0].role, Role::User));
}

// The system envelope is never yielded: a rebuilt context carries the
// system prompt at the front, and the driver yields from the back.
#[test]
fn test_system_envelope_not_streamed() {
    let mut store = Store::new();
    let mut context = ChatterContext::new_with_stored("t1".to_string(), Vec::new());
    let system = chatter::chatter_context::create_system_message(&vec![(
        "prefectures".to_string(),
        "Prefectures".to_string(),
    )]);
    context.insert_system_message(system);
    context.add_user_message("hello");

    let llm = vec![reply(Some("Hi!"), None)];
    let (yielded, outcome) = run_turn(&mut context, &mut store, llm, Vec::new(), 0);
    assert!(matches!(outcome, TurnOutcome::Done));
    assert!(yielded.iter().all(|m| !matches!(m.role, Role::System)));
    assert!(yielded
        .iter()
        .all(|m| chatter::views::should_stream(m)));
}
