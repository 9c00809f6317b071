use chatter::chatter_context::ChatterContext;
use chatter::chatter_context::create_system_message;
use chatter::chatter_message::Role;
use chatter::decimal::format_i64;
use chatter::decimal::format_u64;
use chatter::error::ChatterError;
use chatter::error::DataError;
use chatter::geom::GeometryKind;
use chatter::json::json_string;
use chatter::pg_helpers::JsonScalar;
use chatter::pg_helpers::PgCell;
use chatter::pg_helpers::PgColumn;
use chatter::pg_helpers::convert_column_value;
use chatter::pg_helpers::split_row;
use chatter::sql_query::SqlQuery;
use chatter::store::Store;

#[test]
fn test_json_string_escaping() {
    assert_eq!(json_string("plain"), "\"plain\"");
    assert_eq!(json_string("say \"hi\""), "\"say \\\"hi\\\"\"");
    assert_eq!(json_string("a\\b"), "\"a\\\\b\"");
    assert_eq!(json_string("line\nbreak\ttab"), "\"line\\nbreak\\ttab\"");
    assert_eq!(json_string("\u{01}"), "\"\\u0001\"");
    assert_eq!(json_string("\u{0c}"), "\"\\f\"");
}

#[test]
fn test_decimal_rendering() {
    assert_eq!(format_u64(0), "0");
    assert_eq!(format_u64(57), "57");
    assert_eq!(format_u64(1000), "1000");
    assert_eq!(format_i64(-42), "-42");
    assert_eq!(format_i64(i64::MIN), "-9223372036854775808");
}

#[test]
fn test_error_messages() {
    assert_eq!(
        ChatterError::UnknownToolCall("delete_database".to_string()).message(),
        "Unknown Tool Call: delete_database"
    );
    assert_eq!(
        ChatterError::FunctionNotFound("nope".to_string()).message(),
        "Function not found: nope"
    );
    assert_eq!(DataError::DocumentNotFound.message(), "Document not found");
    assert_eq!(
        DataError::OptimisticLockFailed.message(),
        "Optimistic lock failed"
    );
}

#[test]
fn test_convert_column_value_shapes() {
    assert!(matches!(
        convert_column_value(&PgCell::Text("x".to_string())),
        JsonScalar::Str(_)
    ));
    assert!(matches!(
        convert_column_value(&PgCell::I32(3)),
        JsonScalar::IntNum(3)
    ));
    assert!(matches!(
        convert_column_value(&PgCell::Numeric("1.50".to_string())),
        JsonScalar::Str(_)
    ));
    assert!(matches!(
        convert_column_value(&PgCell::Json("{\"a\":1}".to_string())),
        JsonScalar::Raw(_)
    ));
    assert!(matches!(
        convert_column_value(&PgCell::Null),
        JsonScalar::Null
    ));
}

#[test]
fn test_split_row() {
    let cells = vec![
        (
            PgColumn {
                name: "name".to_string(),
                pg_type: "text".to_string(),
            },
            PgCell::Text("hello".to_string()),
        ),
        (
            PgColumn {
                name: "geom".to_string(),
                pg_type: "geometry".to_string(),
            },
            PgCell::Geometry(GeometryKind::Point),
        ),
    ];
    let (geom, props) = split_row(&cells).unwrap();
    assert!(matches!(geom, GeometryKind::Point));
    assert_eq!(props.len(), 1);
    assert_eq!(props[0].0, "name");
    assert!(matches!(props[0].1, JsonScalar::Str(_)));

    let no_geom = vec![(
        PgColumn {
            name: "name".to_string(),
            pg_type: "text".to_string(),
        },
        PgCell::Text("hello".to_string()),
    )];
    assert!(matches!(
        split_row(&no_geom),
        Err(ChatterError::GeometryNotFound)
    ));
}

#[test]
fn test_system_message_lists_tables() {
    let m = create_system_message(&vec![
        ("prefectures".to_string(), "Prefectures".to_string()),
        ("rivers".to_string(), "Rivers".to_string()),
    ]);
    assert!(matches!(m.role, Role::System));
    let text = m.message.as_ref().unwrap();
    assert!(text.ends_with("- `prefectures`: Prefectures\n- `rivers`: Rivers\n"));
}

#[test]
fn test_context_rebuild() {
    let ctx = ChatterContext::new_with_stored("T1".to_string(), Vec::new());
    assert_eq!(ctx.id, "T1");
    assert_eq!(ctx.model, "gpt-4.1");
    assert_eq!(ctx.tools.len(), 2);
    assert_eq!(ctx.tools[0].name, "describe_tables");
    assert_eq!(ctx.tools[1].name, "query_database");

    let fresh = ChatterContext::new();
    assert_eq!(fresh.id.len(), 26);
    assert!(fresh.messages.is_empty());
}

#[test]
fn test_sql_query_create_and_update() {
    let mut store = Store::new();
    let created = SqlQuery::create_query(&mut store, "T1", "Prefectures", "SELECT 1").unwrap();
    let id = created.id();
    assert_eq!(id.len(), 26);
    assert_eq!(created.thread_id(), "T1");

    let updated = SqlQuery::update_query(
        &mut store,
        "T1",
        &id,
        Some("Renamed"),
        None,
        1700000000123,
    )
    .unwrap();
    assert_eq!(updated.query_name, "Renamed");
    assert_eq!(updated.query_content, "SELECT 1");
    assert_eq!(updated.modified_ts, 1700000000123);

    let fetched = SqlQuery::get_query(&store, "T1", &id).unwrap();
    assert_eq!(fetched.query_name, "Renamed");

    let refreshed =
        SqlQuery::update_query_content(&mut store, "T1", &id, "SELECT 2", 1700000000456).unwrap();
    assert_eq!(refreshed.query_content, "SELECT 2");

    let all = SqlQuery::get_thread_queries(&store, "T1").unwrap();
    assert_eq!(all.len(), 1);

    assert!(matches!(
        SqlQuery::get_query(&store, "T1", "missing"),
        Err(DataError::DocumentNotFound)
    ));
}

#[test]
fn test_request_parts_by_role() {
    let assistant = chatter::chatter_message::ChatterMessage {
        message: Some("thinking".to_string()),
        role: Role::Assistant,
        tool_calls: Some(vec![chatter::chatter_message::ToolCall {
            id: "c1".to_string(),
            name: "query_database".to_string(),
            arguments: "{}".to_string(),
        }]),
        tool_call_id: Some("should not be sent".to_string()),
        sidecar: chatter::chatter_message::ChatterMessageSidecar::DatabaseLookup,
    };
    let parts = assistant.to_request_parts();
    assert!(matches!(parts.role, Role::Assistant));
    assert_eq!(parts.content.as_deref(), Some("thinking"));
    assert!(parts.tool_calls.is_some());
    // only a tool turn names the call it answers
    assert!(parts.tool_call_id.is_none());

    let tool = chatter::chatter_message::ChatterMessage {
        message: Some("result".to_string()),
        role: Role::Tool,
        tool_calls: None,
        tool_call_id: Some("c1".to_string()),
        sidecar: chatter::chatter_message::ChatterMessageSidecar::Empty,
    };
    let parts = tool.to_request_parts();
    assert!(parts.tool_calls.is_none());
    assert_eq!(parts.tool_call_id.as_deref(), Some("c1"));
}

#[test]
fn test_cli_show_messages() {
    let cli = chatter::cli::Cli {
        command: Some(chatter::cli::Commands::Chatter {
            show_messages: true,
        }),
    };
    assert!(cli.show_messages());
    let none = chatter::cli::Cli { command: None };
    assert!(!none.show_messages());
}
