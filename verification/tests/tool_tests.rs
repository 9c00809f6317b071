use chatter::chatter_message::ChatterMessageSidecar;
use chatter::chatter_message::Role;
use chatter::error::ChatterError;
use chatter::error::PgError;
use chatter::functions::ColumnMetadata;
use chatter::functions::DescribeTablesParams;
use chatter::functions::ForeignKeyInfo;
use chatter::functions::FunctionRegistry;
use chatter::functions::LlmTool;
use chatter::functions::QueryDatabaseParams;
use chatter::functions::RequestUnavailableDataParams;
use chatter::functions::TableMetadata;
use chatter::functions::describe_tables_reply;
use chatter::functions::format_column;
use chatter::functions::prepare_query_database;
use chatter::functions::query_database_reply;
use chatter::functions::request_unavailable_data_reply;
use chatter::functions::strip_semicolon;
use chatter::functions::tool_args_error_reply;
use chatter::geom::GeometryKind;
use chatter::pg_helpers::PgCell;
use chatter::pg_helpers::PgColumn;
use chatter::pg_helpers::QuerySample;
use chatter::pg_helpers::build_sample_query;
use chatter::pg_helpers::format_db_error;
use chatter::pg_helpers::validate_query_rows;
use chatter::rows_to_tsv::rows_to_tsv;
use chatter::sql_query::SqlQuery;
use chatter::store::Store;

fn col(name: &str, pg_type: &str) -> PgColumn {
    PgColumn {
        name: name.to_string(),
        pg_type: pg_type.to_string(),
    }
}

fn geometry_sample() -> QuerySample {
    QuerySample {
        columns: vec![col("_id", "int4"), col("name", "text"), col("geom", "geometry")],
        rows: vec![
            vec![
                PgCell::I32(1),
                PgCell::Text("Tokyo".to_string()),
                PgCell::Geometry(GeometryKind::Polygon),
            ],
            vec![
                PgCell::I32(2),
                PgCell::Text("Osaka".to_string()),
                PgCell::Geometry(GeometryKind::Polygon),
            ],
        ],
    }
}

// Sample size = 0 rows is the semantic query fault.
#[test]
fn test_validate_empty_sample() {
    let sample = QuerySample {
        columns: vec![col("name", "text")],
        rows: vec![],
    };
    let err = validate_query_rows(&sample).unwrap_err();
    assert_eq!(
        err.message(),
        "SQL Query Error: Failed to execute query: The result set is empty. Try again."
    );
}

// A sample with rows but no geometry column is the semantic query fault.
#[test]
fn test_validate_no_geometry_column() {
    let sample = QuerySample {
        columns: vec![col("name", "text")],
        rows: vec![vec![PgCell::Text("Tokyo".to_string())]],
    };
    let err = validate_query_rows(&sample).unwrap_err();
    assert!(matches!(err, ChatterError::GeometryNotFound));
    assert_eq!(err.message(), "Geometry was not found in the query result");
    assert!(validate_query_rows(&geometry_sample()).is_ok());
}

#[test]
fn test_rows_to_tsv_integration() {
    // The reserved __rn column is dropped; a geometry renders as its
    // variant name and a null as the NULL literal.
    let sample = QuerySample {
        columns: vec![
            col("id", "int4"),
            col("name", "text"),
            col("geom", "geometry"),
            col("__rn", "int4"),
        ],
        rows: vec![
            vec![
                PgCell::I32(1),
                PgCell::Text("Alice".to_string()),
                PgCell::Geometry(GeometryKind::Point),
                PgCell::I32(1),
            ],
            vec![
                PgCell::I32(2),
                PgCell::Text("Bob".to_string()),
                PgCell::Null,
                PgCell::I32(2),
            ],
        ],
    };
    let result = rows_to_tsv(&sample);
    let expected = "id\tname\tgeom\n1\tAlice\tPoint\n2\tBob\tNULL\n";
    assert_eq!(result, expected);
}

#[test]
fn test_rows_to_tsv_empty() {
    let sample = QuerySample {
        columns: vec![col("id", "int4")],
        rows: vec![],
    };
    assert_eq!(rows_to_tsv(&sample), "Empty result set.");
}

#[test]
fn test_build_sample_query() {
    assert_eq!(
        build_sample_query("SELECT name FROM prefectures", 5),
        "SELECT * FROM (SELECT name FROM prefectures) AS t LIMIT 5"
    );
}

// The validator sees the same SQL whether or not a single trailing
// semicolon was sent.
#[test]
fn test_trailing_semicolon_stripped() {
    assert_eq!(strip_semicolon("SELECT 1;"), "SELECT 1");
    assert_eq!(strip_semicolon("SELECT 1"), "SELECT 1");
    let with = QueryDatabaseParams {
        query_id: "Q1".to_string(),
        name: "n".to_string(),
        query: "SELECT 1;".to_string(),
    };
    let without = QueryDatabaseParams {
        query_id: "Q1".to_string(),
        name: "n".to_string(),
        query: "SELECT 1".to_string(),
    };
    let a = prepare_query_database(&with);
    let b = prepare_query_database(&without);
    assert_eq!(a.0, b.0);
    assert_eq!(a.1, b.1);
    assert_eq!(a.2, b.2);
}

#[test]
fn test_prepare_mints_id_when_empty() {
    let params = QueryDatabaseParams {
        query_id: String::new(),
        name: "n".to_string(),
        query: "SELECT 1".to_string(),
    };
    let (id, _, _) = prepare_query_database(&params);
    assert_eq!(id.len(), 26);
}

// SQL whose sample lacks a geometry column yields the error envelope
// with the exact body.
#[test]
fn test_query_tool_missing_geometry() {
    let mut store = Store::new();
    let sample = QuerySample {
        columns: vec![col("name", "text")],
        rows: vec![vec![PgCell::Text("Tokyo".to_string())]],
    };
    let reply = query_database_reply(
        &mut store,
        "thread1",
        "01ARZ3NDEKTSV4RRFFQ69G5FAV".to_string(),
        "Prefectures".to_string(),
        "SELECT name FROM prefectures".to_string(),
        &Ok(sample),
        "call_1".to_string(),
        1700000000000,
    );
    assert!(matches!(reply.role, Role::Tool));
    assert!(matches!(
        reply.sidecar,
        ChatterMessageSidecar::SQLExecutionError
    ));
    assert_eq!(
        reply.message.as_ref().unwrap(),
        "{\"queryId\":\"01ARZ3NDEKTSV4RRFFQ69G5FAV\",\"error\":true,\"message\":\"Geometry was not found in the query result\"}"
    );
    // nothing was stored
    assert!(SqlQuery::get_query(&store, "thread1", "01ARZ3NDEKTSV4RRFFQ69G5FAV").is_err());
}

#[test]
fn test_query_tool_success_persists_query() {
    let mut store = Store::new();
    let reply = query_database_reply(
        &mut store,
        "thread1",
        "Q1".to_string(),
        "Prefectures".to_string(),
        "SELECT ogc_fid AS _id, name, geom FROM prefectures".to_string(),
        &Ok(geometry_sample()),
        "call_1".to_string(),
        1700000000000,
    );
    assert!(matches!(reply.role, Role::Tool));
    match &reply.sidecar {
        ChatterMessageSidecar::SQLExecution(d) => {
            assert_eq!(d.id, "Q1");
            assert_eq!(d.name, "Prefectures");
            assert_eq!(d.sql, "SELECT ogc_fid AS _id, name, geom FROM prefectures");
        }
        _ => panic!("expected the execution sidecar"),
    }
    let body = reply.message.as_ref().unwrap();
    assert!(body.starts_with("{\"queryId\":\"Q1\",\"tsv\":\""));
    assert!(body.ends_with(",\"tsvRows\":2}"));

    let stored = SqlQuery::get_query(&store, "thread1", "Q1").expect("query was stored");
    assert_eq!(stored.query_name, "Prefectures");
    assert_eq!(
        stored.query_content,
        "SELECT ogc_fid AS _id, name, geom FROM prefectures"
    );
    assert_eq!(stored.created_ts, 1700000000000);
}

#[test]
fn test_query_tool_db_fault() {
    let mut store = Store::new();
    let outcome = Err(ChatterError::PostgresError(PgError::Db {
        message: "syntax error at or near \"FORM\"".to_string(),
        where_detail: None,
        hint: Some("Perhaps you meant FROM.".to_string()),
    }));
    let reply = query_database_reply(
        &mut store,
        "thread1",
        "Q2".to_string(),
        "Broken".to_string(),
        "SELECT 1 FORM t".to_string(),
        &outcome,
        "call_2".to_string(),
        0,
    );
    assert!(matches!(
        reply.sidecar,
        ChatterMessageSidecar::SQLExecutionError
    ));
    assert_eq!(
        reply.message.as_ref().unwrap(),
        "{\"queryId\":\"Q2\",\"error\":true,\"message\":\"Failed to execute query: syntax error at or near \\\"FORM\\\", hint: Perhaps you meant FROM.\"}"
    );
}

#[test]
fn test_format_db_error_where_and_hint() {
    let e = ChatterError::PostgresError(PgError::Db {
        message: "m".to_string(),
        where_detail: Some("w".to_string()),
        hint: Some("h".to_string()),
    });
    assert_eq!(format_db_error(&e), "Failed to execute query: m, where: w, hint: h");
    let plain = ChatterError::PostgresError(PgError::Other("timeout".to_string()));
    assert_eq!(format_db_error(&plain), "Failed to execute query: timeout");
}

#[test]
fn test_describe_tables_reply_text() {
    let tables = vec![(
        "prefectures".to_string(),
        TableMetadata {
            name: "Prefectures".to_string(),
            desc: Some("All Japanese prefectures".to_string()),
            primary_key: Some("ogc_fid".to_string()),
            columns: vec![ColumnMetadata {
                name: "name".to_string(),
                desc: Some("The prefecture's name".to_string()),
                data_type: "text".to_string(),
                foreign_key: None,
                enum_values: None,
            }],
        },
    )];
    let reply = describe_tables_reply(&tables, "call_7".to_string());
    assert!(matches!(reply.role, Role::Tool));
    assert!(matches!(
        reply.sidecar,
        ChatterMessageSidecar::DatabaseLookup
    ));
    assert_eq!(reply.tool_call_id.as_ref().unwrap(), "call_7");
    let expected = "Table: `prefectures` (for humans: Prefectures)\n\
        - Description: All Japanese prefectures\n\
        - Primary key: ogc_fid\n\
        - Columns:\n  - `name`: The prefecture's name (type: text)\n\n\n\n";
    assert_eq!(reply.message.as_ref().unwrap(), expected);
}

#[test]
fn test_format_column_annotations() {
    let c = ColumnMetadata {
        name: "pref_id".to_string(),
        desc: None,
        data_type: "int4".to_string(),
        foreign_key: Some(ForeignKeyInfo {
            foreign_table: "prefectures".to_string(),
            foreign_column: "ogc_fid".to_string(),
        }),
        enum_values: None,
    };
    assert_eq!(
        format_column(&c),
        "  - `pref_id` (type: int4, foreign key: \"prefectures\".\"ogc_fid\")\n"
    );
}

#[test]
fn test_request_tool_stores_pending_request() {
    let mut store = Store::new();
    let params = RequestUnavailableDataParams {
        name: "River levels".to_string(),
        explanation: "Needed for flood maps".to_string(),
    };
    let (reply, request_id) = request_unavailable_data_reply(
        &mut store,
        "thread1",
        params,
        1700000000000,
        "call_3".to_string(),
    );
    assert_eq!(request_id.len(), 26);
    assert!(matches!(reply.role, Role::Tool));
    assert!(matches!(reply.sidecar, ChatterMessageSidecar::Empty));
    let expected = format!(
        "I've submitted a request for the data 'River levels'. The data team will review this request and get back to you. Request ID: {}",
        request_id
    );
    assert_eq!(reply.message.as_ref().unwrap(), &expected);

    let requests = chatter::data_request::DataRequest::get_all_requests(&store).unwrap();
    assert_eq!(requests.len(), 1);
    assert_eq!(requests[0].name, "River levels");
    assert_eq!(requests[0].status, "pending");
    assert_eq!(requests[0].thread_id(), "thread1");
    assert_eq!(requests[0].id(), request_id);
}

// Arguments that fail schema validation become a tool reply with an
// error payload.
#[test]
fn test_args_error_reply() {
    let reply = tool_args_error_reply("call_4".to_string(), "missing field `query`");
    assert!(matches!(reply.role, Role::Tool));
    assert!(matches!(
        reply.sidecar,
        ChatterMessageSidecar::SQLExecutionError
    ));
    assert_eq!(
        reply.message.as_ref().unwrap(),
        "{\"error\":true,\"message\":\"missing field `query`\"}"
    );
}

#[test]
fn test_registry_dispatch() {
    let mut registry = FunctionRegistry::new();
    registry.register(LlmTool::DescribeTables);
    registry.register(LlmTool::QueryDatabase);
    registry.register(LlmTool::RequestUnavailableData);
    assert!(matches!(
        registry.dispatch("query_database"),
        Ok(LlmTool::QueryDatabase)
    ));
    match registry.dispatch("delete_database") {
        Err(ChatterError::FunctionNotFound(n)) => assert_eq!(n, "delete_database"),
        _ => panic!("expected FunctionNotFound"),
    }
    let tools = registry.get_tools();
    assert_eq!(tools.len(), 3);
    assert_eq!(tools[0].name, "describe_tables");
    assert!(tools.iter().all(|t| t.strict));
    // the params shapes are data the caller parses into
    let _ = DescribeTablesParams {
        table_names: vec!["prefectures".to_string()],
    };
}
