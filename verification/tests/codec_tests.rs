use chatter::chatter_message::ChatterMessage;
use chatter::chatter_message::ChatterMessageSidecar;
use chatter::chatter_message::Role;
use chatter::chatter_message::SQLExecutionDetails;
use chatter::chatter_message::ToolCall;
use chatter::codec::decode_message;
use chatter::codec::encode_message;

fn assert_round_trip(m: &ChatterMessage) {
    let encoded = encode_message(m);
    let decoded = decode_message(&encoded).expect("decoding an encoded envelope");
    assert_eq!(decoded.message, m.message);
    assert_eq!(decoded.role, m.role);
    assert_eq!(decoded.tool_call_id, m.tool_call_id);
    match (&decoded.tool_calls, &m.tool_calls) {
        (None, None) => {}
        (Some(a), Some(b)) => {
            assert_eq!(a.len(), b.len());
            for (x, y) in a.iter().zip(b.iter()) {
                assert_eq!(x.id, y.id);
                assert_eq!(x.name, y.name);
                assert_eq!(x.arguments, y.arguments);
            }
        }
        _ => panic!("tool calls did not survive the round trip"),
    }
    match (&decoded.sidecar, &m.sidecar) {
        (ChatterMessageSidecar::Empty, ChatterMessageSidecar::Empty) => {}
        (ChatterMessageSidecar::SQLExecutionError, ChatterMessageSidecar::SQLExecutionError) => {}
        (ChatterMessageSidecar::DatabaseLookup, ChatterMessageSidecar::DatabaseLookup) => {}
        (ChatterMessageSidecar::SQLExecution(a), ChatterMessageSidecar::SQLExecution(b)) => {
            assert_eq!(a.id, b.id);
            assert_eq!(a.name, b.name);
            assert_eq!(a.sql, b.sql);
        }
        _ => panic!("sidecar discriminant did not survive the round trip"),
    }
}

// Serialising an envelope and deserialising it yields an equal
// envelope, sidecar discriminants included.
#[test]
fn test_envelope_round_trip_all_fields() {
    let m = ChatterMessage {
        message: Some("running the query".to_string()),
        role: Role::Assistant,
        tool_calls: Some(vec![ToolCall {
            id: "call_1".to_string(),
            name: "query_database".to_string(),
            arguments: "{\"query_id\":\"\",\"name\":\"Prefectures\",\"query\":\"SELECT 1\"}"
                .to_string(),
        }]),
        tool_call_id: None,
        sidecar: ChatterMessageSidecar::Empty,
    };
    assert_round_trip(&m);
}

#[test]
fn test_envelope_round_trip_sidecars() {
    for sidecar in [
        ChatterMessageSidecar::Empty,
        ChatterMessageSidecar::SQLExecutionError,
        ChatterMessageSidecar::DatabaseLookup,
        ChatterMessageSidecar::SQLExecution(SQLExecutionDetails {
            id: "01H".to_string(),
            name: "Prefectures".to_string(),
            sql: "SELECT ogc_fid AS _id, name, geom FROM prefectures".to_string(),
        }),
    ] {
        let m = ChatterMessage {
            message: Some("done".to_string()),
            role: Role::Tool,
            tool_calls: None,
            tool_call_id: Some("call_9".to_string()),
            sidecar,
        };
        assert_round_trip(&m);
    }
}

#[test]
fn test_envelope_round_trip_absent_fields() {
    let m = ChatterMessage {
        message: None,
        role: Role::User,
        tool_calls: None,
        tool_call_id: None,
        sidecar: ChatterMessageSidecar::Empty,
    };
    assert_round_trip(&m);
}
