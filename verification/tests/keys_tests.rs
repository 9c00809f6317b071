use chatter::keys::KeyOrder;
use chatter::keys::compare_str;
use chatter::keys::format_seq;
use chatter::keys::message_sk;
use chatter::keys::parse_message_sk;
use chatter::keys::parse_query_sk;
use chatter::keys::parse_request_sk;
use chatter::keys::parse_seq;
use chatter::keys::parse_thread_sk;
use chatter::keys::parse_user_pk;
use chatter::keys::query_pk;
use chatter::keys::query_sk;
use chatter::keys::request_pk;
use chatter::keys::request_sk;
use chatter::keys::thread_sk;
use chatter::keys::user_pk;

#[test]
fn test_format_seq_zero_pads() {
    assert_eq!(format_seq(0), "000");
    assert_eq!(format_seq(7), "007");
    assert_eq!(format_seq(42), "042");
    assert_eq!(format_seq(999), "999");
}

// The sequence number reconstructable from a message sort key equals
// the zero-padded numeric parse of the trailing segment.
#[test]
fn test_message_sk_round_trip() {
    let sk = message_sk("01ARZ3NDEKTSV4RRFFQ69G5FAV", 17);
    assert_eq!(sk, "ChatMessage#01ARZ3NDEKTSV4RRFFQ69G5FAV#017");
    let (tid, seq) = parse_message_sk(&sk);
    assert_eq!(tid, "01ARZ3NDEKTSV4RRFFQ69G5FAV");
    assert_eq!(seq, 17);
    assert_eq!(parse_seq("017"), 17);
}

// Within one thread, message sort keys ascend lexicographically with
// the sequence numbers, zero-padding doing the work.
#[test]
fn test_message_sk_lex_order() {
    let a = message_sk("t", 2);
    let b = message_sk("t", 10);
    let c = message_sk("t", 100);
    assert!(matches!(compare_str(&a, &b), KeyOrder::Less));
    assert!(matches!(compare_str(&b, &c), KeyOrder::Less));
    assert!(matches!(compare_str(&a, &a), KeyOrder::Equal));
    assert!(matches!(compare_str(&c, &a), KeyOrder::Greater));
}

#[test]
fn test_key_builders_and_parsers() {
    assert_eq!(user_pk("user123"), "User#user123");
    assert_eq!(parse_user_pk("User#user123"), "user123");
    assert_eq!(thread_sk("thread456"), "ChatThread#thread456");
    assert_eq!(parse_thread_sk("ChatThread#thread456"), "thread456");
    assert_eq!(query_pk("t1"), "ChatThread#t1");
    assert_eq!(query_sk("q1"), "SqlQuery#q1");
    assert_eq!(parse_query_sk("SqlQuery#q1"), "q1");
    assert_eq!(request_pk(), "DataRequest");
    let sk = request_sk("t1", "r1");
    assert_eq!(sk, "ChatThread#t1#DataRequest#r1");
    let (tid, rid) = parse_request_sk(&sk);
    assert_eq!(tid, "t1");
    assert_eq!(rid, "r1");
}
