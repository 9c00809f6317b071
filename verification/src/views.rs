//! The HTTP-facing view layer: response shapes and the verified parts
//! of the thread handlers — the archived-thread gate, the sequence
//! numbering of a turn's envelopes, and their exclusive persistence.

use vstd::prelude::*;
use crate::chat_message::ChatMessage;
use crate::chat_message::spec_message_item;
use crate::chat_message::wf_message_keys;
use crate::chat_thread::ChatThread;
use crate::chat_thread::spec_thread_archived;
use crate::chat_thread::wf_thread_keys;
use crate::chatter_message::ChatterMessage;
use crate::chatter_message::ChatterMessageSidecar;
use crate::chatter_message::Role;
use crate::chatter_message::duplicate_opt_string;
use crate::data_request::DataRequest;
use crate::data_request::wf_request_keys;
use crate::error::AppError;
use crate::error::DataError;
use crate::keys::SEQ_LIMIT;
use crate::keys::lemma_message_sk_order;
use crate::keys::no_hash;
use crate::keys::spec_message_sk;
use crate::keys::spec_user_pk;
use crate::store::RecordView;
use crate::store::Store;

verus! {

/// One thread as the thread list shows it.
pub struct Thread {
    pub id: String,
    pub title: String,
}

impl Thread {
    /// The listing view of a stored thread.
    pub fn of_thread(t: &ChatThread) -> (r: Thread)
        requires
            wf_thread_keys(t.deep_view()),
        ensures
            t.sk@ == crate::keys::spec_thread_sk(r.id@),
            r.title@ == t.title@,
    {
        Thread { id: t.id(), title: t.title.clone() }
    }
}

/// The thread list.
pub struct ThreadList {
    pub threads: Vec<Thread>,
}

/// One envelope as the UI sees it: a tool reply's text is directed at
/// the LLM, so only its sidecar is shown.
pub struct MessageContent {
    pub message: Option<String>,
    pub role: Role,
    pub sidecar: ChatterMessageSidecar,
}

impl MessageContent {
    /// The UI view of an envelope.
    pub fn of_envelope(m: &ChatterMessage) -> (r: MessageContent)
        ensures
            r.role == m.role,
            r.sidecar.deep_view() == m.sidecar.deep_view(),
            r.message.deep_view() == (if m.role is Tool {
                None::<Seq<char>>
            } else {
                m.message.deep_view()
            }),
    {
        let message = if let Role::Tool = m.role {
            None
        } else {
            duplicate_opt_string(&m.message)
        };
        MessageContent { message, role: m.role, sidecar: m.sidecar.duplicate() }
    }
}

/// One stored message as the UI sees it.
pub struct MessageView {
    pub id: u32,
    pub content: MessageContent,
}

impl MessageView {
    /// The UI view of a stored message: its sequence number and its
    /// envelope's visible part.
    pub fn of_message(m: &ChatMessage) -> (r: MessageView)
        requires
            wf_message_keys(m.deep_view()),
        ensures
            r.id < SEQ_LIMIT,
            exists|tid: Seq<char>| m.sk@ == spec_message_sk(tid, r.id as int),
            r.content.role == m.msg.role,
    {
        let seq_no = m.id();
        proof {
            let tid = choose|tid: Seq<char>|
                no_hash(tid) && m.sk@ == spec_message_sk(tid, seq_no as int);
            assert(m.sk@ == spec_message_sk(tid, seq_no as int));
        }
        MessageView { id: seq_no, content: MessageContent::of_envelope(&m.msg) }
    }
}

/// A thread with its visible messages.
pub struct ThreadDetails {
    pub id: String,
    pub title: String,
    pub archived: Option<bool>,
    pub messages: Vec<MessageView>,
}

/// A thread with its raw envelopes, unfiltered.
pub struct ThreadDetailsFull {
    pub id: String,
    pub title: String,
    pub archived: Option<bool>,
    pub messages: Vec<ChatterMessage>,
}

/// One data request as the review list shows it.
pub struct DataRequestView {
    pub id: String,
    pub thread_id: String,
    pub name: String,
    pub explanation: String,
    pub created_ts: i64,
    pub status: String,
}

impl DataRequestView {
    /// The listing view of a stored data request.
    pub fn of_request(d: &DataRequest) -> (r: DataRequestView)
        requires
            wf_request_keys(d.deep_view()),
        ensures
            r.name@ == d.name@,
            r.explanation@ == d.explanation@,
            r.created_ts == d.created_ts,
            r.status@ == d.status@,
            d.sk@ == crate::keys::spec_request_sk(r.thread_id@, r.id@),
    {
        let (tid, rid) = crate::keys::parse_request_sk(d.sk.as_str());
        DataRequestView {
            id: rid,
            thread_id: tid,
            name: d.name.clone(),
            explanation: d.explanation.clone(),
            created_ts: d.created_ts,
            status: d.status.clone(),
        }
    }
}

/// Whether an envelope goes to the caller: the system envelope is
/// never streamed.
pub fn should_stream(m: &ChatterMessage) -> (r: bool)
    ensures
        r == (m.role != Role::System),
{
    match m.role {
        Role::System => false,
        _ => true,
    }
}

/// The turn gate: an archived thread accepts no further messages; the
/// caller answers such a turn with a conflict carrying the code
/// `thread_archived`, before anything is appended or persisted.
pub fn begin_turn(thread: &ChatThread) -> (r: Result<(), AppError>)
    ensures
        r is Ok <==> !spec_thread_archived(thread.deep_view()),
        r matches Err(e) ==> (e matches AppError::Conflict(code) && code@ == "thread_archived"@),
{
    if thread.is_archived() {
        Err(AppError::Conflict("thread_archived".to_owned()))
    } else {
        Ok(())
    }
}

/// Archive a thread under the optimistic lock: the write succeeds
/// exactly where the stored record's `modified_ts` still equals the
/// one this copy was loaded at; a 409 conflict is the caller's answer
/// to a failure.
pub fn archive_thread(store: &mut Store, thread: &ChatThread, now: i64) -> (r: Result<
    (),
    DataError,
>)
    requires
        old(store).wf(),
    ensures
        final (store).wf(),
        ({
            let k = (thread.pk@, thread.sk@);
            let held = old(store).contents().contains_key(k) && crate::store::spec_ts_field(
                old(store).contents()[k],
                "modified_ts"@,
            ) == Some(thread.modified_ts);
            match r {
                Ok(()) => held && final (store).contents() == old(store).contents().insert(
                    k,
                    RecordView::Thread(
                        crate::chat_thread::spec_thread_item(
                            crate::chat_thread::ChatThreadView {
                                archived: Some(true),
                                modified_ts: now,
                                ..thread.deep_view()
                            },
                        ),
                    ),
                ),
                Err(e) => !held && e is OptimisticLockFailed && *final (store) == *old(store),
            }
        }),
{
    let expected = thread.modified_ts;
    let mut updated = thread.duplicate();
    updated.archived = Some(true);
    updated.modified_ts = now;
    let item = updated.to_item();
    proof {
        assert(updated.deep_view() =~= crate::chat_thread::ChatThreadView {
            archived: Some(true),
            modified_ts: now,
            ..thread.deep_view()
        });
    }
    store.put_item_lock(item, "modified_ts", expected)
}

/// Assign sequence numbers to a turn's envelopes: the i-th envelope
/// becomes the message record at position `start + i` of the thread,
/// so a fresh thread's records carry 0 through N-1 and, the padding
/// being fixed-width, their sort keys ascend with the numbers.
pub fn number_messages(
    user_id: &str,
    thread_id: &str,
    start: u32,
    messages: &Vec<ChatterMessage>,
) -> (r: Vec<ChatMessage>)
    requires
        start + messages.len() <= SEQ_LIMIT,
    ensures
        r.len() == messages.len(),
        forall|i: int|
            0 <= i < r.len() ==> {
                let m = #[trigger] r.deep_view()[i];
                &&& m.pk == spec_user_pk(user_id@)
                &&& m.sk == spec_message_sk(thread_id@, start + i)
                &&& m.msg == messages.deep_view()[i]
            },
{
    let mut out: Vec<ChatMessage> = Vec::new();
    let mut i: usize = 0;
    while i < messages.len()
        invariant
            start + messages.len() <= SEQ_LIMIT,
            i <= messages.len(),
            out.len() == i,
            forall|j: int|
                0 <= j < i ==> {
                    let m = #[trigger] out.deep_view()[j];
                    &&& m.pk == spec_user_pk(user_id@)
                    &&& m.sk == spec_message_sk(thread_id@, start + j)
                    &&& m.msg == messages.deep_view()[j]
                },
        decreases messages.len() - i,
    {
        let seq_no = start + (i as u32);
        let record = ChatMessage {
            pk: crate::keys::user_pk(user_id),
            sk: crate::keys::message_sk(thread_id, seq_no),
            msg: messages[i].duplicate(),
        };
        let ghost pre = out.deep_view();
        let ghost rv = record.deep_view();
        out.push(record);
        proof {
            assert(out.deep_view() =~= pre.push(rv));
            assert(rv.msg == messages.deep_view()[i as int]);
        }
        i += 1;
    }
    out
}

/// The universal invariant of a thread's messages: where the thread
/// holds messages m0..mN-1 with the i-th stored under sequence i — as
/// `number_messages` writes a fresh thread — each sort key's trailing
/// zero-padded segment parses back to its index, and the sort keys
/// strictly ascend in lexicographic order with the indexes, so the
/// store's order is the numeric order.
pub proof fn lemma_thread_message_invariant(thread_id: Seq<char>, sks: Seq<Seq<char>>, i: int, j: int)
    requires
        forall|k: int| 0 <= k < sks.len() ==> #[trigger] sks[k] == spec_message_sk(thread_id, k),
        sks.len() <= 1000,
        0 <= i < j < sks.len(),
    ensures
        crate::keys::padded_seq_value(sks[i].skip(sks[i].len() - 3)) == i,
        crate::keys::lex_lt(sks[i], sks[j]),
{
    crate::keys::lemma_message_seq_from_sk(thread_id, i);
    lemma_message_sk_order(thread_id, i, j);
}

/// Two message keys of one thread with the same text carry the same
/// sequence number.
proof fn lemma_message_sk_injective(tid: Seq<char>, x: int, y: int)
    requires
        0 <= x < 1000,
        0 <= y < 1000,
        spec_message_sk(tid, x) == spec_message_sk(tid, y),
    ensures
        x == y,
{
    if x < y {
        lemma_message_sk_order(tid, x, y);
        crate::keys::lemma_lex_lt_asymmetric(spec_message_sk(tid, x), spec_message_sk(tid, y));
    }
    if y < x {
        lemma_message_sk_order(tid, y, x);
        crate::keys::lemma_lex_lt_asymmetric(spec_message_sk(tid, y), spec_message_sk(tid, x));
    }
}

/// The sequence number behind position `a` of an ascending key list.
spec fn seq_at(tid: Seq<char>, sks: Seq<Seq<char>>, n: int, a: int) -> int {
    choose|k: int| 0 <= k < n && sks[a] == spec_message_sk(tid, k)
}

/// The position at which sequence number `k` stands.
spec fn pos_of(tid: Seq<char>, sks: Seq<Seq<char>>, n: int, k: int) -> int {
    choose|a: int| 0 <= a < n && sks[a] == spec_message_sk(tid, k)
}

/// The premises of the contiguity law: `sks` ascends strictly, every
/// entry is a message key of the thread with a sequence below `n`, and
/// every sequence below `n` appears.
spec fn contiguous_keys(tid: Seq<char>, sks: Seq<Seq<char>>, n: int) -> bool {
    &&& 0 <= n <= 1000
    &&& sks.len() == n
    &&& forall|a: int, b: int|
        0 <= a < b < n ==> crate::keys::lex_lt(#[trigger] sks[a], #[trigger] sks[b])
    &&& forall|a: int|
        0 <= a < n ==> exists|k: int| 0 <= k < n && #[trigger] sks[a] == spec_message_sk(tid, k)
    &&& forall|k: int|
        #![trigger spec_message_sk(tid, k)]
        0 <= k < n ==> exists|a: int| 0 <= a < n && #[trigger] sks[a] == spec_message_sk(tid, k)
}

/// Positions order as their sequence numbers do.
proof fn lemma_seq_at_increasing(tid: Seq<char>, sks: Seq<Seq<char>>, n: int, a: int, b: int)
    requires
        contiguous_keys(tid, sks, n),
        0 <= a < b < n,
    ensures
        0 <= seq_at(tid, sks, n, a) < seq_at(tid, sks, n, b) < n,
{
    let ka = seq_at(tid, sks, n, a);
    let kb = seq_at(tid, sks, n, b);
    assert(0 <= ka < n && sks[a] == spec_message_sk(tid, ka));
    assert(0 <= kb < n && sks[b] == spec_message_sk(tid, kb));
    if ka == kb {
        crate::keys::lemma_lex_lt_asymmetric(sks[a], sks[b]);
    }
    if kb < ka {
        lemma_message_sk_order(tid, kb, ka);
        crate::keys::lemma_lex_lt_asymmetric(sks[a], sks[b]);
    }
}

/// A strictly increasing map on positions is at least the identity.
proof fn lemma_seq_at_ge(tid: Seq<char>, sks: Seq<Seq<char>>, n: int, a: int)
    requires
        contiguous_keys(tid, sks, n),
        0 <= a < n,
    ensures
        seq_at(tid, sks, n, a) >= a,
    decreases a,
{
    if a > 0 {
        lemma_seq_at_ge(tid, sks, n, a - 1);
        lemma_seq_at_increasing(tid, sks, n, a - 1, a);
    }
}

/// Sequence numbers order as their positions do.
proof fn lemma_pos_of_increasing(tid: Seq<char>, sks: Seq<Seq<char>>, n: int, j: int, k: int)
    requires
        contiguous_keys(tid, sks, n),
        0 <= j < k < n,
    ensures
        0 <= pos_of(tid, sks, n, j) < pos_of(tid, sks, n, k) < n,
{
    let aj = pos_of(tid, sks, n, j);
    let ak = pos_of(tid, sks, n, k);
    assert(0 <= aj < n && sks[aj] == spec_message_sk(tid, j));
    assert(0 <= ak < n && sks[ak] == spec_message_sk(tid, k));
    lemma_message_sk_order(tid, j, k);
    if aj == ak {
        crate::keys::lemma_lex_lt_asymmetric(spec_message_sk(tid, j), spec_message_sk(tid, k));
    }
    if ak < aj {
        crate::keys::lemma_lex_lt_asymmetric(sks[ak], sks[aj]);
    }
}

/// A strictly increasing map on sequence numbers is at least the
/// identity.
proof fn lemma_pos_of_ge(tid: Seq<char>, sks: Seq<Seq<char>>, n: int, k: int)
    requires
        contiguous_keys(tid, sks, n),
        0 <= k < n,
    ensures
        pos_of(tid, sks, n, k) >= k,
    decreases k,
{
    if k > 0 {
        lemma_pos_of_ge(tid, sks, n, k - 1);
        lemma_pos_of_increasing(tid, sks, n, k - 1, k);
    }
}

/// The contiguity law over a stored thread: where an ascending key
/// list — as a well-formed store's query returns one — holds exactly
/// the thread's message keys for sequences 0 through n-1, position i
/// holds sequence i: reading the thread back gives m0..mN-1 in order.
pub proof fn lemma_contiguous_thread_reads_in_order(
    tid: Seq<char>,
    sks: Seq<Seq<char>>,
    n: int,
    i: int,
)
    requires
        0 <= n <= 1000,
        sks.len() == n,
        forall|a: int, b: int|
            0 <= a < b < n ==> crate::keys::lex_lt(#[trigger] sks[a], #[trigger] sks[b]),
        forall|a: int|
            0 <= a < n ==> exists|k: int|
                0 <= k < n && #[trigger] sks[a] == spec_message_sk(tid, k),
        forall|k: int|
            #![trigger spec_message_sk(tid, k)]
            0 <= k < n ==> exists|a: int|
                0 <= a < n && #[trigger] sks[a] == spec_message_sk(tid, k),
        0 <= i < n,
    ensures
        sks[i] == spec_message_sk(tid, i),
{
    let a = pos_of(tid, sks, n, i);
    assert(0 <= a < n && sks[a] == spec_message_sk(tid, i));
    lemma_pos_of_ge(tid, sks, n, i);
    // the sequence behind that position is i itself
    let k = seq_at(tid, sks, n, a);
    assert(0 <= k < n && sks[a] == spec_message_sk(tid, k));
    lemma_message_sk_injective(tid, k, i);
    lemma_seq_at_ge(tid, sks, n, a);
    // k == i and k >= a and a >= i force a == i
    assert(a == i);
}

/// Persist a numbered turn with exclusive creates, in order, stopping
/// at the first conflict: no record is overwritten and no gap is left
/// before a persisted record.
#[verifier::spinoff_prover]
#[verifier::rlimit(60)]
pub fn persist_turn(store: &mut Store, records: Vec<ChatMessage>) -> (r: Result<(), DataError>)
    requires
        old(store).wf(),
    ensures
        final (store).wf(),
        match r {
            Ok(()) => {
                let recs = records.deep_view();
                &&& final (store).contents() == spec_persist_prefix(
                    old(store).contents(),
                    recs,
                    recs.len() as int,
                )
                &&& spec_first_conflict(old(store).contents(), recs) is None
                &&& forall|i: int|
                    0 <= i < recs.len() ==> !old(store).contents().contains_key(
                        ((#[trigger] recs[i]).pk, recs[i].sk),
                    )
                &&& forall|i: int|
                    0 <= i < recs.len() ==> {
                        let m = #[trigger] recs[i];
                        &&& final (store).contents().contains_key((m.pk, m.sk))
                        &&& final (store).contents()[(m.pk, m.sk)] == RecordView::Message(
                            spec_message_item(m),
                        )
                    }
            },
            Err(e) => {
                let recs = records.deep_view();
                &&& e is AlreadyExists
                &&& spec_first_conflict(old(store).contents(), recs) matches Some(j) && {
                    &&& final (store).contents() == spec_persist_prefix(
                        old(store).contents(),
                        recs,
                        j,
                    )
                    &&& forall|i: int|
                        0 <= i < j ==> !old(store).contents().contains_key(
                            ((#[trigger] recs[i]).pk, recs[i].sk),
                        )
                    &&& forall|i: int|
                        0 <= i < j ==> {
                            let m = #[trigger] recs[i];
                            &&& final (store).contents().contains_key((m.pk, m.sk))
                            &&& final (store).contents()[(m.pk, m.sk)] == RecordView::Message(
                                spec_message_item(m),
                            )
                        }
                }
            },
        },
{
    let n = records.len();
    let ghost all = records.deep_view();
    let ghost base = old(store).contents();
    let mut i: usize = 0;
    while i < records.len()
        invariant
            store.wf(),
            i <= records.len(),
            all == records.deep_view(),
            records.len() == n,
            base == old(store).contents(),
            store.contents() == spec_persist_prefix(base, all, i as int),
            spec_first_conflict(base, all) == spec_first_conflict_from(base, all, i as int),
            forall|j: int|
                0 <= j < i ==> !base.contains_key(((#[trigger] all[j]).pk, all[j].sk)),
            forall|j: int|
                0 <= j < i ==> {
                    let m = #[trigger] all[j];
                    &&& store.contents().contains_key((m.pk, m.sk))
                    &&& store.contents()[(m.pk, m.sk)] == RecordView::Message(spec_message_item(m))
                },
        decreases records.len() - i,
    {
        let record = records[i].duplicate();
        let ghost m = record.deep_view();
        let item = record.to_item();
        let ghost pre_contents = store.contents();
        match store.put_item_excl(item) {
            Ok(()) => {
                proof {
                    assert(store.contents() == pre_contents.insert(
                        (m.pk, m.sk),
                        RecordView::Message(spec_message_item(m)),
                    ));
                    assert(store.contents() == spec_persist_prefix(base, all, i as int + 1));
                    if base.contains_key((m.pk, m.sk)) {
                        lemma_persist_prefix_monotone(base, all, i as int, (m.pk, m.sk));
                    }
                    // this record found its key free, so the first
                    // conflict lies beyond it
                    assert(!spec_persist_prefix(base, all, i as int).contains_key(
                        ((all[i as int]).pk, all[i as int].sk),
                    ));
                    assert(spec_first_conflict_from(base, all, i as int)
                        == spec_first_conflict_from(base, all, i as int + 1));
                }
            },
            Err(e) => {
                proof {
                    // the key this record would take was already taken
                    assert(spec_persist_prefix(base, all, i as int).contains_key(
                        ((all[i as int]).pk, all[i as int].sk),
                    ));
                    assert(spec_first_conflict_from(base, all, i as int) == Some(i as int));
                }
                return Err(e);
            },
        }
        i += 1;
    }
    proof {
        assert(spec_first_conflict_from(base, all, records.len() as int) is None);
    }
    Ok(())
}

/// The first position whose record finds its key already taken when
/// the records are stored in order — the position a run of exclusive
/// creates stops at — or nothing, where every key is free.
pub open spec fn spec_first_conflict(
    m: Map<(Seq<char>, Seq<char>), RecordView>,
    records: Seq<crate::chat_message::ChatMessageView>,
) -> Option<int> {
    spec_first_conflict_from(m, records, 0)
}

/// The first conflict at or after position `i`.
pub open spec fn spec_first_conflict_from(
    m: Map<(Seq<char>, Seq<char>), RecordView>,
    records: Seq<crate::chat_message::ChatMessageView>,
    i: int,
) -> Option<int>
    decreases records.len() - i,
{
    if i < 0 || i >= records.len() {
        None
    } else if spec_persist_prefix(m, records, i).contains_key((records[i].pk, records[i].sk)) {
        Some(i)
    } else {
        spec_first_conflict_from(m, records, i + 1)
    }
}

/// The store's map after the first `n` records of a turn are stored,
/// each under its own composite key.
pub open spec fn spec_persist_prefix(
    m: Map<(Seq<char>, Seq<char>), RecordView>,
    records: Seq<crate::chat_message::ChatMessageView>,
    n: int,
) -> Map<(Seq<char>, Seq<char>), RecordView>
    decreases n,
{
    if n <= 0 {
        m
    } else {
        spec_persist_prefix(m, records, n - 1).insert(
            (records[n - 1].pk, records[n - 1].sk),
            RecordView::Message(spec_message_item(records[n - 1])),
        )
    }
}

/// Storing records only adds keys: whatever the starting map held, the
/// prefix map holds too.
proof fn lemma_persist_prefix_monotone(
    m: Map<(Seq<char>, Seq<char>), RecordView>,
    records: Seq<crate::chat_message::ChatMessageView>,
    n: int,
    k: (Seq<char>, Seq<char>),
)
    requires
        0 <= n,
        m.contains_key(k),
    ensures
        spec_persist_prefix(m, records, n).contains_key(k),
    decreases n,
{
    if n > 0 {
        lemma_persist_prefix_monotone(m, records, n - 1, k);
    }
}

} // verus!
