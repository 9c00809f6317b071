//! The conversation store: a single wide-column table.
//!
//! Every record lives under a composite key `(pk, sk)` and the store
//! keeps its records sorted by that key, as the backing table sorts a
//! partition by its sort key.  Its abstract value is the map from keys
//! to records; conditional puts — exclusive create and the optimistic
//! lock on a timestamp field — are stated over that map.

use vstd::prelude::*;
use vstd::pervasive::VecAdditionalExecFns;
use crate::codec::EncodedMessage;
use crate::codec::MsgFieldView;
use crate::error::DataError;
use crate::keys::KeyOrder;
use crate::keys::compare_str;
use crate::keys::lex_lt;
use crate::keys::lemma_lex_lt_asymmetric;
use crate::keys::lemma_lex_lt_trans;
use crate::keys::spec_starts_with;
use crate::keys::str_starts_with;

verus! {

/// A stored thread record, in its raw shape: `modified_ts` and the
/// schema version may be absent on records written before they existed.
pub struct ThreadItem {
    pub pk: String,
    pub sk: String,
    pub title: String,
    pub modified_ts: Option<i64>,
    pub archived: Option<bool>,
    pub schema_version: Option<i64>,
}

/// The abstract value of a `ThreadItem`.
#[verifier::ext_equal]
pub struct ThreadItemView {
    pub pk: Seq<char>,
    pub sk: Seq<char>,
    pub title: Seq<char>,
    pub modified_ts: Option<i64>,
    pub archived: Option<bool>,
    pub schema_version: Option<i64>,
}

impl DeepView for ThreadItem {
    type V = ThreadItemView;

    open spec fn deep_view(&self) -> ThreadItemView {
        ThreadItemView {
            pk: self.pk@,
            sk: self.sk@,
            title: self.title@,
            modified_ts: self.modified_ts,
            archived: self.archived,
            schema_version: self.schema_version,
        }
    }
}

/// A stored message record: the envelope in its encoded form.
pub struct MessageItem {
    pub pk: String,
    pub sk: String,
    pub msg: EncodedMessage,
}

/// The abstract value of a `MessageItem`.
#[verifier::ext_equal]
pub struct MessageItemView {
    pub pk: Seq<char>,
    pub sk: Seq<char>,
    pub msg: Seq<MsgFieldView>,
}

impl DeepView for MessageItem {
    type V = MessageItemView;

    open spec fn deep_view(&self) -> MessageItemView {
        MessageItemView { pk: self.pk@, sk: self.sk@, msg: self.msg.deep_view() }
    }
}

/// A stored saved-query record.
pub struct QueryItem {
    pub pk: String,
    pub sk: String,
    pub query_name: String,
    pub query_content: String,
    pub created_ts: i64,
    pub modified_ts: i64,
    pub accessed_ts: i64,
    pub ttl: Option<i64>,
}

/// The abstract value of a `QueryItem`.
#[verifier::ext_equal]
pub struct QueryItemView {
    pub pk: Seq<char>,
    pub sk: Seq<char>,
    pub query_name: Seq<char>,
    pub query_content: Seq<char>,
    pub created_ts: i64,
    pub modified_ts: i64,
    pub accessed_ts: i64,
    pub ttl: Option<i64>,
}

impl DeepView for QueryItem {
    type V = QueryItemView;

    open spec fn deep_view(&self) -> QueryItemView {
        QueryItemView {
            pk: self.pk@,
            sk: self.sk@,
            query_name: self.query_name@,
            query_content: self.query_content@,
            created_ts: self.created_ts,
            modified_ts: self.modified_ts,
            accessed_ts: self.accessed_ts,
            ttl: self.ttl,
        }
    }
}

/// A stored data-request record.
pub struct RequestItem {
    pub pk: String,
    pub sk: String,
    pub name: String,
    pub explanation: String,
    pub created_ts: i64,
    pub status: String,
}

/// The abstract value of a `RequestItem`.
#[verifier::ext_equal]
pub struct RequestItemView {
    pub pk: Seq<char>,
    pub sk: Seq<char>,
    pub name: Seq<char>,
    pub explanation: Seq<char>,
    pub created_ts: i64,
    pub status: Seq<char>,
}

impl DeepView for RequestItem {
    type V = RequestItemView;

    open spec fn deep_view(&self) -> RequestItemView {
        RequestItemView {
            pk: self.pk@,
            sk: self.sk@,
            name: self.name@,
            explanation: self.explanation@,
            created_ts: self.created_ts,
            status: self.status@,
        }
    }
}

/// One stored record of any type.
pub enum Record {
    Thread(ThreadItem),
    Message(MessageItem),
    Query(QueryItem),
    Request(RequestItem),
}

/// The abstract value of a stored record.
#[verifier::ext_equal]
pub enum RecordView {
    Thread(ThreadItemView),
    Message(MessageItemView),
    Query(QueryItemView),
    Request(RequestItemView),
}

impl DeepView for Record {
    type V = RecordView;

    open spec fn deep_view(&self) -> RecordView {
        match self {
            Record::Thread(t) => RecordView::Thread(t.deep_view()),
            Record::Message(m) => RecordView::Message(m.deep_view()),
            Record::Query(q) => RecordView::Query(q.deep_view()),
            Record::Request(r) => RecordView::Request(r.deep_view()),
        }
    }
}

/// The partition key of a record's abstract value.
pub open spec fn rec_pk(v: RecordView) -> Seq<char> {
    match v {
        RecordView::Thread(t) => t.pk,
        RecordView::Message(m) => m.pk,
        RecordView::Query(q) => q.pk,
        RecordView::Request(r) => r.pk,
    }
}

/// The sort key of a record's abstract value.
pub open spec fn rec_sk(v: RecordView) -> Seq<char> {
    match v {
        RecordView::Thread(t) => t.sk,
        RecordView::Message(m) => m.sk,
        RecordView::Query(q) => q.sk,
        RecordView::Request(r) => r.sk,
    }
}

/// The composite key of a record's abstract value.
pub open spec fn rec_key(v: RecordView) -> (Seq<char>, Seq<char>) {
    (rec_pk(v), rec_sk(v))
}

/// Strict order on composite keys: by partition key, then sort key.
pub open spec fn key_lt(a: (Seq<char>, Seq<char>), b: (Seq<char>, Seq<char>)) -> bool {
    lex_lt(a.0, b.0) || (a.0 == b.0 && lex_lt(a.1, b.1))
}

/// The key order is transitive.
pub proof fn lemma_key_lt_trans(
    a: (Seq<char>, Seq<char>),
    b: (Seq<char>, Seq<char>),
    c: (Seq<char>, Seq<char>),
)
    requires
        key_lt(a, b),
        key_lt(b, c),
    ensures
        key_lt(a, c),
{
    if lex_lt(a.0, b.0) && lex_lt(b.0, c.0) {
        lemma_lex_lt_trans(a.0, b.0, c.0);
    } else if a.0 == b.0 && b.0 == c.0 {
        lemma_lex_lt_trans(a.1, b.1, c.1);
    }
}

/// Ordered keys differ.
pub proof fn lemma_key_lt_neq(a: (Seq<char>, Seq<char>), b: (Seq<char>, Seq<char>))
    requires
        key_lt(a, b),
    ensures
        a != b,
        !key_lt(b, a),
{
    lemma_lex_lt_asymmetric(a.0, b.0);
    lemma_lex_lt_asymmetric(a.1, b.1);
}

impl Record {
    /// The partition key.
    pub fn pk(&self) -> (r: &String)
        ensures
            r@ == rec_pk(self.deep_view()),
    {
        match self {
            Record::Thread(t) => &t.pk,
            Record::Message(m) => &m.pk,
            Record::Query(q) => &q.pk,
            Record::Request(r) => &r.pk,
        }
    }

    /// The sort key.
    pub fn sk(&self) -> (r: &String)
        ensures
            r@ == rec_sk(self.deep_view()),
    {
        match self {
            Record::Thread(t) => &t.sk,
            Record::Message(m) => &m.sk,
            Record::Query(q) => &q.sk,
            Record::Request(r) => &r.sk,
        }
    }

    /// Copy the record, keeping its abstract value.
    pub fn duplicate(&self) -> (r: Record)
        ensures
            r.deep_view() == self.deep_view(),
    {
        let r = match self {
            Record::Thread(t) => Record::Thread(
                ThreadItem {
                    pk: t.pk.clone(),
                    sk: t.sk.clone(),
                    title: t.title.clone(),
                    modified_ts: t.modified_ts,
                    archived: t.archived,
                    schema_version: t.schema_version,
                },
            ),
            Record::Message(m) => Record::Message(
                MessageItem { pk: m.pk.clone(), sk: m.sk.clone(), msg: m.msg.clone_fields() },
            ),
            Record::Query(q) => Record::Query(
                QueryItem {
                    pk: q.pk.clone(),
                    sk: q.sk.clone(),
                    query_name: q.query_name.clone(),
                    query_content: q.query_content.clone(),
                    created_ts: q.created_ts,
                    modified_ts: q.modified_ts,
                    accessed_ts: q.accessed_ts,
                    ttl: q.ttl,
                },
            ),
            Record::Request(rq) => Record::Request(
                RequestItem {
                    pk: rq.pk.clone(),
                    sk: rq.sk.clone(),
                    name: rq.name.clone(),
                    explanation: rq.explanation.clone(),
                    created_ts: rq.created_ts,
                    status: rq.status.clone(),
                },
            ),
        };
        proof {
            assert(r.deep_view() =~= self.deep_view());
        }
        r
    }
}

/// Whether a sequence of records is strictly sorted by composite key.
pub open spec fn sorted(recs: Seq<RecordView>) -> bool {
    forall|i: int, j: int|
        0 <= i < j < recs.len() ==> key_lt(rec_key(#[trigger] recs[i]), rec_key(#[trigger] recs[j]))
}

/// The map a sequence of records denotes: each composite key to its
/// record.
pub open spec fn map_of(recs: Seq<RecordView>) -> Map<(Seq<char>, Seq<char>), RecordView> {
    Map::new(
        |k: (Seq<char>, Seq<char>)|
            exists|i: int| 0 <= i < recs.len() && rec_key(#[trigger] recs[i]) == k,
        |k: (Seq<char>, Seq<char>)|
            {
                let i = choose|i: int| 0 <= i < recs.len() && rec_key(#[trigger] recs[i]) == k;
                recs[i]
            },
    )
}

/// In a sorted sequence, each record is the one its key maps to.
pub proof fn lemma_map_of_index(recs: Seq<RecordView>, i: int)
    requires
        sorted(recs),
        0 <= i < recs.len(),
    ensures
        map_of(recs).contains_key(rec_key(recs[i])),
        map_of(recs)[rec_key(recs[i])] == recs[i],
{
    let k = rec_key(recs[i]);
    assert(map_of(recs).contains_key(k));
    let j = choose|j: int| 0 <= j < recs.len() && rec_key(#[trigger] recs[j]) == k;
    if i < j {
        lemma_key_lt_neq(rec_key(recs[i]), rec_key(recs[j]));
    }
    if j < i {
        lemma_key_lt_neq(rec_key(recs[j]), rec_key(recs[i]));
    }
}

/// Inserting a record between its neighbours extends the map by its key.
pub proof fn lemma_map_of_insert(recs: Seq<RecordView>, pos: int, v: RecordView)
    requires
        sorted(recs),
        0 <= pos <= recs.len(),
        forall|i: int| 0 <= i < pos ==> key_lt(rec_key(#[trigger] recs[i]), rec_key(v)),
        forall|i: int| pos <= i < recs.len() ==> key_lt(rec_key(v), rec_key(#[trigger] recs[i])),
    ensures
        sorted(recs.insert(pos, v)),
        map_of(recs.insert(pos, v)) == map_of(recs).insert(rec_key(v), v),
{
    let out = recs.insert(pos, v);
    assert forall|i: int, j: int| 0 <= i < j < out.len() implies key_lt(
        rec_key(#[trigger] out[i]),
        rec_key(#[trigger] out[j]),
    ) by {
        if i == pos {
            assert(out[j] == recs[j - 1]);
        } else if j == pos {
            assert(out[i] == recs[i]);
        } else if i < pos && j > pos {
            assert(out[i] == recs[i] && out[j] == recs[j - 1]);
            lemma_key_lt_trans(rec_key(recs[i]), rec_key(v), rec_key(recs[j - 1]));
        } else if j < pos {
            assert(out[i] == recs[i] && out[j] == recs[j]);
        } else {
            assert(out[i] == recs[i - 1] && out[j] == recs[j - 1]);
        }
    }
    let lhs = map_of(out);
    let rhs = map_of(recs).insert(rec_key(v), v);
    assert forall|k: (Seq<char>, Seq<char>)| lhs.contains_key(k) implies rhs.contains_key(k) by {
        let i = choose|i: int| 0 <= i < out.len() && rec_key(#[trigger] out[i]) == k;
        if i != pos {
            let oi = if i < pos {
                i
            } else {
                i - 1
            };
            assert(out[i] == recs[oi]);
            assert(rec_key(recs[oi]) == k);
        }
    }
    assert forall|k: (Seq<char>, Seq<char>)| rhs.contains_key(k) implies lhs.contains_key(k) by {
        if k == rec_key(v) {
            assert(rec_key(out[pos]) == k);
        } else {
            let i = choose|i: int| 0 <= i < recs.len() && rec_key(#[trigger] recs[i]) == k;
            let ni = if i < pos {
                i
            } else {
                i + 1
            };
            assert(out[ni] == recs[i]);
            assert(rec_key(out[ni]) == k);
        }
    }
    assert forall|k: (Seq<char>, Seq<char>)| lhs.contains_key(k) implies lhs[k] == rhs[k] by {
        let i = choose|i: int| 0 <= i < out.len() && rec_key(#[trigger] out[i]) == k;
        lemma_map_of_index(out, i);
        if k == rec_key(v) {
            lemma_map_of_index(out, pos);
            assert(lhs[k] == v);
        } else {
            let oi = if i < pos {
                i
            } else {
                i - 1
            };
            assert(i != pos);
            assert(out[i] == recs[oi]);
            lemma_map_of_index(recs, oi);
        }
    }
    assert(lhs =~= rhs);
}

/// The timestamp field of a record under a store attribute name, where
/// the record has one.
pub open spec fn spec_ts_field(v: RecordView, name: Seq<char>) -> Option<i64> {
    match v {
        RecordView::Thread(t) => if name == "modified_ts"@ {
            t.modified_ts
        } else {
            None
        },
        RecordView::Message(_) => None,
        RecordView::Query(q) => if name == "modified_ts"@ {
            Some(q.modified_ts)
        } else if name == "created_ts"@ {
            Some(q.created_ts)
        } else if name == "accessed_ts"@ {
            Some(q.accessed_ts)
        } else if name == "ttl"@ {
            q.ttl
        } else {
            None
        },
        RecordView::Request(r) => if name == "created_ts"@ {
            Some(r.created_ts)
        } else {
            None
        },
    }
}

/// Read the timestamp field of a record under a store attribute name.
pub fn ts_field(rec: &Record, name: &str) -> (r: Option<i64>)
    ensures
        r == spec_ts_field(rec.deep_view(), name@),
{
    match rec {
        Record::Thread(t) => {
            if crate::codec::str_eq(name, "modified_ts") {
                t.modified_ts
            } else {
                None
            }
        },
        Record::Message(_) => None,
        Record::Query(q) => {
            if crate::codec::str_eq(name, "modified_ts") {
                Some(q.modified_ts)
            } else if crate::codec::str_eq(name, "created_ts") {
                Some(q.created_ts)
            } else if crate::codec::str_eq(name, "accessed_ts") {
                Some(q.accessed_ts)
            } else if crate::codec::str_eq(name, "ttl") {
                q.ttl
            } else {
                None
            }
        },
        Record::Request(rq) => {
            if crate::codec::str_eq(name, "created_ts") {
                Some(rq.created_ts)
            } else {
                None
            }
        },
    }
}

/// What an exclusive-create put does to the store's map: nothing where
/// the key is taken, an insert where it is free.
pub open spec fn spec_put_excl(
    m: Map<(Seq<char>, Seq<char>), RecordView>,
    k: (Seq<char>, Seq<char>),
    v: RecordView,
) -> (Map<(Seq<char>, Seq<char>), RecordView>, bool) {
    if m.contains_key(k) {
        (m, false)
    } else {
        (m.insert(k, v), true)
    }
}

/// An exclusive create is idempotent under retry: once a first call has
/// created the record, a retried call with the same key fails, and the
/// stored record stays the winning call's.
pub proof fn lemma_put_excl_idempotent(
    m: Map<(Seq<char>, Seq<char>), RecordView>,
    k: (Seq<char>, Seq<char>),
    v: RecordView,
    w: RecordView,
)
    requires
        !m.contains_key(k),
    ensures
        ({
            let (m1, ok1) = spec_put_excl(m, k, v);
            let (m2, ok2) = spec_put_excl(m1, k, w);
            ok1 && !ok2 && m2 == m1 && m2[k] == v
        }),
{
}

/// Whether a record matches a partition key and a sort-key prefix.
pub open spec fn query_match(v: RecordView, pk: Seq<char>, prefix: Seq<char>) -> bool {
    rec_pk(v) == pk && spec_starts_with(rec_sk(v), prefix)
}

/// All records under a partition key whose sort key starts with the
/// prefix, in sort-key order.
pub open spec fn spec_query(recs: Seq<RecordView>, pk: Seq<char>, prefix: Seq<char>) -> Seq<
    RecordView,
> {
    recs.filter(|v: RecordView| query_match(v, pk, prefix))
}

/// Every element of a filtered sequence stands somewhere in the
/// original.
proof fn lemma_filter_member(s: Seq<RecordView>, pred: spec_fn(RecordView) -> bool, i: int)
    requires
        0 <= i < s.filter(pred).len(),
    ensures
        exists|k: int| 0 <= k < s.len() && s[k] == #[trigger] s.filter(pred)[i],
    decreases s.len(),
{
    reveal(Seq::filter);
    if s.len() > 0 {
        let dl = s.drop_last();
        let f = s.filter(pred);
        let fdl = dl.filter(pred);
        if pred(s.last()) {
            assert(f == fdl.push(s.last()));
            if i < fdl.len() {
                lemma_filter_member(dl, pred, i);
                let k = choose|k: int| 0 <= k < dl.len() && dl[k] == fdl[i];
                assert(s[k] == f[i]);
            } else {
                assert(f[i] == s[s.len() - 1]);
            }
        } else {
            assert(f == fdl);
            lemma_filter_member(dl, pred, i);
            let k = choose|k: int| 0 <= k < dl.len() && dl[k] == fdl[i];
            assert(s[k] == f[i]);
        }
    }
}

/// Filtering a sequence that is strictly sorted by composite key
/// leaves one that is strictly sorted by composite key.
proof fn lemma_filter_sorted(recs: Seq<RecordView>, pred: spec_fn(RecordView) -> bool)
    requires
        sorted(recs),
    ensures
        sorted(recs.filter(pred)),
    decreases recs.len(),
{
    reveal(Seq::filter);
    if recs.len() > 0 {
        let dl = recs.drop_last();
        assert(sorted(dl)) by {
            assert forall|i: int, j: int| 0 <= i < j < dl.len() implies key_lt(
                rec_key(#[trigger] dl[i]),
                rec_key(#[trigger] dl[j]),
            ) by {
                assert(dl[i] == recs[i] && dl[j] == recs[j]);
            }
        }
        lemma_filter_sorted(dl, pred);
        let f = recs.filter(pred);
        let fdl = dl.filter(pred);
        if pred(recs.last()) {
            assert(f == fdl.push(recs.last()));
            assert forall|i: int, j: int| 0 <= i < j < f.len() implies key_lt(
                rec_key(#[trigger] f[i]),
                rec_key(#[trigger] f[j]),
            ) by {
                if j < fdl.len() {
                    assert(f[i] == fdl[i] && f[j] == fdl[j]);
                } else {
                    assert(f[j] == recs.last());
                    assert(f[i] == fdl[i]);
                    lemma_filter_member(dl, pred, i);
                    let k = choose|k: int| 0 <= k < dl.len() && dl[k] == fdl[i];
                    assert(recs[k] == fdl[i]);
                    assert(key_lt(rec_key(recs[k]), rec_key(recs[recs.len() - 1])));
                }
            }
        } else {
            assert(f == fdl);
        }
    }
}

/// In a well-formed store, what a query returns ascends strictly in
/// composite key order: the sorted partition hands its matches out in
/// sort-key order.
pub proof fn lemma_query_sorted(
    recs: Seq<RecordView>,
    pk: Seq<char>,
    prefix: Seq<char>,
    i: int,
    j: int,
)
    requires
        sorted(recs),
        0 <= i < j < spec_query(recs, pk, prefix).len(),
    ensures
        key_lt(
            rec_key(spec_query(recs, pk, prefix)[i]),
            rec_key(spec_query(recs, pk, prefix)[j]),
        ),
{
    lemma_filter_sorted(recs, |v: RecordView| query_match(v, pk, prefix));
}

/// The conversation store: records sorted by composite key.
pub struct Store {
    pub records: Vec<Record>,
}

impl Store {
    /// The records' abstract values, in stored order.
    pub open spec fn recs(self) -> Seq<RecordView> {
        self.records.deep_view()
    }

    /// Well-formedness: strictly sorted by composite key, so each key
    /// occurs once.
    pub open spec fn wf(self) -> bool {
        sorted(self.recs())
    }

    /// The store's abstract value: the map from composite keys to
    /// records.
    pub open spec fn contents(self) -> Map<(Seq<char>, Seq<char>), RecordView> {
        map_of(self.recs())
    }

    /// An empty store.
    pub fn new() -> (s: Store)
        ensures
            s.wf(),
            s.contents() == Map::<(Seq<char>, Seq<char>), RecordView>::empty(),
    {
        let s = Store { records: Vec::new() };
        proof {
            assert(s.contents() =~= Map::<(Seq<char>, Seq<char>), RecordView>::empty());
        }
        s
    }

    /// Find where a key stands, or would stand, in the sorted records:
    /// the position, and whether the exact key is present there.
    fn find_pos(&self, pk: &str, sk: &str) -> (r: (usize, bool))
        requires
            self.wf(),
        ensures
            r.0 <= self.records.len(),
            forall|i: int|
                0 <= i < r.0 ==> key_lt(rec_key(#[trigger] self.recs()[i]), (pk@, sk@)),
            r.1 ==> r.0 < self.records.len() && rec_key(self.recs()[r.0 as int]) == (pk@, sk@),
            !r.1 ==> forall|i: int|
                r.0 <= i < self.records.len() ==> key_lt(
                    (pk@, sk@),
                    rec_key(#[trigger] self.recs()[i]),
                ),
    {
        let n = self.records.len();
        let mut i: usize = 0;
        while i < n
            invariant
                self.wf(),
                i <= n,
                n == self.records.len(),
                forall|j: int|
                    0 <= j < i ==> key_lt(rec_key(#[trigger] self.recs()[j]), (pk@, sk@)),
            decreases n - i,
        {
            let rec = &self.records[i];
            let rec_less: bool = match compare_str(rec.pk().as_str(), pk) {
                KeyOrder::Less => true,
                KeyOrder::Greater => false,
                KeyOrder::Equal => match compare_str(rec.sk().as_str(), sk) {
                    KeyOrder::Less => true,
                    KeyOrder::Greater => false,
                    KeyOrder::Equal => {
                        return (i, true);
                    },
                },
            };
            if !rec_less {
                proof {
                    assert(key_lt((pk@, sk@), rec_key(self.recs()[i as int])));
                    assert forall|j: int| i <= j < n implies key_lt(
                        (pk@, sk@),
                        rec_key(#[trigger] self.recs()[j]),
                    ) by {
                        if j > i {
                            lemma_key_lt_trans(
                                (pk@, sk@),
                                rec_key(self.recs()[i as int]),
                                rec_key(self.recs()[j]),
                            );
                        }
                    }
                }
                return (i, false);
            }
            i += 1;
        }
        (n, false)
    }

    /// Unconditional upsert.
    pub fn put_item(&mut self, input: Record) -> (r: Result<(), DataError>)
        requires
            old(self).wf(),
        ensures
            final (self).wf(),
            final (self).contents() == old(self).contents().insert(
                rec_key(input.deep_view()),
                input.deep_view(),
            ),
            r is Ok,
    {
        let ghost v = input.deep_view();
        let pkv = input.pk().clone();
        let skv = input.sk().clone();
        let (pos, found) = self.find_pos(pkv.as_str(), skv.as_str());
        if found {
            proof {
                lemma_map_of_update(self.recs(), pos as int, v);
            }
            let ghost pre = self.recs();
            self.records.set(pos, input);
            proof {
                assert(self.recs() =~= pre.update(pos as int, v));
            }
        } else {
            proof {
                lemma_map_of_insert(self.recs(), pos as int, v);
            }
            let ghost pre = self.recs();
            self.records.insert(pos, input);
            proof {
                assert(self.recs() =~= pre.insert(pos as int, v));
            }
        }
        Ok(())
    }

    /// Exclusive create: fails, changing nothing, where the key is
    /// already present.
    pub fn put_item_excl(&mut self, input: Record) -> (r: Result<(), DataError>)
        requires
            old(self).wf(),
        ensures
            final (self).wf(),
            ({
                let (m2, ok) = spec_put_excl(
                    old(self).contents(),
                    rec_key(input.deep_view()),
                    input.deep_view(),
                );
                &&& final (self).contents() == m2
                &&& (r is Ok <==> ok)
                &&& (r is Err ==> r->Err_0 is AlreadyExists && *final (self) == *old(self))
            }),
    {
        let ghost v = input.deep_view();
        let pkv = input.pk().clone();
        let skv = input.sk().clone();
        let (pos, found) = self.find_pos(pkv.as_str(), skv.as_str());
        if found {
            proof {
                lemma_map_of_index(self.recs(), pos as int);
            }
            return Err(DataError::AlreadyExists);
        }
        proof {
            if old(self).contents().contains_key(rec_key(v)) {
                let i = choose|i: int|
                    0 <= i < self.recs().len() && rec_key(#[trigger] self.recs()[i]) == rec_key(v);
                if i < pos as int {
                    lemma_key_lt_neq(rec_key(self.recs()[i]), rec_key(v));
                } else {
                    lemma_key_lt_neq(rec_key(v), rec_key(self.recs()[i]));
                }
            }
            lemma_map_of_insert(self.recs(), pos as int, v);
        }
        let ghost pre = self.recs();
        self.records.insert(pos, input);
        proof {
            assert(self.recs() =~= pre.insert(pos as int, v));
        }
        Ok(())
    }

    /// Optimistic-lock put: succeeds exactly where the currently-stored
    /// record's named timestamp field equals the expected value; fails,
    /// changing nothing, otherwise.
    pub fn put_item_lock(&mut self, input: Record, ts_field_name: &str, expected: i64) -> (r:
        Result<(), DataError>)
        requires
            old(self).wf(),
        ensures
            final (self).wf(),
            ({
                let k = rec_key(input.deep_view());
                let held = old(self).contents().contains_key(k) && spec_ts_field(
                    old(self).contents()[k],
                    ts_field_name@,
                ) == Some(expected);
                match r {
                    Ok(()) => held && final (self).contents() == old(self).contents().insert(
                        k,
                        input.deep_view(),
                    ),
                    Err(e) => !held && e is OptimisticLockFailed && *final (self) == *old(self),
                }
            }),
    {
        let ghost v = input.deep_view();
        let pkv = input.pk().clone();
        let skv = input.sk().clone();
        let (pos, found) = self.find_pos(pkv.as_str(), skv.as_str());
        if !found {
            proof {
                if old(self).contents().contains_key(rec_key(v)) {
                    let i = choose|i: int|
                        0 <= i < self.recs().len() && rec_key(#[trigger] self.recs()[i]) == rec_key(
                            v,
                        );
                    if i < pos as int {
                        lemma_key_lt_neq(rec_key(self.recs()[i]), rec_key(v));
                    } else {
                        lemma_key_lt_neq(rec_key(v), rec_key(self.recs()[i]));
                    }
                }
            }
            return Err(DataError::OptimisticLockFailed);
        }
        proof {
            lemma_map_of_index(self.recs(), pos as int);
        }
        let current = ts_field(&self.records[pos], ts_field_name);
        let held = match current {
            Some(ts) => ts == expected,
            None => false,
        };
        if !held {
            return Err(DataError::OptimisticLockFailed);
        }
        proof {
            lemma_map_of_update(self.recs(), pos as int, v);
        }
        let ghost pre = self.recs();
        self.records.set(pos, input);
        proof {
            assert(self.recs() =~= pre.update(pos as int, v));
        }
        Ok(())
    }

    /// Read the record under a key, if any.
    pub fn get_item(&self, pk: &str, sk: &str) -> (r: Option<Record>)
        requires
            self.wf(),
        ensures
            match r {
                Some(rec) => self.contents().contains_key((pk@, sk@)) && rec.deep_view()
                    == self.contents()[(pk@, sk@)],
                None => !self.contents().contains_key((pk@, sk@)),
            },
    {
        let (pos, found) = self.find_pos(pk, sk);
        if found {
            proof {
                lemma_map_of_index(self.recs(), pos as int);
            }
            Some(self.records[pos].duplicate())
        } else {
            proof {
                if self.contents().contains_key((pk@, sk@)) {
                    let i = choose|i: int|
                        0 <= i < self.recs().len() && rec_key(#[trigger] self.recs()[i]) == (
                        pk@,
                        sk@,
                        );
                    if i < pos as int {
                        lemma_key_lt_neq(rec_key(self.recs()[i]), (pk@, sk@));
                    } else {
                        lemma_key_lt_neq((pk@, sk@), rec_key(self.recs()[i]));
                    }
                }
            }
            None
        }
    }

    /// All records under a partition key whose sort key starts with the
    /// prefix, in sort-key order, up to the limit where one is given.
    pub fn query_all(&self, pk: &str, sk_prefix: &str, limit: Option<usize>) -> (r: Vec<Record>)
        requires
            self.wf(),
        ensures
            ({
                let full = spec_query(self.recs(), pk@, sk_prefix@);
                match limit {
                    Some(l) => r.deep_view() == if l as int <= full.len() {
                        full.take(l as int)
                    } else {
                        full
                    },
                    None => r.deep_view() == full,
                }
            }),
    {
        broadcast use vstd::seq_lib::group_filter_ensures;

        let ghost pred = |v: RecordView| query_match(v, pk@, sk_prefix@);
        let n = self.records.len();
        let mut out: Vec<Record> = Vec::new();
        let mut i: usize = 0;
        while i < n
            invariant
                self.wf(),
                i <= n,
                n == self.records.len(),
                out.deep_view() =~= self.recs().take(i as int).filter(pred),
                pred == (|v: RecordView| query_match(v, pk@, sk_prefix@)),
                match limit {
                    Some(l) => out.len() <= l,
                    None => true,
                },
            decreases n - i,
        {
            if let Some(l) = limit {
                if out.len() >= l {
                    // the caller's cap is reached: what was gathered is
                    // the first `l` matches
                    proof {
                        let full = spec_query(self.recs(), pk@, sk_prefix@);
                        assert(self.recs() =~= self.recs().take(i as int) + self.recs().skip(
                            i as int,
                        ));
                        assert(full =~= self.recs().take(i as int).filter(pred) + self.recs().skip(
                            i as int,
                        ).filter(pred));
                        assert(out.deep_view() =~= full.take(l as int));
                    }
                    return out;
                }
            }
            let rec = &self.records[i];
            let pk_matches = crate::codec::str_eq(rec.pk().as_str(), pk);
            let sk_matches = str_starts_with(rec.sk().as_str(), sk_prefix);
            let ghost pre = out.deep_view();
            if pk_matches && sk_matches {
                out.push(rec.duplicate());
            }
            proof {
                let t0 = self.recs().take(i as int);
                let t1 = self.recs().take(i as int + 1);
                assert(t1 =~= t0 + seq![self.recs()[i as int]]);
                assert(t1.filter(pred) == t0.filter(pred) + seq![
                    self.recs()[i as int],
                ].filter(pred));
                lemma_filter_singleton(self.recs()[i as int], pred);
                if pred(self.recs()[i as int]) {
                    assert(out.deep_view() =~= pre.push(self.recs()[i as int]));
                    assert(t1.filter(pred) =~= t0.filter(pred).push(self.recs()[i as int]));
                } else {
                    assert(t1.filter(pred) =~= t0.filter(pred));
                }
            }
            i += 1;
        }
        proof {
            assert(self.recs().take(n as int) =~= self.recs());
            let full = spec_query(self.recs(), pk@, sk_prefix@);
            if let Some(l) = limit {
                if l as int <= full.len() {
                    assert(out.deep_view().len() == full.len());
                    assert(out.deep_view() =~= full.take(l as int));
                }
            }
        }
        out
    }
}

/// What filtering a one-element sequence gives.
proof fn lemma_filter_singleton(v: RecordView, pred: spec_fn(RecordView) -> bool)
    ensures
        seq![v].filter(pred) == if pred(v) {
            seq![v]
        } else {
            Seq::<RecordView>::empty()
        },
{
    reveal(Seq::filter);
    assert(seq![v].drop_last() =~= Seq::<RecordView>::empty());
    assert(seq![v].last() == v);
    assert(Seq::<RecordView>::empty().filter(pred) =~= Seq::<RecordView>::empty());
    assert(Seq::<RecordView>::empty().push(v) =~= seq![v]);
}


/// Replacing the record at a key leaves the map with the new record
/// under that key.
pub proof fn lemma_map_of_update(recs: Seq<RecordView>, pos: int, v: RecordView)
    requires
        sorted(recs),
        0 <= pos < recs.len(),
        rec_key(recs[pos]) == rec_key(v),
    ensures
        sorted(recs.update(pos, v)),
        map_of(recs.update(pos, v)) == map_of(recs).insert(rec_key(v), v),
{
    let out = recs.update(pos, v);
    assert forall|i: int, j: int| 0 <= i < j < out.len() implies key_lt(
        rec_key(#[trigger] out[i]),
        rec_key(#[trigger] out[j]),
    ) by {
        assert(key_lt(rec_key(recs[i]), rec_key(recs[j])));
    }
    let lhs = map_of(out);
    let rhs = map_of(recs).insert(rec_key(v), v);
    assert forall|k: (Seq<char>, Seq<char>)| lhs.contains_key(k) implies rhs.contains_key(k) by {
        let i = choose|i: int| 0 <= i < out.len() && rec_key(#[trigger] out[i]) == k;
        if i != pos {
            assert(out[i] == recs[i]);
            assert(rec_key(recs[i]) == k);
        }
    }
    assert forall|k: (Seq<char>, Seq<char>)| rhs.contains_key(k) implies lhs.contains_key(k) by {
        if k == rec_key(v) {
            assert(rec_key(out[pos]) == k);
        } else {
            let i = choose|i: int| 0 <= i < recs.len() && rec_key(#[trigger] recs[i]) == k;
            assert(i != pos);
            assert(out[i] == recs[i]);
            assert(rec_key(out[i]) == k);
        }
    }
    assert forall|k: (Seq<char>, Seq<char>)| lhs.contains_key(k) implies lhs[k] == rhs[k] by {
        let i = choose|i: int| 0 <= i < out.len() && rec_key(#[trigger] out[i]) == k;
        lemma_map_of_index(out, i);
        if k == rec_key(v) {
            lemma_map_of_index(out, pos);
        } else {
            assert(i != pos);
            assert(out[i] == recs[i]);
            lemma_map_of_index(recs, i);
        }
    }
    assert(lhs =~= rhs);
}

} // verus!
