//! Saved-query records: SQL the assistant authored, validated, and
//! saved under a stable id for later tiling.

use vstd::prelude::*;
use crate::error::DataError;
use crate::ext::mint_ulid;
use crate::ext::now_ms;
use crate::keys::no_hash;
use crate::keys::parse_query_sk;
use crate::keys::parse_thread_sk;
use crate::keys::query_pk;
use crate::keys::query_sk;
use crate::keys::spec_query_pk;
use crate::keys::spec_query_sk;
use crate::store::QueryItem;
use crate::store::QueryItemView;
use crate::store::Record;
use crate::store::RecordView;
use crate::store::Store;
use crate::store::rec_key;
use crate::store::spec_query;

verus! {

/// How long a saved query lives past its creation, in milliseconds.
pub const QUERY_TTL_MS: i64 = 86400000;

/// A saved SQL query.
pub struct SqlQuery {
    /// `ChatThread#<thread_id>`
    pub pk: String,
    /// `SqlQuery#<query_id>`
    pub sk: String,
    /// A user-friendly name for the query.
    pub query_name: String,
    /// The SQL text, as validated: without its trailing semicolon.
    pub query_content: String,
    pub created_ts: i64,
    pub modified_ts: i64,
    pub accessed_ts: i64,
    /// When the query may be deleted, in seconds-precision epoch time.
    pub ttl: Option<i64>,
}

/// The abstract value of a `SqlQuery`.
#[verifier::ext_equal]
pub struct SqlQueryView {
    pub pk: Seq<char>,
    pub sk: Seq<char>,
    pub query_name: Seq<char>,
    pub query_content: Seq<char>,
    pub created_ts: i64,
    pub modified_ts: i64,
    pub accessed_ts: i64,
    pub ttl: Option<i64>,
}

impl DeepView for SqlQuery {
    type V = SqlQueryView;

    open spec fn deep_view(&self) -> SqlQueryView {
        SqlQueryView {
            pk: self.pk@,
            sk: self.sk@,
            query_name: self.query_name@,
            query_content: self.query_content@,
            created_ts: self.created_ts,
            modified_ts: self.modified_ts,
            accessed_ts: self.accessed_ts,
            ttl: self.ttl,
        }
    }
}

/// Well-formed query keys: built from a thread id and a query id.
pub open spec fn wf_query_keys(v: SqlQueryView) -> bool {
    &&& exists|tid: Seq<char>| v.pk == spec_query_pk(tid)
    &&& exists|qid: Seq<char>| v.sk == spec_query_sk(qid)
}

impl SqlQuery {
    /// The thread id carried in the partition key.
    pub fn thread_id(&self) -> (r: String)
        requires
            wf_query_keys(self.deep_view()),
        ensures
            self.pk@ == spec_query_pk(r@),
    {
        proof {
            let tid = choose|tid: Seq<char>| self.pk@ == spec_query_pk(tid);
            assert(self.pk@ == crate::keys::spec_thread_sk(tid));
        }
        parse_thread_sk(self.pk.as_str())
    }

    /// The query id carried in the sort key.
    pub fn id(&self) -> (r: String)
        requires
            wf_query_keys(self.deep_view()),
        ensures
            self.sk@ == spec_query_sk(r@),
    {
        parse_query_sk(self.sk.as_str())
    }

    /// The query's raw stored shape.
    pub fn to_item(&self) -> (r: Record)
        ensures
            r.deep_view() == RecordView::Query(spec_query_item(self.deep_view())),
    {
        let item = QueryItem {
            pk: self.pk.clone(),
            sk: self.sk.clone(),
            query_name: self.query_name.clone(),
            query_content: self.query_content.clone(),
            created_ts: self.created_ts,
            modified_ts: self.modified_ts,
            accessed_ts: self.accessed_ts,
            ttl: self.ttl,
        };
        proof {
            assert(item.deep_view() =~= spec_query_item(self.deep_view()));
        }
        Record::Query(item)
    }

    /// Copy the query, keeping its abstract value.
    pub fn duplicate(&self) -> (r: SqlQuery)
        ensures
            r.deep_view() == self.deep_view(),
    {
        SqlQuery {
            pk: self.pk.clone(),
            sk: self.sk.clone(),
            query_name: self.query_name.clone(),
            query_content: self.query_content.clone(),
            created_ts: self.created_ts,
            modified_ts: self.modified_ts,
            accessed_ts: self.accessed_ts,
            ttl: self.ttl,
        }
    }
}

/// The raw stored shape of a saved query.
pub open spec fn spec_query_item(v: SqlQueryView) -> QueryItemView {
    QueryItemView {
        pk: v.pk,
        sk: v.sk,
        query_name: v.query_name,
        query_content: v.query_content,
        created_ts: v.created_ts,
        modified_ts: v.modified_ts,
        accessed_ts: v.accessed_ts,
        ttl: v.ttl,
    }
}

/// The saved query a stored record denotes.
pub open spec fn spec_sql_query_of_record(v: RecordView) -> Option<SqlQueryView> {
    match v {
        RecordView::Query(item) => Some(
            SqlQueryView {
                pk: item.pk,
                sk: item.sk,
                query_name: item.query_name,
                query_content: item.query_content,
                created_ts: item.created_ts,
                modified_ts: item.modified_ts,
                accessed_ts: item.accessed_ts,
                ttl: item.ttl,
            },
        ),
        _ => None,
    }
}

/// Decode a raw saved-query record.
pub fn query_from_item(item: QueryItem) -> (r: SqlQuery)
    ensures
        spec_sql_query_of_record(RecordView::Query(item.deep_view())) == Some(r.deep_view()),
{
    let r = SqlQuery {
        pk: item.pk,
        sk: item.sk,
        query_name: item.query_name,
        query_content: item.query_content,
        created_ts: item.created_ts,
        modified_ts: item.modified_ts,
        accessed_ts: item.accessed_ts,
        ttl: item.ttl,
    };
    proof {
        assert(spec_sql_query_of_record(RecordView::Query(item.deep_view())) == Some(
            r.deep_view(),
        ));
    }
    r
}

/// Read-time migration of saved-query records: no versions yet.
pub struct SqlQueryMigrator;

impl SqlQueryMigrator {
    /// Upgrade a raw saved-query record; nothing to do at this version.
    pub fn migrate(item: QueryItem) -> (r: QueryItem)
        ensures
            r.deep_view() == item.deep_view(),
    {
        item
    }
}

/// Builder for `SqlQuery`; key fields are set through `thread_id` and
/// `query_id`, which derive them.
pub struct SqlQueryBuilder {
    pub pk: Option<String>,
    pub sk: Option<String>,
    pub query_name: Option<String>,
    pub query_content: Option<String>,
    pub created_ts: Option<i64>,
    pub modified_ts: Option<i64>,
    pub accessed_ts: Option<i64>,
    pub ttl: Option<i64>,
}

impl Default for SqlQueryBuilder {
    /// An empty builder.
    fn default() -> (r: SqlQueryBuilder)
        ensures
            r.pk is None,
            r.sk is None,
            r.query_name is None,
            r.query_content is None,
            r.created_ts is None,
            r.modified_ts is None,
            r.accessed_ts is None,
            r.ttl is None,
    {
        SqlQueryBuilder {
            pk: None,
            sk: None,
            query_name: None,
            query_content: None,
            created_ts: None,
            modified_ts: None,
            accessed_ts: None,
            ttl: None,
        }
    }
}

impl SqlQueryBuilder {
    /// Set the partition key from the owning thread's id.
    pub fn thread_id(self, thread_id: &str) -> (r: SqlQueryBuilder)
        ensures
            r.pk.deep_view() == Some(spec_query_pk(thread_id@)),
            r.sk == self.sk,
            r.query_name == self.query_name,
            r.query_content == self.query_content,
            r.created_ts == self.created_ts,
            r.modified_ts == self.modified_ts,
            r.accessed_ts == self.accessed_ts,
            r.ttl == self.ttl,
    {
        SqlQueryBuilder { pk: Some(query_pk(thread_id)), ..self }
    }

    /// Set the sort key from the query's id.
    pub fn query_id(self, query_id: &str) -> (r: SqlQueryBuilder)
        ensures
            r.sk.deep_view() == Some(spec_query_sk(query_id@)),
            r.pk == self.pk,
            r.query_name == self.query_name,
            r.query_content == self.query_content,
            r.created_ts == self.created_ts,
            r.modified_ts == self.modified_ts,
            r.accessed_ts == self.accessed_ts,
            r.ttl == self.ttl,
    {
        SqlQueryBuilder { sk: Some(query_sk(query_id)), ..self }
    }

    /// Set the user-facing name.
    pub fn query_name(self, name: String) -> (r: SqlQueryBuilder)
        ensures
            r.query_name == Some(name),
            r.pk == self.pk,
            r.sk == self.sk,
            r.query_content == self.query_content,
            r.created_ts == self.created_ts,
            r.modified_ts == self.modified_ts,
            r.accessed_ts == self.accessed_ts,
            r.ttl == self.ttl,
    {
        SqlQueryBuilder { query_name: Some(name), ..self }
    }

    /// Set the SQL text.
    pub fn query_content(self, content: String) -> (r: SqlQueryBuilder)
        ensures
            r.query_content == Some(content),
            r.pk == self.pk,
            r.sk == self.sk,
            r.query_name == self.query_name,
            r.created_ts == self.created_ts,
            r.modified_ts == self.modified_ts,
            r.accessed_ts == self.accessed_ts,
            r.ttl == self.ttl,
    {
        SqlQueryBuilder { query_content: Some(content), ..self }
    }

    /// Set the creation timestamp.
    pub fn created_ts(self, ts: i64) -> (r: SqlQueryBuilder)
        ensures
            r.created_ts == Some(ts),
            r.pk == self.pk,
            r.sk == self.sk,
            r.query_name == self.query_name,
            r.query_content == self.query_content,
            r.modified_ts == self.modified_ts,
            r.accessed_ts == self.accessed_ts,
            r.ttl == self.ttl,
    {
        SqlQueryBuilder { created_ts: Some(ts), ..self }
    }

    /// Set the modification timestamp.
    pub fn modified_ts(self, ts: i64) -> (r: SqlQueryBuilder)
        ensures
            r.modified_ts == Some(ts),
            r.pk == self.pk,
            r.sk == self.sk,
            r.query_name == self.query_name,
            r.query_content == self.query_content,
            r.created_ts == self.created_ts,
            r.accessed_ts == self.accessed_ts,
            r.ttl == self.ttl,
    {
        SqlQueryBuilder { modified_ts: Some(ts), ..self }
    }

    /// Set the access timestamp.
    pub fn accessed_ts(self, ts: i64) -> (r: SqlQueryBuilder)
        ensures
            r.accessed_ts == Some(ts),
            r.pk == self.pk,
            r.sk == self.sk,
            r.query_name == self.query_name,
            r.query_content == self.query_content,
            r.created_ts == self.created_ts,
            r.modified_ts == self.modified_ts,
            r.ttl == self.ttl,
    {
        SqlQueryBuilder { accessed_ts: Some(ts), ..self }
    }

    /// Set the expiry timestamp.
    pub fn ttl(self, ts: i64) -> (r: SqlQueryBuilder)
        ensures
            r.ttl == Some(ts),
            r.pk == self.pk,
            r.sk == self.sk,
            r.query_name == self.query_name,
            r.query_content == self.query_content,
            r.created_ts == self.created_ts,
            r.modified_ts == self.modified_ts,
            r.accessed_ts == self.accessed_ts,
    {
        SqlQueryBuilder { ttl: Some(ts), ..self }
    }

    /// Start a builder for a fresh query: a newly minted id, all three
    /// timestamps at the present moment, and an expiry one day out.
    pub fn new_query(thread_id: String, name: String, content: String) -> (r: SqlQueryBuilder)
        ensures
            r.pk.deep_view() == Some(spec_query_pk(thread_id@)),
            r.sk matches Some(sk) && (exists|qid: Seq<char>|
                qid.len() == 26 && no_hash(qid) && sk@ == spec_query_sk(qid)),
            r.query_name == Some(name),
            r.query_content == Some(content),
            r.created_ts matches Some(now) && r.modified_ts == Some(now) && r.accessed_ts == Some(
                now,
            ) && (r.ttl matches Some(ttl) && now <= ttl),
    {
        let now = now_ms();
        let ttl = if now <= i64::MAX - QUERY_TTL_MS {
            now + QUERY_TTL_MS
        } else {
            i64::MAX
        };
        let query_id = mint_ulid();
        SqlQueryBuilder::default().thread_id(thread_id.as_str()).query_id(
            query_id.as_str(),
        ).query_name(name).query_content(content).created_ts(now).modified_ts(now).accessed_ts(
            now,
        ).ttl(ttl)
    }

    /// Build the query; the keys, the name, the content, and the three
    /// timestamps must have been set; the expiry may be absent.
    pub fn build(self) -> (r: Result<SqlQuery, DataError>)
        ensures
            match r {
                Ok(q) => {
                    &&& self.pk matches Some(pk) && q.pk == pk
                    &&& self.sk matches Some(sk) && q.sk == sk
                    &&& self.query_name matches Some(n) && q.query_name == n
                    &&& self.query_content matches Some(c) && q.query_content == c
                    &&& self.created_ts matches Some(t) && q.created_ts == t
                    &&& self.modified_ts matches Some(t) && q.modified_ts == t
                    &&& self.accessed_ts matches Some(t) && q.accessed_ts == t
                    &&& q.ttl == self.ttl
                },
                Err(e) => {
                    &&& e is MalformedRecord
                    &&& (self.pk is None || self.sk is None || self.query_name is None
                        || self.query_content is None || self.created_ts is None
                        || self.modified_ts is None || self.accessed_ts is None)
                },
            },
    {
        match (
            self.pk,
            self.sk,
            self.query_name,
            self.query_content,
            self.created_ts,
            self.modified_ts,
            self.accessed_ts,
        ) {
            (
                Some(pk),
                Some(sk),
                Some(query_name),
                Some(query_content),
                Some(created_ts),
                Some(modified_ts),
                Some(accessed_ts),
            ) => Ok(
                SqlQuery {
                    pk,
                    sk,
                    query_name,
                    query_content,
                    created_ts,
                    modified_ts,
                    accessed_ts,
                    ttl: self.ttl,
                },
            ),
            _ => Err(DataError::MalformedRecord),
        }
    }
}

impl SqlQuery {
    /// Fetch one saved query by thread and query id.
    pub fn get_query(store: &Store, thread_id: &str, query_id: &str) -> (r: Result<
        SqlQuery,
        DataError,
    >)
        requires
            store.wf(),
        ensures
            ({
                let k = (spec_query_pk(thread_id@), spec_query_sk(query_id@));
                match r {
                    Ok(q) => store.contents().contains_key(k) && spec_sql_query_of_record(
                        store.contents()[k],
                    ) == Some(q.deep_view()),
                    Err(e) => {
                        &&& (e is DocumentNotFound <==> !store.contents().contains_key(k))
                        &&& (store.contents().contains_key(k) ==> e is MalformedRecord
                            && spec_sql_query_of_record(store.contents()[k]) is None)
                    },
                }
            }),
    {
        let pk = query_pk(thread_id);
        let sk = query_sk(query_id);
        match store.get_item(pk.as_str(), sk.as_str()) {
            Some(rec) => match rec {
                Record::Query(item) => Ok(query_from_item(SqlQueryMigrator::migrate(item))),
                _ => Err(DataError::MalformedRecord),
            },
            None => Err(DataError::DocumentNotFound),
        }
    }

    /// Create and store a fresh saved query; returns the stored record.
    pub fn create_query(store: &mut Store, thread_id: &str, query_name: &str, query_content: &str)
        -> (r: Result<SqlQuery, DataError>)
        requires
            old(store).wf(),
        ensures
            final (store).wf(),
            match r {
                Ok(q) => {
                    &&& q.pk@ == spec_query_pk(thread_id@)
                    &&& q.query_name@ == query_name@
                    &&& q.query_content@ == query_content@
                    &&& final (store).contents() == old(store).contents().insert(
                        (q.pk@, q.sk@),
                        RecordView::Query(spec_query_item(q.deep_view())),
                    )
                },
                Err(_) => false,
            },
    {
        let builder = SqlQueryBuilder::new_query(
            thread_id.to_owned(),
            query_name.to_owned(),
            query_content.to_owned(),
        );
        let query = match builder.build() {
            Ok(q) => q,
            Err(e) => {
                return Err(e);
            },
        };
        let item = query.to_item();
        match store.put_item(item) {
            Ok(()) => Ok(query),
            Err(e) => Err(e),
        }
    }

    /// Update the name and/or the content of a stored query, stamping
    /// the modification time; fields passed as `None` keep their value.
    pub fn update_query(
        store: &mut Store,
        thread_id: &str,
        query_id: &str,
        query_name: Option<&str>,
        query_content: Option<&str>,
        now: i64,
    ) -> (r: Result<SqlQuery, DataError>)
        requires
            old(store).wf(),
        ensures
            final (store).wf(),
            ({
                let k = (spec_query_pk(thread_id@), spec_query_sk(query_id@));
                match r {
                    Ok(q) => {
                        &&& old(store).contents().contains_key(k)
                        &&& spec_sql_query_of_record(old(store).contents()[k]) matches Some(q0)
                            && q.deep_view() == (SqlQueryView {
                            query_name: match query_name {
                                Some(n) => n@,
                                None => q0.query_name,
                            },
                            query_content: match query_content {
                                Some(c) => c@,
                                None => q0.query_content,
                            },
                            modified_ts: now,
                            ..q0
                        })
                        &&& final (store).contents() == old(store).contents().insert(
                            k,
                            RecordView::Query(spec_query_item(q.deep_view())),
                        )
                    },
                    Err(e) => {
                        &&& *final (store) == *old(store)
                        &&& (e is DocumentNotFound <==> !old(store).contents().contains_key(k))
                        &&& (old(store).contents().contains_key(k) ==> e is MalformedRecord
                            && spec_sql_query_of_record(old(store).contents()[k]) is None)
                    },
                }
            }),
    {
        let mut query = match Self::get_query(store, thread_id, query_id) {
            Ok(q) => q,
            Err(e) => {
                return Err(e);
            },
        };
        if let Some(name) = query_name {
            query.query_name = name.to_owned();
        }
        if let Some(content) = query_content {
            query.query_content = content.to_owned();
        }
        query.modified_ts = now;
        let ghost k = (spec_query_pk(thread_id@), spec_query_sk(query_id@));
        proof {
            assert(rec_key(spec_sql_query_record(query.deep_view())) == k);
        }
        let item = query.to_item();
        match store.put_item(item) {
            Ok(()) => Ok(query),
            Err(e) => Err(e),
        }
    }

    /// Update only the content of a stored query.
    pub fn update_query_content(
        store: &mut Store,
        thread_id: &str,
        query_id: &str,
        query_content: &str,
        now: i64,
    ) -> (r: Result<SqlQuery, DataError>)
        requires
            old(store).wf(),
        ensures
            final (store).wf(),
            ({
                let k = (spec_query_pk(thread_id@), spec_query_sk(query_id@));
                match r {
                    Ok(q) => {
                        &&& old(store).contents().contains_key(k)
                        &&& spec_sql_query_of_record(old(store).contents()[k]) matches Some(q0)
                            && q.deep_view() == (SqlQueryView {
                            query_content: query_content@,
                            modified_ts: now,
                            ..q0
                        })
                        &&& final (store).contents() == old(store).contents().insert(
                            k,
                            RecordView::Query(spec_query_item(q.deep_view())),
                        )
                    },
                    Err(e) => {
                        &&& *final (store) == *old(store)
                        &&& (e is DocumentNotFound <==> !old(store).contents().contains_key(k))
                        &&& (old(store).contents().contains_key(k) ==> e is MalformedRecord
                            && spec_sql_query_of_record(old(store).contents()[k]) is None)
                    },
                }
            }),
    {
        Self::update_query(store, thread_id, query_id, None, Some(query_content), now)
    }

    /// Fetch all saved queries of a thread, in id order.
    pub fn get_thread_queries(store: &Store, thread_id: &str) -> (r: Result<
        Vec<SqlQuery>,
        DataError,
    >)
        requires
            store.wf(),
        ensures
            ({
                let q = spec_query(store.recs(), spec_query_pk(thread_id@), "SqlQuery#"@);
                match r {
                    Ok(queries) => {
                        &&& queries.deep_view().len() == q.len()
                        &&& forall|i: int|
                            0 <= i < q.len() ==> spec_sql_query_of_record(q[i]) == Some(
                                #[trigger] queries.deep_view()[i],
                            )
                    },
                    Err(e) => e is MalformedRecord && exists|i: int|
                        0 <= i < q.len() && spec_sql_query_of_record(#[trigger] q[i]) is None,
                }
            }),
    {
        let ghost q = spec_query(store.recs(), spec_query_pk(thread_id@), "SqlQuery#"@);
        let pk = query_pk(thread_id);
        let items = store.query_all(pk.as_str(), "SqlQuery#", None);
        let mut queries: Vec<SqlQuery> = Vec::new();
        let mut i: usize = 0;
        while i < items.len()
            invariant
                q == spec_query(store.recs(), spec_query_pk(thread_id@), "SqlQuery#"@),
                q == items.deep_view(),
                i <= items.len(),
                queries.deep_view().len() == i,
                forall|j: int|
                    0 <= j < i ==> spec_sql_query_of_record(q[j]) == Some(
                        #[trigger] queries.deep_view()[j],
                    ),
            decreases items.len() - i,
        {
            let qr = match &items[i] {
                Record::Query(item) => query_from_item(
                    SqlQueryMigrator::migrate(
                        QueryItem {
                            pk: item.pk.clone(),
                            sk: item.sk.clone(),
                            query_name: item.query_name.clone(),
                            query_content: item.query_content.clone(),
                            created_ts: item.created_ts,
                            modified_ts: item.modified_ts,
                            accessed_ts: item.accessed_ts,
                            ttl: item.ttl,
                        },
                    ),
                ),
                _ => {
                    proof {
                        assert(q[i as int] == items.deep_view()[i as int]);
                        assert(spec_sql_query_of_record(q[i as int]) is None);
                    }
                    return Err(DataError::MalformedRecord);
                },
            };
            let ghost pre = queries.deep_view();
            queries.push(qr);
            proof {
                assert(queries.deep_view() =~= pre.push(qr.deep_view()));
            }
            i += 1;
        }
        Ok(queries)
    }
}

/// The stored record of a saved query.
pub open spec fn spec_sql_query_record(v: SqlQueryView) -> RecordView {
    RecordView::Query(spec_query_item(v))
}

} // verus!
