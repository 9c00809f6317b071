//! Thread records: one conversation owned by a user.

use vstd::prelude::*;
use crate::error::DataError;
use crate::keys::parse_thread_sk;
use crate::keys::parse_user_pk;
use crate::keys::spec_thread_sk;
use crate::keys::spec_user_pk;
use crate::keys::thread_sk;
use crate::keys::user_pk;
use crate::store::Record;
use crate::store::RecordView;
use crate::store::Store;
use crate::store::ThreadItem;
use crate::store::ThreadItemView;
use crate::store::spec_query;

verus! {

/// The current schema version of thread records.
pub const THREAD_SCHEMA_VERSION: i64 = 2;

/// A conversation thread.
pub struct ChatThread {
    /// `User#<user_id>`
    pub pk: String,
    /// `ChatThread#<thread_id>`
    pub sk: String,
    pub title: String,
    /// When the thread was last modified, in milliseconds since the
    /// epoch; guards concurrent edits through the optimistic lock.
    pub modified_ts: i64,
    /// Whether the thread is archived; `None` means `false`.  An
    /// archived thread accepts no further messages.
    pub archived: Option<bool>,
}

/// The abstract value of a `ChatThread`.
#[verifier::ext_equal]
pub struct ChatThreadView {
    pub pk: Seq<char>,
    pub sk: Seq<char>,
    pub title: Seq<char>,
    pub modified_ts: i64,
    pub archived: Option<bool>,
}

impl DeepView for ChatThread {
    type V = ChatThreadView;

    open spec fn deep_view(&self) -> ChatThreadView {
        ChatThreadView {
            pk: self.pk@,
            sk: self.sk@,
            title: self.title@,
            modified_ts: self.modified_ts,
            archived: self.archived,
        }
    }
}

/// Well-formed thread keys: built from a user id and a thread id.
pub open spec fn wf_thread_keys(v: ChatThreadView) -> bool {
    &&& exists|uid: Seq<char>| v.pk == spec_user_pk(uid)
    &&& exists|tid: Seq<char>| v.sk == spec_thread_sk(tid)
}

impl ChatThread {
    /// The user id carried in the partition key.
    pub fn user_id(&self) -> (r: String)
        requires
            wf_thread_keys(self.deep_view()),
        ensures
            self.pk@ == spec_user_pk(r@),
    {
        parse_user_pk(self.pk.as_str())
    }

    /// The thread id carried in the sort key.
    pub fn id(&self) -> (r: String)
        requires
            wf_thread_keys(self.deep_view()),
        ensures
            self.sk@ == spec_thread_sk(r@),
    {
        parse_thread_sk(self.sk.as_str())
    }

    /// Whether the thread is archived: an absent flag means not.
    pub fn is_archived(&self) -> (r: bool)
        ensures
            r == spec_thread_archived(self.deep_view()),
    {
        match self.archived {
            Some(b) => b,
            None => false,
        }
    }

    /// The thread's raw stored shape, at the current schema version.
    pub fn to_item(&self) -> (r: Record)
        ensures
            r.deep_view() == RecordView::Thread(spec_thread_item(self.deep_view())),
    {
        let item = ThreadItem {
            pk: self.pk.clone(),
            sk: self.sk.clone(),
            title: self.title.clone(),
            modified_ts: Some(self.modified_ts),
            archived: self.archived,
            schema_version: Some(THREAD_SCHEMA_VERSION),
        };
        proof {
            assert(item.deep_view() =~= spec_thread_item(self.deep_view()));
        }
        Record::Thread(item)
    }

    /// Copy the thread, keeping its abstract value.
    pub fn duplicate(&self) -> (r: ChatThread)
        ensures
            r.deep_view() == self.deep_view(),
    {
        ChatThread {
            pk: self.pk.clone(),
            sk: self.sk.clone(),
            title: self.title.clone(),
            modified_ts: self.modified_ts,
            archived: self.archived,
        }
    }
}

/// Whether a thread is archived: an absent flag means not.
pub open spec fn spec_thread_archived(v: ChatThreadView) -> bool {
    v.archived == Some(true)
}

/// The raw stored shape of a thread, at the current schema version.
pub open spec fn spec_thread_item(v: ChatThreadView) -> ThreadItemView {
    ThreadItemView {
        pk: v.pk,
        sk: v.sk,
        title: v.title,
        modified_ts: Some(v.modified_ts),
        archived: v.archived,
        schema_version: Some(THREAD_SCHEMA_VERSION),
    }
}

/// Builder for `ChatThread`; key fields are set through `user_id` and
/// `id`, which derive them.
pub struct ChatThreadBuilder {
    pub pk: Option<String>,
    pub sk: Option<String>,
    pub title: Option<String>,
    pub modified_ts: Option<i64>,
    pub archived: Option<Option<bool>>,
}

impl Default for ChatThreadBuilder {
    /// An empty builder.
    fn default() -> (r: ChatThreadBuilder)
        ensures
            r.pk is None,
            r.sk is None,
            r.title is None,
            r.modified_ts is None,
            r.archived is None,
    {
        ChatThreadBuilder { pk: None, sk: None, title: None, modified_ts: None, archived: None }
    }
}

impl ChatThreadBuilder {
    /// Set the partition key from the owning user's id.
    pub fn user_id(self, user_id: String) -> (r: ChatThreadBuilder)
        ensures
            r.pk.deep_view() == Some(spec_user_pk(user_id@)),
            r.sk == self.sk,
            r.title == self.title,
            r.modified_ts == self.modified_ts,
            r.archived == self.archived,
    {
        ChatThreadBuilder { pk: Some(user_pk(user_id.as_str())), ..self }
    }

    /// Set the sort key from the thread's id.
    pub fn id(self, thread_id: String) -> (r: ChatThreadBuilder)
        ensures
            r.sk.deep_view() == Some(spec_thread_sk(thread_id@)),
            r.pk == self.pk,
            r.title == self.title,
            r.modified_ts == self.modified_ts,
            r.archived == self.archived,
    {
        ChatThreadBuilder { sk: Some(thread_sk(thread_id.as_str())), ..self }
    }

    /// Set the title.
    pub fn title(self, title: String) -> (r: ChatThreadBuilder)
        ensures
            r.title == Some(title),
            r.pk == self.pk,
            r.sk == self.sk,
            r.modified_ts == self.modified_ts,
            r.archived == self.archived,
    {
        ChatThreadBuilder { title: Some(title), ..self }
    }

    /// Set the modification timestamp.
    pub fn modified_ts(self, ts: i64) -> (r: ChatThreadBuilder)
        ensures
            r.modified_ts == Some(ts),
            r.pk == self.pk,
            r.sk == self.sk,
            r.title == self.title,
            r.archived == self.archived,
    {
        ChatThreadBuilder { modified_ts: Some(ts), ..self }
    }

    /// Set the archived flag.
    pub fn archived(self, archived: Option<bool>) -> (r: ChatThreadBuilder)
        ensures
            r.archived == Some(archived),
            r.pk == self.pk,
            r.sk == self.sk,
            r.title == self.title,
            r.modified_ts == self.modified_ts,
    {
        ChatThreadBuilder { archived: Some(archived), ..self }
    }

    /// Build the thread; every field but `archived` must have been set,
    /// `archived` defaults to absent.
    pub fn build(self) -> (r: Result<ChatThread, DataError>)
        ensures
            match r {
                Ok(t) => {
                    &&& self.pk matches Some(pk) && t.pk == pk
                    &&& self.sk matches Some(sk) && t.sk == sk
                    &&& self.title matches Some(title) && t.title == title
                    &&& self.modified_ts matches Some(ts) && t.modified_ts == ts
                    &&& t.archived == (match self.archived {
                        Some(a) => a,
                        None => None,
                    })
                },
                Err(e) => {
                    &&& e is MalformedRecord
                    &&& (self.pk is None || self.sk is None || self.title is None
                        || self.modified_ts is None)
                },
            },
    {
        match (self.pk, self.sk, self.title, self.modified_ts) {
            (Some(pk), Some(sk), Some(title), Some(modified_ts)) => Ok(
                ChatThread {
                    pk,
                    sk,
                    title,
                    modified_ts,
                    archived: match self.archived {
                        Some(a) => a,
                        None => None,
                    },
                },
            ),
            _ => Err(DataError::MalformedRecord),
        }
    }
}

/// Read-time migration of thread records.
pub struct ChatThreadMigrator;

/// What migration does to a raw thread record: a record at version one
/// (or without a version) gains `modified_ts = now` and moves to the
/// current version; later versions pass unchanged.
pub open spec fn spec_migrate_thread(item: ThreadItemView, now: i64) -> ThreadItemView {
    let version = match item.schema_version {
        Some(v) => v,
        None => 1,
    };
    if version == 1 {
        ThreadItemView {
            modified_ts: Some(now),
            schema_version: Some(THREAD_SCHEMA_VERSION),
            ..item
        }
    } else {
        item
    }
}

impl ChatThreadMigrator {
    /// Upgrade a raw thread record to the current schema version.
    pub fn migrate(item: ThreadItem, now: i64) -> (r: ThreadItem)
        ensures
            r.deep_view() == spec_migrate_thread(item.deep_view(), now),
    {
        let version = match item.schema_version {
            Some(v) => v,
            None => 1,
        };
        if version == 1 {
            let r = ThreadItem {
                modified_ts: Some(now),
                schema_version: Some(THREAD_SCHEMA_VERSION),
                ..item
            };
            proof {
                assert(r.deep_view() =~= spec_migrate_thread(item.deep_view(), now));
            }
            r
        } else {
            let r = item;
            proof {
                assert(r.deep_view() =~= spec_migrate_thread(r.deep_view(), now));
            }
            r
        }
    }
}

/// The thread a migrated raw record denotes, where it is complete.
pub open spec fn spec_thread_from_item(item: ThreadItemView) -> Option<ChatThreadView> {
    match item.modified_ts {
        Some(ts) => Some(
            ChatThreadView {
                pk: item.pk,
                sk: item.sk,
                title: item.title,
                modified_ts: ts,
                archived: item.archived,
            },
        ),
        None => None,
    }
}

/// Decode a migrated raw thread record.
pub fn thread_from_item(item: ThreadItem) -> (r: Result<ChatThread, DataError>)
    ensures
        match r {
            Ok(t) => spec_thread_from_item(item.deep_view()) == Some(t.deep_view()),
            Err(e) => e is MalformedRecord && spec_thread_from_item(item.deep_view()) is None,
        },
{
    match item.modified_ts {
        Some(ts) => Ok(
            ChatThread {
                pk: item.pk,
                sk: item.sk,
                title: item.title,
                modified_ts: ts,
                archived: item.archived,
            },
        ),
        None => Err(DataError::MalformedRecord),
    }
}

/// The thread a stored record denotes after migration at `now`.
pub open spec fn spec_thread_of_record(v: RecordView, now: i64) -> Option<ChatThreadView> {
    match v {
        RecordView::Thread(item) => spec_thread_from_item(spec_migrate_thread(item, now)),
        _ => None,
    }
}

impl ChatThread {
    /// Fetch one thread by user and thread id; migration to the current
    /// schema version happens at read time, stamped with `now`.
    pub fn get_thread(store: &Store, user_id: &str, thread_id: &str, now: i64) -> (r: Result<
        ChatThread,
        DataError,
    >)
        requires
            store.wf(),
        ensures
            ({
                let k = (spec_user_pk(user_id@), spec_thread_sk(thread_id@));
                match r {
                    Ok(t) => store.contents().contains_key(k) && spec_thread_of_record(
                        store.contents()[k],
                        now,
                    ) == Some(t.deep_view()),
                    Err(e) => {
                        &&& (e is DocumentNotFound <==> !store.contents().contains_key(k))
                        &&& (store.contents().contains_key(k) ==> e is MalformedRecord
                            && spec_thread_of_record(store.contents()[k], now) is None)
                    },
                }
            }),
    {
        let pk = user_pk(user_id);
        let sk = thread_sk(thread_id);
        match store.get_item(pk.as_str(), sk.as_str()) {
            Some(rec) => match rec {
                Record::Thread(item) => thread_from_item(ChatThreadMigrator::migrate(item, now)),
                _ => Err(DataError::MalformedRecord),
            },
            None => Err(DataError::DocumentNotFound),
        }
    }

    /// Fetch all of a user's threads, newest first.
    pub fn get_all_user_threads(store: &Store, user_id: &str, now: i64) -> (r: Result<
        Vec<ChatThread>,
        DataError,
    >)
        requires
            store.wf(),
        ensures
            ({
                let q = spec_query(store.recs(), spec_user_pk(user_id@), "ChatThread#"@);
                match r {
                    Ok(threads) => {
                        &&& threads.deep_view().len() == q.len()
                        &&& forall|i: int|
                            0 <= i < q.len() ==> spec_thread_of_record(
                                q[q.len() - 1 - i],
                                now,
                            ) == Some(#[trigger] threads.deep_view()[i])
                    },
                    Err(e) => e is MalformedRecord && exists|i: int|
                        0 <= i < q.len() && spec_thread_of_record(#[trigger] q[i], now) is None,
                }
            }),
    {
        let ghost q = spec_query(store.recs(), spec_user_pk(user_id@), "ChatThread#"@);
        let pk = user_pk(user_id);
        let items = store.query_all(pk.as_str(), "ChatThread#", None);
        let mut threads: Vec<ChatThread> = Vec::new();
        let mut i: usize = items.len();
        while i > 0
            invariant
                q == spec_query(store.recs(), spec_user_pk(user_id@), "ChatThread#"@),
                q == items.deep_view(),
                i <= items.len(),
                threads.deep_view().len() == items.len() - i,
                forall|j: int|
                    0 <= j < threads.deep_view().len() ==> spec_thread_of_record(
                        q[q.len() - 1 - j],
                        now,
                    ) == Some(#[trigger] threads.deep_view()[j]),
            decreases i,
        {
            i -= 1;
            let t = match &items[i] {
                Record::Thread(item) => {
                    let migrated = ChatThreadMigrator::migrate(
                        ThreadItem {
                            pk: item.pk.clone(),
                            sk: item.sk.clone(),
                            title: item.title.clone(),
                            modified_ts: item.modified_ts,
                            archived: item.archived,
                            schema_version: item.schema_version,
                        },
                        now,
                    );
                    match thread_from_item(migrated) {
                        Ok(t) => t,
                        Err(e) => {
                            proof {
                                assert(q[i as int] == items.deep_view()[i as int]);
                                assert(spec_thread_of_record(q[i as int], now) is None);
                                assert(0 <= (i as int) && (i as int) < q.len());
                                assert(exists|j: int|
                                    0 <= j < q.len() && spec_thread_of_record(
                                        #[trigger] q[j],
                                        now,
                                    ) is None);
                            }
                            return Err(e);
                        },
                    }
                },
                _ => {
                    proof {
                        assert(q[i as int] == items.deep_view()[i as int]);
                        assert(spec_thread_of_record(q[i as int], now) is None);
                        assert(0 <= (i as int) && (i as int) < q.len());
                        assert(exists|j: int|
                            0 <= j < q.len() && spec_thread_of_record(
                                #[trigger] q[j],
                                now,
                            ) is None);
                    }
                    return Err(DataError::MalformedRecord);
                },
            };
            let ghost pre = threads.deep_view();
            threads.push(t);
            proof {
                assert(threads.deep_view() =~= pre.push(t.deep_view()));
            }
        }
        Ok(threads)
    }
}

} // verus!
