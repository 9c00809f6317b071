//! Data-request records: user-visible markers that unavailable data
//! was asked for.

use vstd::prelude::*;
use crate::error::DataError;
use crate::keys::no_hash;
use crate::keys::parse_request_sk;
use crate::keys::request_pk;
use crate::keys::request_sk;
use crate::keys::spec_request_pk;
use crate::keys::spec_request_sk;
use crate::store::Record;
use crate::store::RecordView;
use crate::store::RequestItem;
use crate::store::RequestItemView;
use crate::store::Store;
use crate::store::spec_query;

verus! {

/// One data request.
pub struct DataRequest {
    /// `DataRequest`: the shared partition of all requests.
    pub pk: String,
    /// `ChatThread#<thread_id>#DataRequest#<request_id>`
    pub sk: String,
    /// The name of the data that is unavailable.
    pub name: String,
    /// Why the data would be relevant to the user.
    pub explanation: String,
    pub created_ts: i64,
    /// The request's review status; fresh requests are `pending`.
    pub status: String,
}

/// The abstract value of a `DataRequest`.
#[verifier::ext_equal]
pub struct DataRequestView {
    pub pk: Seq<char>,
    pub sk: Seq<char>,
    pub name: Seq<char>,
    pub explanation: Seq<char>,
    pub created_ts: i64,
    pub status: Seq<char>,
}

impl DeepView for DataRequest {
    type V = DataRequestView;

    open spec fn deep_view(&self) -> DataRequestView {
        DataRequestView {
            pk: self.pk@,
            sk: self.sk@,
            name: self.name@,
            explanation: self.explanation@,
            created_ts: self.created_ts,
            status: self.status@,
        }
    }
}

/// Well-formed request keys: the shared partition key, and a sort key
/// built from a hash-free thread id and a request id.
pub open spec fn wf_request_keys(v: DataRequestView) -> bool {
    &&& v.pk == spec_request_pk()
    &&& exists|tid: Seq<char>, rid: Seq<char>| no_hash(tid) && v.sk == spec_request_sk(tid, rid)
}

impl DataRequest {
    /// The thread id carried in the sort key: the hash-free segment the
    /// key was built from, which pins the decomposition.
    pub fn thread_id(&self) -> (r: String)
        requires
            wf_request_keys(self.deep_view()),
        ensures
            no_hash(r@),
            exists|rid: Seq<char>| self.sk@ == spec_request_sk(r@, rid),
    {
        let (tid, rid) = parse_request_sk(self.sk.as_str());
        proof {
            assert(self.sk@ == spec_request_sk(tid@, rid@));
        }
        tid
    }

    /// The request id carried in the sort key, under the hash-free
    /// thread id that pins the decomposition.
    pub fn id(&self) -> (r: String)
        requires
            wf_request_keys(self.deep_view()),
        ensures
            exists|tid: Seq<char>| no_hash(tid) && self.sk@ == spec_request_sk(tid, r@),
    {
        let (tid, rid) = parse_request_sk(self.sk.as_str());
        proof {
            assert(no_hash(tid@) && self.sk@ == spec_request_sk(tid@, rid@));
        }
        rid
    }

    /// The request's raw stored shape.
    pub fn to_item(&self) -> (r: Record)
        ensures
            r.deep_view() == RecordView::Request(spec_request_item(self.deep_view())),
    {
        let item = RequestItem {
            pk: self.pk.clone(),
            sk: self.sk.clone(),
            name: self.name.clone(),
            explanation: self.explanation.clone(),
            created_ts: self.created_ts,
            status: self.status.clone(),
        };
        proof {
            assert(item.deep_view() =~= spec_request_item(self.deep_view()));
        }
        Record::Request(item)
    }

    /// Copy the request, keeping its abstract value.
    pub fn duplicate(&self) -> (r: DataRequest)
        ensures
            r.deep_view() == self.deep_view(),
    {
        DataRequest {
            pk: self.pk.clone(),
            sk: self.sk.clone(),
            name: self.name.clone(),
            explanation: self.explanation.clone(),
            created_ts: self.created_ts,
            status: self.status.clone(),
        }
    }
}

/// The raw stored shape of a data request.
pub open spec fn spec_request_item(v: DataRequestView) -> RequestItemView {
    RequestItemView {
        pk: v.pk,
        sk: v.sk,
        name: v.name,
        explanation: v.explanation,
        created_ts: v.created_ts,
        status: v.status,
    }
}

/// The data request a stored record denotes.
pub open spec fn spec_request_of_record(v: RecordView) -> Option<DataRequestView> {
    match v {
        RecordView::Request(item) => Some(
            DataRequestView {
                pk: item.pk,
                sk: item.sk,
                name: item.name,
                explanation: item.explanation,
                created_ts: item.created_ts,
                status: item.status,
            },
        ),
        _ => None,
    }
}

/// Decode a raw data-request record.
pub fn request_from_item(item: RequestItem) -> (r: DataRequest)
    ensures
        spec_request_of_record(RecordView::Request(item.deep_view())) == Some(r.deep_view()),
{
    let r = DataRequest {
        pk: item.pk,
        sk: item.sk,
        name: item.name,
        explanation: item.explanation,
        created_ts: item.created_ts,
        status: item.status,
    };
    proof {
        assert(spec_request_of_record(RecordView::Request(item.deep_view())) == Some(
            r.deep_view(),
        ));
    }
    r
}

/// Read-time migration of data-request records: no versions yet.
pub struct DataRequestMigrator;

impl DataRequestMigrator {
    /// Upgrade a raw data-request record; nothing to do at this version.
    pub fn migrate(item: RequestItem) -> (r: RequestItem)
        ensures
            r.deep_view() == item.deep_view(),
    {
        item
    }
}

/// Builder for `DataRequest`; the keys are set together through
/// `thread_and_request_ids`.
pub struct DataRequestBuilder {
    pub pk: Option<String>,
    pub sk: Option<String>,
    pub name: Option<String>,
    pub explanation: Option<String>,
    pub created_ts: Option<i64>,
    pub status: Option<String>,
}

impl Default for DataRequestBuilder {
    /// An empty builder.
    fn default() -> (r: DataRequestBuilder)
        ensures
            r.pk is None,
            r.sk is None,
            r.name is None,
            r.explanation is None,
            r.created_ts is None,
            r.status is None,
    {
        DataRequestBuilder {
            pk: None,
            sk: None,
            name: None,
            explanation: None,
            created_ts: None,
            status: None,
        }
    }
}

impl DataRequestBuilder {
    /// Set both keys from the thread and request ids.
    pub fn thread_and_request_ids(self, thread_id: &str, request_id: &str) -> (r:
        DataRequestBuilder)
        ensures
            r.pk.deep_view() == Some(spec_request_pk()),
            r.sk.deep_view() == Some(spec_request_sk(thread_id@, request_id@)),
            r.name == self.name,
            r.explanation == self.explanation,
            r.created_ts == self.created_ts,
            r.status == self.status,
    {
        DataRequestBuilder {
            pk: Some(request_pk()),
            sk: Some(request_sk(thread_id, request_id)),
            ..self
        }
    }

    /// Set the name of the missing data.
    pub fn name(self, name: String) -> (r: DataRequestBuilder)
        ensures
            r.name == Some(name),
            r.pk == self.pk,
            r.sk == self.sk,
            r.explanation == self.explanation,
            r.created_ts == self.created_ts,
            r.status == self.status,
    {
        DataRequestBuilder { name: Some(name), ..self }
    }

    /// Set the explanation.
    pub fn explanation(self, explanation: String) -> (r: DataRequestBuilder)
        ensures
            r.explanation == Some(explanation),
            r.pk == self.pk,
            r.sk == self.sk,
            r.name == self.name,
            r.created_ts == self.created_ts,
            r.status == self.status,
    {
        DataRequestBuilder { explanation: Some(explanation), ..self }
    }

    /// Set the creation timestamp.
    pub fn created_ts(self, ts: i64) -> (r: DataRequestBuilder)
        ensures
            r.created_ts == Some(ts),
            r.pk == self.pk,
            r.sk == self.sk,
            r.name == self.name,
            r.explanation == self.explanation,
            r.status == self.status,
    {
        DataRequestBuilder { created_ts: Some(ts), ..self }
    }

    /// Set the status.
    pub fn status(self, status: String) -> (r: DataRequestBuilder)
        ensures
            r.status == Some(status),
            r.pk == self.pk,
            r.sk == self.sk,
            r.name == self.name,
            r.explanation == self.explanation,
            r.created_ts == self.created_ts,
    {
        DataRequestBuilder { status: Some(status), ..self }
    }

    /// Build the request; the keys, the name, the explanation, and the
    /// creation timestamp must have been set; the status defaults to
    /// `pending`.
    pub fn build(self) -> (r: Result<DataRequest, DataError>)
        ensures
            match r {
                Ok(d) => {
                    &&& self.pk matches Some(pk) && d.pk == pk
                    &&& self.sk matches Some(sk) && d.sk == sk
                    &&& self.name matches Some(n) && d.name == n
                    &&& self.explanation matches Some(x) && d.explanation == x
                    &&& self.created_ts matches Some(t) && d.created_ts == t
                    &&& d.status@ == (match self.status {
                        Some(st) => st@,
                        None => "pending"@,
                    })
                },
                Err(e) => {
                    &&& e is MalformedRecord
                    &&& (self.pk is None || self.sk is None || self.name is None
                        || self.explanation is None || self.created_ts is None)
                },
            },
    {
        match (self.pk, self.sk, self.name, self.explanation, self.created_ts) {
            (Some(pk), Some(sk), Some(name), Some(explanation), Some(created_ts)) => Ok(
                DataRequest {
                    pk,
                    sk,
                    name,
                    explanation,
                    created_ts,
                    status: match self.status {
                        Some(st) => st,
                        None => "pending".to_owned(),
                    },
                },
            ),
            _ => Err(DataError::MalformedRecord),
        }
    }
}

impl DataRequest {
    /// Fetch all data requests across all threads, in key order.
    pub fn get_all_requests(store: &Store) -> (r: Result<Vec<DataRequest>, DataError>)
        requires
            store.wf(),
        ensures
            ({
                let q = spec_query(store.recs(), spec_request_pk(), Seq::<char>::empty());
                match r {
                    Ok(requests) => {
                        &&& requests.deep_view().len() == q.len()
                        &&& forall|i: int|
                            0 <= i < q.len() ==> spec_request_of_record(q[i]) == Some(
                                #[trigger] requests.deep_view()[i],
                            )
                    },
                    Err(e) => e is MalformedRecord && exists|i: int|
                        0 <= i < q.len() && spec_request_of_record(#[trigger] q[i]) is None,
                }
            }),
    {
        let ghost q = spec_query(store.recs(), spec_request_pk(), Seq::<char>::empty());
        let pk = request_pk();
        proof {
            reveal_strlit("");
            assert(""@ =~= Seq::<char>::empty());
        }
        let items = store.query_all(pk.as_str(), "", None);
        let mut requests: Vec<DataRequest> = Vec::new();
        let mut i: usize = 0;
        while i < items.len()
            invariant
                q == spec_query(store.recs(), spec_request_pk(), Seq::<char>::empty()),
                q == items.deep_view(),
                i <= items.len(),
                requests.deep_view().len() == i,
                forall|j: int|
                    0 <= j < i ==> spec_request_of_record(q[j]) == Some(
                        #[trigger] requests.deep_view()[j],
                    ),
            decreases items.len() - i,
        {
            let rq = match &items[i] {
                Record::Request(item) => request_from_item(
                    DataRequestMigrator::migrate(
                        RequestItem {
                            pk: item.pk.clone(),
                            sk: item.sk.clone(),
                            name: item.name.clone(),
                            explanation: item.explanation.clone(),
                            created_ts: item.created_ts,
                            status: item.status.clone(),
                        },
                    ),
                ),
                _ => {
                    proof {
                        assert(q[i as int] == items.deep_view()[i as int]);
                        assert(spec_request_of_record(q[i as int]) is None);
                    }
                    return Err(DataError::MalformedRecord);
                },
            };
            let ghost pre = requests.deep_view();
            requests.push(rq);
            proof {
                assert(requests.deep_view() =~= pre.push(rq.deep_view()));
            }
            i += 1;
        }
        Ok(requests)
    }
}

} // verus!
