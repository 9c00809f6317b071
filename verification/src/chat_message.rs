//! Message records: one stored turn of a thread.

use vstd::prelude::*;
use crate::chatter_message::ChatterMessage;
use crate::chatter_message::ChatterMessageView;
use crate::codec::decode_message;
use crate::codec::encode_message;
use crate::codec::lemma_message_codec_round_trip;
use crate::codec::spec_decode_message;
use crate::codec::spec_encode_message;
use crate::error::DataError;
use crate::keys::SEQ_LIMIT;
use crate::keys::concat_str;
use crate::keys::message_sk;
use crate::keys::no_hash;
use crate::keys::parse_message_sk;
use crate::keys::parse_user_pk;
use crate::keys::spec_message_sk;
use crate::keys::spec_user_pk;
use crate::keys::user_pk;
use crate::keys::wf_message_sk;
use crate::store::MessageItem;
use crate::store::MessageItemView;
use crate::store::Record;
use crate::store::RecordView;
use crate::store::Store;
use crate::store::spec_query;

verus! {

/// One stored chat message: the envelope under its thread position.
pub struct ChatMessage {
    /// `User#<user_id>`
    pub pk: String,
    /// `ChatMessage#<thread_id>#<seq>`
    pub sk: String,
    /// The message envelope.
    pub msg: ChatterMessage,
}

/// The abstract value of a `ChatMessage`.
#[verifier::ext_equal]
pub struct ChatMessageView {
    pub pk: Seq<char>,
    pub sk: Seq<char>,
    pub msg: ChatterMessageView,
}

impl DeepView for ChatMessage {
    type V = ChatMessageView;

    open spec fn deep_view(&self) -> ChatMessageView {
        ChatMessageView { pk: self.pk@, sk: self.sk@, msg: self.msg.deep_view() }
    }
}

/// Well-formed message keys: the partition key carries a user id and
/// the sort key a thread id with a sequence number under the cap.
pub open spec fn wf_message_keys(v: ChatMessageView) -> bool {
    &&& exists|uid: Seq<char>| v.pk == spec_user_pk(uid)
    &&& wf_message_sk(v.sk)
}

impl ChatMessage {
    /// The user id carried in the partition key.
    pub fn user_id(&self) -> (r: String)
        requires
            wf_message_keys(self.deep_view()),
        ensures
            self.pk@ == spec_user_pk(r@),
    {
        parse_user_pk(self.pk.as_str())
    }

    /// The thread id carried in the sort key.
    pub fn thread_id(&self) -> (r: String)
        requires
            wf_message_keys(self.deep_view()),
        ensures
            no_hash(r@),
            exists|seq: int|
                0 <= seq < 1000 && self.sk@ == spec_message_sk(r@, seq),
    {
        let (tid, seq) = parse_message_sk(self.sk.as_str());
        proof {
            assert(0 <= (seq as int) < 1000 && self.sk@ == spec_message_sk(tid@, seq as int));
        }
        tid
    }

    /// The sequence number carried in the sort key.
    pub fn id(&self) -> (r: u32)
        requires
            wf_message_keys(self.deep_view()),
        ensures
            r < SEQ_LIMIT,
            exists|tid: Seq<char>|
                no_hash(tid) && self.sk@ == spec_message_sk(tid, r as int),
    {
        let (tid, seq) = parse_message_sk(self.sk.as_str());
        proof {
            assert(no_hash(tid@) && self.sk@ == spec_message_sk(tid@, seq as int));
        }
        seq
    }

    /// The message's raw stored shape: the envelope in encoded form.
    pub fn to_item(&self) -> (r: Record)
        ensures
            r.deep_view() == RecordView::Message(spec_message_item(self.deep_view())),
    {
        let item = MessageItem {
            pk: self.pk.clone(),
            sk: self.sk.clone(),
            msg: encode_message(&self.msg),
        };
        proof {
            assert(item.deep_view() =~= spec_message_item(self.deep_view()));
        }
        Record::Message(item)
    }

    /// Copy the message, keeping its abstract value.
    pub fn duplicate(&self) -> (r: ChatMessage)
        ensures
            r.deep_view() == self.deep_view(),
    {
        ChatMessage { pk: self.pk.clone(), sk: self.sk.clone(), msg: self.msg.duplicate() }
    }
}

/// The raw stored shape of a message.
pub open spec fn spec_message_item(v: ChatMessageView) -> MessageItemView {
    MessageItemView { pk: v.pk, sk: v.sk, msg: spec_encode_message(v.msg) }
}

/// The message a stored record denotes.
pub open spec fn spec_message_of_record(v: RecordView) -> Option<ChatMessageView> {
    match v {
        RecordView::Message(item) => match spec_decode_message(item.msg) {
            Some(m) => Some(ChatMessageView { pk: item.pk, sk: item.sk, msg: m }),
            None => None,
        },
        _ => None,
    }
}

/// Storing a message and reading it back gives the same message,
/// envelope and sidecar included.
pub proof fn lemma_message_item_round_trip(v: ChatMessageView)
    ensures
        spec_message_of_record(RecordView::Message(spec_message_item(v))) == Some(v),
{
    lemma_message_codec_round_trip(v.msg);
    assert(spec_message_of_record(RecordView::Message(spec_message_item(v))) == Some(
        ChatMessageView { pk: v.pk, sk: v.sk, msg: v.msg },
    ));
    assert(ChatMessageView { pk: v.pk, sk: v.sk, msg: v.msg } =~= v);
}

/// Decode a raw message record.
pub fn message_from_item(item: MessageItem) -> (r: Result<ChatMessage, DataError>)
    ensures
        match r {
            Ok(m) => spec_message_of_record(RecordView::Message(item.deep_view())) == Some(
                m.deep_view(),
            ),
            Err(e) => e is MalformedRecord && spec_message_of_record(
                RecordView::Message(item.deep_view()),
            ) is None,
        },
{
    match decode_message(&item.msg) {
        Some(msg) => Ok(ChatMessage { pk: item.pk, sk: item.sk, msg }),
        None => Err(DataError::MalformedRecord),
    }
}

/// Read-time migration of message records: no versions yet, so the
/// record passes unchanged.
pub struct ChatMessageMigrator;

impl ChatMessageMigrator {
    /// Upgrade a raw message record; nothing to do at this version.
    pub fn migrate(item: MessageItem) -> (r: MessageItem)
        ensures
            r.deep_view() == item.deep_view(),
    {
        item
    }
}

/// Builder for `ChatMessage`; key fields are set through `user_id` and
/// `thread_message_ids`, which derive them.
pub struct ChatMessageBuilder {
    pub pk: Option<String>,
    pub sk: Option<String>,
    pub msg: Option<ChatterMessage>,
}

impl Default for ChatMessageBuilder {
    /// An empty builder.
    fn default() -> (r: ChatMessageBuilder)
        ensures
            r.pk is None,
            r.sk is None,
            r.msg is None,
    {
        ChatMessageBuilder { pk: None, sk: None, msg: None }
    }
}

impl ChatMessageBuilder {
    /// Set the partition key from the owning user's id.
    pub fn user_id(self, user_id: String) -> (r: ChatMessageBuilder)
        ensures
            r.pk.deep_view() == Some(spec_user_pk(user_id@)),
            r.sk == self.sk,
            r.msg == self.msg,
    {
        ChatMessageBuilder { pk: Some(user_pk(user_id.as_str())), ..self }
    }

    /// Set the sort key from the thread id and the message's position;
    /// the position is zero-padded so that the store's lexicographic
    /// order is the numeric order.
    pub fn thread_message_ids(self, thread_id: String, message_id: u32) -> (r: ChatMessageBuilder)
        requires
            message_id < SEQ_LIMIT,
        ensures
            r.sk.deep_view() == Some(spec_message_sk(thread_id@, message_id as int)),
            r.pk == self.pk,
            r.msg == self.msg,
    {
        ChatMessageBuilder { sk: Some(message_sk(thread_id.as_str(), message_id)), ..self }
    }

    /// Set the envelope.
    pub fn msg(self, msg: ChatterMessage) -> (r: ChatMessageBuilder)
        ensures
            r.msg == Some(msg),
            r.pk == self.pk,
            r.sk == self.sk,
    {
        ChatMessageBuilder { msg: Some(msg), ..self }
    }

    /// Build the message; every field must have been set.
    pub fn build(self) -> (r: Result<ChatMessage, DataError>)
        ensures
            match r {
                Ok(m) => {
                    &&& self.pk matches Some(pk) && m.pk == pk
                    &&& self.sk matches Some(sk) && m.sk == sk
                    &&& self.msg matches Some(msg) && m.msg == msg
                },
                Err(e) => {
                    &&& e is MalformedRecord
                    &&& (self.pk is None || self.sk is None || self.msg is None)
                },
            },
    {
        match (self.pk, self.sk, self.msg) {
            (Some(pk), Some(sk), Some(msg)) => Ok(ChatMessage { pk, sk, msg }),
            _ => Err(DataError::MalformedRecord),
        }
    }
}

/// The sort-key prefix shared by all of one thread's messages.
pub open spec fn spec_thread_messages_prefix(thread_id: Seq<char>) -> Seq<char> {
    "ChatMessage#"@ + thread_id + "#"@
}

/// Build the sort-key prefix of a thread's messages.
pub fn thread_messages_prefix(thread_id: &str) -> (r: String)
    ensures
        r@ == spec_thread_messages_prefix(thread_id@),
{
    let mut out = concat_str("ChatMessage#", thread_id);
    out.append("#");
    out
}

impl ChatMessage {
    /// Fetch all messages of a thread, in sequence order.
    pub fn get_all_thread_messages(store: &Store, user_id: &str, thread_id: &str) -> (r: Result<
        Vec<ChatMessage>,
        DataError,
    >)
        requires
            store.wf(),
        ensures
            ({
                let q = spec_query(
                    store.recs(),
                    spec_user_pk(user_id@),
                    spec_thread_messages_prefix(thread_id@),
                );
                match r {
                    Ok(messages) => {
                        &&& messages.deep_view().len() == q.len()
                        &&& forall|i: int|
                            0 <= i < q.len() ==> spec_message_of_record(q[i]) == Some(
                                #[trigger] messages.deep_view()[i],
                            )
                    },
                    Err(e) => e is MalformedRecord && exists|i: int|
                        0 <= i < q.len() && spec_message_of_record(#[trigger] q[i]) is None,
                }
            }),
    {
        let ghost q = spec_query(
            store.recs(),
            spec_user_pk(user_id@),
            spec_thread_messages_prefix(thread_id@),
        );
        let pk = user_pk(user_id);
        let prefix = thread_messages_prefix(thread_id);
        let items = store.query_all(pk.as_str(), prefix.as_str(), None);
        let mut messages: Vec<ChatMessage> = Vec::new();
        let mut i: usize = 0;
        while i < items.len()
            invariant
                q == spec_query(
                    store.recs(),
                    spec_user_pk(user_id@),
                    spec_thread_messages_prefix(thread_id@),
                ),
                q == items.deep_view(),
                i <= items.len(),
                messages.deep_view().len() == i,
                forall|j: int|
                    0 <= j < i ==> spec_message_of_record(q[j]) == Some(
                        #[trigger] messages.deep_view()[j],
                    ),
            decreases items.len() - i,
        {
            let m = match &items[i] {
                Record::Message(item) => {
                    let raw = ChatMessageMigrator::migrate(
                        MessageItem {
                            pk: item.pk.clone(),
                            sk: item.sk.clone(),
                            msg: item.msg.clone_fields(),
                        },
                    );
                    match message_from_item(raw) {
                        Ok(m) => m,
                        Err(e) => {
                            proof {
                                assert(q[i as int] == items.deep_view()[i as int]);
                                assert(spec_message_of_record(q[i as int]) is None);
                            }
                            return Err(e);
                        },
                    }
                },
                _ => {
                    proof {
                        assert(q[i as int] == items.deep_view()[i as int]);
                        assert(spec_message_of_record(q[i as int]) is None);
                    }
                    return Err(DataError::MalformedRecord);
                },
            };
            let ghost pre = messages.deep_view();
            messages.push(m);
            proof {
                assert(messages.deep_view() =~= pre.push(m.deep_view()));
            }
            i += 1;
        }
        Ok(messages)
    }
}

} // verus!
