//! The stored form of a message envelope.
//!
//! An envelope is persisted as a list of named fields in a canonical
//! order: the text (or an explicit null), the role tag, then — each
//! only where present — the tool calls, the answered tool-call id, and
//! the sidecar.  An absent optional field is omitted outright and comes
//! back as its default, so presence and absence survive the trip; the
//! sidecar's empty classification is stored under the tag `None` when
//! it is stored at all.

use vstd::prelude::*;
use crate::chatter_message::ChatterMessage;
use crate::chatter_message::ChatterMessageSidecar;
use crate::chatter_message::ChatterMessageView;
use crate::chatter_message::Role;
use crate::chatter_message::SQLExecutionDetails;
use crate::chatter_message::SQLExecutionDetailsView;
use crate::chatter_message::SidecarView;
use crate::chatter_message::ToolCall;
use crate::chatter_message::ToolCallView;

verus! {

/// One stored field of an envelope.
#[derive(Clone, Debug)]
pub enum MsgField {
    /// `message` stored as an explicit null.
    MessageNull,
    /// `message` stored as text.
    MessageText(String),
    /// `role` stored as its lower-case tag.
    RoleTag(String),
    /// `tool_calls` stored as a list of call records.
    ToolCalls(Vec<ToolCall>),
    /// `tool_call_id` stored as text.
    ToolCallId(String),
    /// A unit sidecar variant, stored as its tag.
    SidecarTag(String),
    /// The successful-execution sidecar, stored with its details.
    SidecarSqlExecution(SQLExecutionDetails),
}

/// The abstract value of a stored field.
#[verifier::ext_equal]
pub enum MsgFieldView {
    MessageNull,
    MessageText(Seq<char>),
    RoleTag(Seq<char>),
    ToolCalls(Seq<ToolCallView>),
    ToolCallId(Seq<char>),
    SidecarTag(Seq<char>),
    SidecarSqlExecution(SQLExecutionDetailsView),
}

impl DeepView for MsgField {
    type V = MsgFieldView;

    open spec fn deep_view(&self) -> MsgFieldView {
        match self {
            MsgField::MessageNull => MsgFieldView::MessageNull,
            MsgField::MessageText(t) => MsgFieldView::MessageText(t@),
            MsgField::RoleTag(t) => MsgFieldView::RoleTag(t@),
            MsgField::ToolCalls(tcs) => MsgFieldView::ToolCalls(tcs.deep_view()),
            MsgField::ToolCallId(t) => MsgFieldView::ToolCallId(t@),
            MsgField::SidecarTag(t) => MsgFieldView::SidecarTag(t@),
            MsgField::SidecarSqlExecution(d) => MsgFieldView::SidecarSqlExecution(d.deep_view()),
        }
    }
}

/// The stored form of one envelope: its fields in canonical order.
#[derive(Clone, Debug)]
pub struct EncodedMessage {
    pub fields: Vec<MsgField>,
}

impl DeepView for EncodedMessage {
    type V = Seq<MsgFieldView>;

    open spec fn deep_view(&self) -> Seq<MsgFieldView> {
        self.fields.deep_view()
    }
}

impl MsgField {
    /// Copy the field, keeping its abstract value.
    pub fn duplicate(&self) -> (r: MsgField)
        ensures
            r.deep_view() == self.deep_view(),
    {
        match self {
            MsgField::MessageNull => MsgField::MessageNull,
            MsgField::MessageText(t) => MsgField::MessageText(t.clone()),
            MsgField::RoleTag(t) => MsgField::RoleTag(t.clone()),
            MsgField::ToolCalls(tcs) => MsgField::ToolCalls(
                crate::chatter_message::duplicate_tool_calls(tcs),
            ),
            MsgField::ToolCallId(t) => MsgField::ToolCallId(t.clone()),
            MsgField::SidecarTag(t) => MsgField::SidecarTag(t.clone()),
            MsgField::SidecarSqlExecution(d) => MsgField::SidecarSqlExecution(d.duplicate()),
        }
    }
}

impl EncodedMessage {
    /// Copy the encoded envelope, keeping its abstract value.
    pub fn clone_fields(&self) -> (r: EncodedMessage)
        ensures
            r.deep_view() == self.deep_view(),
    {
        let mut fields: Vec<MsgField> = Vec::new();
        let mut i: usize = 0;
        while i < self.fields.len()
            invariant
                i <= self.fields.len(),
                fields.deep_view() =~= self.fields.deep_view().take(i as int),
            decreases self.fields.len() - i,
        {
            let f = self.fields[i].duplicate();
            let ghost pre = fields.deep_view();
            fields.push(f);
            proof {
                assert(fields.deep_view() =~= pre.push(f.deep_view()));
                assert(self.fields.deep_view().take(i as int + 1) =~= self.fields.deep_view().take(
                    i as int,
                ).push(self.fields.deep_view()[i as int]));
            }
            i += 1;
        }
        proof {
            assert(self.fields.deep_view().take(self.fields.len() as int) =~= self.deep_view());
        }
        EncodedMessage { fields }
    }
}

/// The stored tag of a role.
pub open spec fn spec_role_tag(r: Role) -> Seq<char> {
    match r {
        Role::System => "system"@,
        Role::User => "user"@,
        Role::Assistant => "assistant"@,
        Role::Tool => "tool"@,
    }
}

/// The role a stored tag denotes, if any.
pub open spec fn spec_parse_role(t: Seq<char>) -> Option<Role> {
    if t == "system"@ {
        Some(Role::System)
    } else if t == "user"@ {
        Some(Role::User)
    } else if t == "assistant"@ {
        Some(Role::Assistant)
    } else if t == "tool"@ {
        Some(Role::Tool)
    } else {
        None
    }
}

/// Every role's tag parses back to that role.
pub proof fn lemma_role_tag_round_trip(r: Role)
    ensures
        spec_parse_role(spec_role_tag(r)) == Some(r),
{
    reveal_strlit("system");
    reveal_strlit("user");
    reveal_strlit("assistant");
    reveal_strlit("tool");
    match r {
        Role::System => {
        },
        Role::User => {
            assert("user"@.len() != "system"@.len());
        },
        Role::Assistant => {
            assert("assistant"@.len() != "system"@.len());
            assert("assistant"@.len() != "user"@.len());
        },
        Role::Tool => {
            assert("tool"@.len() != "system"@.len());
            assert("tool"@[0] != "user"@[0]);
            assert("tool"@.len() != "assistant"@.len());
        },
    }
}

/// Render a role to its stored tag.
pub fn role_string(r: Role) -> (s: String)
    ensures
        s@ == spec_role_tag(r),
{
    match r {
        Role::System => "system".to_owned(),
        Role::User => "user".to_owned(),
        Role::Assistant => "assistant".to_owned(),
        Role::Tool => "tool".to_owned(),
    }
}

/// Whether two string slices hold the same characters.
pub fn str_eq(a: &str, b: &str) -> (r: bool)
    ensures
        r == (a@ == b@),
{
    let ao = a.to_owned();
    let bo = b.to_owned();
    ao == bo
}

/// Parse a stored role tag.
pub fn parse_role(t: &str) -> (r: Option<Role>)
    ensures
        r == spec_parse_role(t@),
{
    if str_eq(t, "system") {
        Some(Role::System)
    } else if str_eq(t, "user") {
        Some(Role::User)
    } else if str_eq(t, "assistant") {
        Some(Role::Assistant)
    } else if str_eq(t, "tool") {
        Some(Role::Tool)
    } else {
        None
    }
}

/// The canonical field list of an envelope.
pub open spec fn spec_encode_message(m: ChatterMessageView) -> Seq<MsgFieldView> {
    let head = seq![
        match m.message {
            Some(t) => MsgFieldView::MessageText(t),
            None => MsgFieldView::MessageNull,
        },
        MsgFieldView::RoleTag(spec_role_tag(m.role)),
    ];
    let tc = match m.tool_calls {
        Some(tcs) => seq![MsgFieldView::ToolCalls(tcs)],
        None => Seq::<MsgFieldView>::empty(),
    };
    let id = match m.tool_call_id {
        Some(t) => seq![MsgFieldView::ToolCallId(t)],
        None => Seq::<MsgFieldView>::empty(),
    };
    let sc = match m.sidecar {
        SidecarView::Empty => Seq::<MsgFieldView>::empty(),
        SidecarView::SQLExecution(d) => seq![MsgFieldView::SidecarSqlExecution(d)],
        SidecarView::SQLExecutionError => seq![MsgFieldView::SidecarTag("SQLExecutionError"@)],
        SidecarView::DatabaseLookup => seq![MsgFieldView::SidecarTag("DatabaseLookup"@)],
    };
    head + tc + id + sc
}

/// Decode the trailing sidecar field, if any.
pub open spec fn spec_decode_sidecar(fs: Seq<MsgFieldView>) -> Option<SidecarView> {
    if fs.len() == 0 {
        Some(SidecarView::Empty)
    } else if fs.len() == 1 {
        match fs[0] {
            MsgFieldView::SidecarTag(t) => if t == "None"@ {
                Some(SidecarView::Empty)
            } else if t == "SQLExecutionError"@ {
                Some(SidecarView::SQLExecutionError)
            } else if t == "DatabaseLookup"@ {
                Some(SidecarView::DatabaseLookup)
            } else {
                None
            },
            MsgFieldView::SidecarSqlExecution(d) => Some(SidecarView::SQLExecution(d)),
            _ => None,
        }
    } else {
        None
    }
}

/// Decode the optional tool-call id and what follows it.
pub open spec fn spec_decode_after_calls(fs: Seq<MsgFieldView>) -> Option<
    (Option<Seq<char>>, SidecarView),
> {
    if fs.len() >= 1 && fs[0] is ToolCallId {
        match spec_decode_sidecar(fs.skip(1)) {
            Some(sc) => Some((Some(fs[0]->ToolCallId_0), sc)),
            None => None,
        }
    } else {
        match spec_decode_sidecar(fs) {
            Some(sc) => Some((None, sc)),
            None => None,
        }
    }
}

/// Decode the optional tool calls and what follows them.
pub open spec fn spec_decode_tail(fs: Seq<MsgFieldView>) -> Option<
    (Option<Seq<ToolCallView>>, Option<Seq<char>>, SidecarView),
> {
    if fs.len() >= 1 && fs[0] is ToolCalls {
        match spec_decode_after_calls(fs.skip(1)) {
            Some((id, sc)) => Some((Some(fs[0]->ToolCalls_0), id, sc)),
            None => None,
        }
    } else {
        match spec_decode_after_calls(fs) {
            Some((id, sc)) => Some((None, id, sc)),
            None => None,
        }
    }
}

/// Decode a stored field list back to an envelope, if it is well formed.
pub open spec fn spec_decode_message(fs: Seq<MsgFieldView>) -> Option<ChatterMessageView> {
    if fs.len() < 2 {
        None
    } else {
        let message = match fs[0] {
            MsgFieldView::MessageNull => Some(None::<Seq<char>>),
            MsgFieldView::MessageText(t) => Some(Some(t)),
            _ => None,
        };
        let role = match fs[1] {
            MsgFieldView::RoleTag(t) => spec_parse_role(t),
            _ => None,
        };
        match (message, role, spec_decode_tail(fs.skip(2))) {
            (Some(message), Some(role), Some((tool_calls, tool_call_id, sidecar))) => Some(
                ChatterMessageView { message, role, tool_calls, tool_call_id, sidecar },
            ),
            _ => None,
        }
    }
}

/// Decoding the canonical field list of an envelope gives back the
/// envelope, sidecar discriminants included.
pub proof fn lemma_message_codec_round_trip(m: ChatterMessageView)
    ensures
        spec_decode_message(spec_encode_message(m)) == Some(m),
{
    reveal_strlit("None");
    reveal_strlit("SQLExecutionError");
    reveal_strlit("DatabaseLookup");
    lemma_role_tag_round_trip(m.role);
    let fs = spec_encode_message(m);
    let head = seq![
        match m.message {
            Some(t) => MsgFieldView::MessageText(t),
            None => MsgFieldView::MessageNull,
        },
        MsgFieldView::RoleTag(spec_role_tag(m.role)),
    ];
    let tc = match m.tool_calls {
        Some(tcs) => seq![MsgFieldView::ToolCalls(tcs)],
        None => Seq::<MsgFieldView>::empty(),
    };
    let id = match m.tool_call_id {
        Some(t) => seq![MsgFieldView::ToolCallId(t)],
        None => Seq::<MsgFieldView>::empty(),
    };
    let sc = match m.sidecar {
        SidecarView::Empty => Seq::<MsgFieldView>::empty(),
        SidecarView::SQLExecution(d) => seq![MsgFieldView::SidecarSqlExecution(d)],
        SidecarView::SQLExecutionError => seq![MsgFieldView::SidecarTag("SQLExecutionError"@)],
        SidecarView::DatabaseLookup => seq![MsgFieldView::SidecarTag("DatabaseLookup"@)],
    };
    assert(fs.skip(2) =~= tc + id + sc);
    if m.sidecar is SQLExecutionError {
        assert("SQLExecutionError"@ != "None"@) by {
            assert("SQLExecutionError"@.len() != "None"@.len());
        }
    }
    if m.sidecar is DatabaseLookup {
        assert("DatabaseLookup"@ != "None"@) by {
            assert("DatabaseLookup"@.len() != "None"@.len());
        }
        assert("DatabaseLookup"@ != "SQLExecutionError"@) by {
            assert("DatabaseLookup"@.len() != "SQLExecutionError"@.len());
        }
    }
    match m.tool_calls {
        Some(tcs) => {
            let rest = id + sc;
            assert((tc + id + sc).skip(1) =~= rest);
            lemma_decode_after_calls(m.tool_call_id, m.sidecar, rest, id, sc);
        },
        None => {
            assert(tc + id + sc =~= id + sc);
            lemma_decode_after_calls(m.tool_call_id, m.sidecar, id + sc, id, sc);
            match m.tool_call_id {
                Some(_) => {
                },
                None => {
                    assert(!((id + sc).len() >= 1 && (id + sc)[0] is ToolCalls));
                },
            }
        },
    }
    assert(spec_decode_message(fs) == Some(m));
}

/// Encode an envelope to its canonical stored field list.
pub fn encode_message(m: &ChatterMessage) -> (r: EncodedMessage)
    ensures
        r.deep_view() == spec_encode_message(m.deep_view()),
{
    let mut fields: Vec<MsgField> = Vec::new();
    match &m.message {
        Some(t) => fields.push(MsgField::MessageText(t.clone())),
        None => fields.push(MsgField::MessageNull),
    }
    fields.push(MsgField::RoleTag(role_string(m.role)));
    match &m.tool_calls {
        Some(tcs) => fields.push(
            MsgField::ToolCalls(crate::chatter_message::duplicate_tool_calls(tcs)),
        ),
        None => {},
    }
    match &m.tool_call_id {
        Some(t) => fields.push(MsgField::ToolCallId(t.clone())),
        None => {},
    }
    match &m.sidecar {
        ChatterMessageSidecar::Empty => {},
        ChatterMessageSidecar::SQLExecution(d) => fields.push(
            MsgField::SidecarSqlExecution(d.duplicate()),
        ),
        ChatterMessageSidecar::SQLExecutionError => fields.push(
            MsgField::SidecarTag("SQLExecutionError".to_owned()),
        ),
        ChatterMessageSidecar::DatabaseLookup => fields.push(
            MsgField::SidecarTag("DatabaseLookup".to_owned()),
        ),
    }
    proof {
        assert(fields.deep_view() =~= spec_encode_message(m.deep_view()));
    }
    EncodedMessage { fields }
}

/// Decode a stored field list back to an envelope; `None` where the
/// list is not in the canonical form the encoder writes.
pub fn decode_message(e: &EncodedMessage) -> (r: Option<ChatterMessage>)
    ensures
        match r {
            Some(m) => spec_decode_message(e.deep_view()) == Some(m.deep_view()),
            None => spec_decode_message(e.deep_view()) is None,
        },
{
    let ghost fs = e.deep_view();
    let n = e.fields.len();
    if n < 2 {
        return None;
    }
    let message: Option<String> = match &e.fields[0] {
        MsgField::MessageNull => None,
        MsgField::MessageText(t) => Some(t.clone()),
        _ => {
            return None;
        },
    };
    let role: Role = match &e.fields[1] {
        MsgField::RoleTag(t) => match parse_role(t.as_str()) {
            Some(r) => r,
            None => {
                return None;
            },
        },
        _ => {
            return None;
        },
    };
    let (tool_calls, after_tc): (Option<Vec<ToolCall>>, usize) = if 2 < n {
        match &e.fields[2] {
            MsgField::ToolCalls(tcs) => (
                Some(crate::chatter_message::duplicate_tool_calls(tcs)),
                3,
            ),
            _ => (None, 2),
        }
    } else {
        (None, 2)
    };
    let (tool_call_id, after_id): (Option<String>, usize) = if after_tc < n {
        match &e.fields[after_tc] {
            MsgField::ToolCallId(t) => (Some(t.clone()), after_tc + 1),
            _ => (None, after_tc),
        }
    } else {
        (None, after_tc)
    };
    proof {
        if after_tc == 3 {
            assert(fs.skip(2).skip(1) =~= fs.skip(3));
        }
        if after_id == after_tc + 1 {
            assert(fs.skip(after_tc as int).skip(1) =~= fs.skip(after_id as int));
        }
        assert(fs.skip(after_id as int).len() == n - after_id);
    }
    let sidecar: ChatterMessageSidecar = if after_id < n {
        if after_id + 1 < n {
            // more than one trailing field: not canonical
            return None;
        }
        match &e.fields[after_id] {
            MsgField::SidecarTag(t) => {
                if str_eq(t.as_str(), "None") {
                    ChatterMessageSidecar::Empty
                } else if str_eq(t.as_str(), "SQLExecutionError") {
                    ChatterMessageSidecar::SQLExecutionError
                } else if str_eq(t.as_str(), "DatabaseLookup") {
                    ChatterMessageSidecar::DatabaseLookup
                } else {
                    return None;
                }
            },
            MsgField::SidecarSqlExecution(d) => ChatterMessageSidecar::SQLExecution(d.duplicate()),
            _ => {
                return None;
            },
        }
    } else {
        ChatterMessageSidecar::Empty
    };
    let m = ChatterMessage { message, role, tool_calls, tool_call_id, sidecar };
    proof {
        assert(spec_decode_message(fs) == Some(m.deep_view()));
    }
    Some(m)
}

/// The tail after the tool calls decodes to the id and sidecar it was
/// built from.
proof fn lemma_decode_after_calls(
    tool_call_id: Option<Seq<char>>,
    sidecar: SidecarView,
    rest: Seq<MsgFieldView>,
    id: Seq<MsgFieldView>,
    sc: Seq<MsgFieldView>,
)
    requires
        id == match tool_call_id {
            Some(t) => seq![MsgFieldView::ToolCallId(t)],
            None => Seq::<MsgFieldView>::empty(),
        },
        sc == match sidecar {
            SidecarView::Empty => Seq::<MsgFieldView>::empty(),
            SidecarView::SQLExecution(d) => seq![MsgFieldView::SidecarSqlExecution(d)],
            SidecarView::SQLExecutionError => seq![
                MsgFieldView::SidecarTag("SQLExecutionError"@),
            ],
            SidecarView::DatabaseLookup => seq![MsgFieldView::SidecarTag("DatabaseLookup"@)],
        },
        rest == id + sc,
    ensures
        spec_decode_after_calls(rest) == Some((tool_call_id, sidecar)),
{
    reveal_strlit("None");
    reveal_strlit("SQLExecutionError");
    reveal_strlit("DatabaseLookup");
    if sidecar is SQLExecutionError {
        assert("SQLExecutionError"@ != "None"@) by {
            assert("SQLExecutionError"@.len() != "None"@.len());
        }
    }
    if sidecar is DatabaseLookup {
        assert("DatabaseLookup"@ != "None"@) by {
            assert("DatabaseLookup"@.len() != "None"@.len());
        }
        assert("DatabaseLookup"@ != "SQLExecutionError"@) by {
            assert("DatabaseLookup"@.len() != "SQLExecutionError"@.len());
        }
    }
    match tool_call_id {
        Some(t) => {
            assert(rest.skip(1) =~= sc);
        },
        None => {
            assert(rest =~= sc);
        },
    }
}

} // verus!
