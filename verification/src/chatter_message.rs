//! The message envelope: one turn of a conversation.
//!
//! An envelope carries a role, optional text, the tool calls an
//! assistant requested, the id of the tool call a tool reply answers,
//! and a side-band classification (the sidecar) consumed by the UI and
//! invisible to the LLM.

use vstd::prelude::*;

verus! {

/// The role of a message envelope.
#[derive(Clone, Copy, Debug, PartialEq, Eq, Structural)]
pub enum Role {
    System,
    User,
    Assistant,
    Tool,
}

/// One tool call requested by the assistant: a call id, the tool's
/// name, and the arguments as the JSON text the LLM authored.
#[derive(Clone, Debug)]
pub struct ToolCall {
    pub id: String,
    pub name: String,
    pub arguments: String,
}

/// The abstract value of a `ToolCall`.
#[verifier::ext_equal]
pub struct ToolCallView {
    pub id: Seq<char>,
    pub name: Seq<char>,
    pub arguments: Seq<char>,
}

impl DeepView for ToolCall {
    type V = ToolCallView;

    open spec fn deep_view(&self) -> ToolCallView {
        ToolCallView { id: self.id@, name: self.name@, arguments: self.arguments@ }
    }
}

/// What a successful SQL execution records: the saved query's id, its
/// user-facing name, and the SQL text.
#[derive(Clone, Debug)]
pub struct SQLExecutionDetails {
    pub id: String,
    pub name: String,
    pub sql: String,
}

/// The abstract value of `SQLExecutionDetails`.
#[verifier::ext_equal]
pub struct SQLExecutionDetailsView {
    pub id: Seq<char>,
    pub name: Seq<char>,
    pub sql: Seq<char>,
}

impl DeepView for SQLExecutionDetails {
    type V = SQLExecutionDetailsView;

    open spec fn deep_view(&self) -> SQLExecutionDetailsView {
        SQLExecutionDetailsView { id: self.id@, name: self.name@, sql: self.sql@ }
    }
}

/// The side-band classification of an envelope: a closed sum, never
/// extended ad hoc.
#[derive(Clone, Debug)]
pub enum ChatterMessageSidecar {
    /// The empty classification; stored under the tag `None`.
    Empty,
    /// A successful SQL execution.
    SQLExecution(SQLExecutionDetails),
    /// A failed SQL execution.
    SQLExecutionError,
    /// A database metadata lookup.
    DatabaseLookup,
}

/// The abstract value of a sidecar.
#[verifier::ext_equal]
pub enum SidecarView {
    Empty,
    SQLExecution(SQLExecutionDetailsView),
    SQLExecutionError,
    DatabaseLookup,
}

impl DeepView for ChatterMessageSidecar {
    type V = SidecarView;

    open spec fn deep_view(&self) -> SidecarView {
        match self {
            ChatterMessageSidecar::Empty => SidecarView::Empty,
            ChatterMessageSidecar::SQLExecution(d) => SidecarView::SQLExecution(d.deep_view()),
            ChatterMessageSidecar::SQLExecutionError => SidecarView::SQLExecutionError,
            ChatterMessageSidecar::DatabaseLookup => SidecarView::DatabaseLookup,
        }
    }
}

impl ChatterMessageSidecar {
    /// Whether this is the empty classification.
    pub fn is_none(&self) -> (r: bool)
        ensures
            r == (self.deep_view() is Empty),
    {
        match self {
            ChatterMessageSidecar::Empty => true,
            _ => false,
        }
    }
}

/// One message envelope.
#[derive(Clone, Debug)]
pub struct ChatterMessage {
    /// The message text, where there is one.
    pub message: Option<String>,
    pub role: Role,
    /// Tool calls requested by the assistant; only an assistant
    /// envelope carries them.
    pub tool_calls: Option<Vec<ToolCall>>,
    /// The id of the tool call this envelope answers; only a tool
    /// envelope carries it.
    pub tool_call_id: Option<String>,
    /// Side-band classification for the UI; never sent to the LLM.
    pub sidecar: ChatterMessageSidecar,
}

/// The abstract value of a message envelope.
#[verifier::ext_equal]
pub struct ChatterMessageView {
    pub message: Option<Seq<char>>,
    pub role: Role,
    pub tool_calls: Option<Seq<ToolCallView>>,
    pub tool_call_id: Option<Seq<char>>,
    pub sidecar: SidecarView,
}

impl DeepView for ChatterMessage {
    type V = ChatterMessageView;

    open spec fn deep_view(&self) -> ChatterMessageView {
        ChatterMessageView {
            message: self.message.deep_view(),
            role: self.role,
            tool_calls: self.tool_calls.deep_view(),
            tool_call_id: self.tool_call_id.deep_view(),
            sidecar: self.sidecar.deep_view(),
        }
    }
}

impl ToolCall {
    /// Copy the call, keeping its abstract value.
    pub fn duplicate(&self) -> (r: ToolCall)
        ensures
            r.deep_view() == self.deep_view(),
    {
        ToolCall { id: self.id.clone(), name: self.name.clone(), arguments: self.arguments.clone() }
    }
}

/// Copy a list of tool calls, keeping its abstract value.
pub fn duplicate_tool_calls(tcs: &Vec<ToolCall>) -> (r: Vec<ToolCall>)
    ensures
        r.deep_view() == tcs.deep_view(),
{
    let mut out: Vec<ToolCall> = Vec::new();
    let mut i: usize = 0;
    while i < tcs.len()
        invariant
            i <= tcs.len(),
            out.deep_view() =~= tcs.deep_view().take(i as int),
        decreases tcs.len() - i,
    {
        let tc = tcs[i].duplicate();
        let ghost pre = out.deep_view();
        out.push(tc);
        proof {
            assert(out.deep_view() =~= pre.push(tc.deep_view()));
            assert(tcs.deep_view().take(i as int + 1) =~= tcs.deep_view().take(i as int).push(
                tcs.deep_view()[i as int],
            ));
        }
        i += 1;
    }
    proof {
        assert(tcs.deep_view().take(tcs.len() as int) =~= tcs.deep_view());
    }
    out
}

impl SQLExecutionDetails {
    /// Copy the details, keeping their abstract value.
    pub fn duplicate(&self) -> (r: SQLExecutionDetails)
        ensures
            r.deep_view() == self.deep_view(),
    {
        SQLExecutionDetails { id: self.id.clone(), name: self.name.clone(), sql: self.sql.clone() }
    }
}

impl ChatterMessageSidecar {
    /// Copy the sidecar, keeping its abstract value.
    pub fn duplicate(&self) -> (r: ChatterMessageSidecar)
        ensures
            r.deep_view() == self.deep_view(),
    {
        match self {
            ChatterMessageSidecar::Empty => ChatterMessageSidecar::Empty,
            ChatterMessageSidecar::SQLExecution(d) => ChatterMessageSidecar::SQLExecution(
                d.duplicate(),
            ),
            ChatterMessageSidecar::SQLExecutionError => ChatterMessageSidecar::SQLExecutionError,
            ChatterMessageSidecar::DatabaseLookup => ChatterMessageSidecar::DatabaseLookup,
        }
    }
}

/// Copy an optional string, keeping its abstract value.
pub fn duplicate_opt_string(s: &Option<String>) -> (r: Option<String>)
    ensures
        r.deep_view() == s.deep_view(),
{
    match s {
        Some(t) => Some(t.clone()),
        None => None,
    }
}

impl ChatterMessage {
    /// Copy the envelope, keeping its abstract value.
    pub fn duplicate(&self) -> (r: ChatterMessage)
        ensures
            r.deep_view() == self.deep_view(),
    {
        let tool_calls = match &self.tool_calls {
            Some(tcs) => Some(duplicate_tool_calls(tcs)),
            None => None,
        };
        let m = ChatterMessage {
            message: duplicate_opt_string(&self.message),
            role: self.role,
            tool_calls,
            tool_call_id: duplicate_opt_string(&self.tool_call_id),
            sidecar: self.sidecar.duplicate(),
        };
        proof {
            assert(m.deep_view() =~= self.deep_view());
        }
        m
    }
}

impl ChatterMessage {
    /// A user envelope holding only text.
    pub fn user(text: &str) -> (r: ChatterMessage)
        ensures
            r.deep_view() == (ChatterMessageView {
                message: Some(text@),
                role: Role::User,
                tool_calls: None::<Seq<ToolCallView>>,
                tool_call_id: None::<Seq<char>>,
                sidecar: SidecarView::Empty,
            }),
    {
        let m = ChatterMessage {
            message: Some(text.to_owned()),
            role: Role::User,
            tool_calls: None,
            tool_call_id: None,
            sidecar: ChatterMessageSidecar::Empty,
        };
        proof {
            assert(m.deep_view() =~= ChatterMessageView {
                message: Some(text@),
                role: Role::User,
                tool_calls: None::<Seq<ToolCallView>>,
                tool_call_id: None::<Seq<char>>,
                sidecar: SidecarView::Empty,
            });
        }
        m
    }

    /// A system envelope holding only text.
    pub fn system(text: &str) -> (r: ChatterMessage)
        ensures
            r.deep_view() == (ChatterMessageView {
                message: Some(text@),
                role: Role::System,
                tool_calls: None::<Seq<ToolCallView>>,
                tool_call_id: None::<Seq<char>>,
                sidecar: SidecarView::Empty,
            }),
    {
        let m = ChatterMessage {
            message: Some(text.to_owned()),
            role: Role::System,
            tool_calls: None,
            tool_call_id: None,
            sidecar: ChatterMessageSidecar::Empty,
        };
        proof {
            assert(m.deep_view() =~= ChatterMessageView {
                message: Some(text@),
                role: Role::System,
                tool_calls: None::<Seq<ToolCallView>>,
                tool_call_id: None::<Seq<char>>,
                sidecar: SidecarView::Empty,
            });
        }
        m
    }
}

} // verus!
