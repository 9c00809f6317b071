//! The agent loop: the streaming driver of one conversation turn.
//!
//! The loop alternates between LLM round-trips and tool dispatch until
//! the model replies without a tool call.  The outside work — the LLM
//! request, the argument parsing, the database sampling, the catalogue
//! lookup — happens beyond the library; its results arrive here as
//! plain events, and the driver makes every decision: which envelope
//! is appended and yielded, in what order, which faults are fatal, and
//! which become tool replies the model can react to.

use vstd::prelude::*;
use crate::chatter_context::ChatterContext;
use crate::chatter_message::ChatterMessage;
use crate::chatter_message::ChatterMessageSidecar;
use crate::chatter_message::ChatterMessageView;
use crate::chatter_message::Role;
use crate::chatter_message::ToolCall;
use crate::chatter_message::ToolCallView;
use crate::chatter_message::duplicate_opt_string;
use crate::chatter_message::duplicate_tool_calls;
use crate::codec::str_eq;
use crate::error::ChatterError;
use crate::functions::QueryDatabaseParams;
use crate::functions::RequestUnavailableDataParams;
use crate::functions::TableMetadata;
use crate::functions::describe_tables_reply;
use crate::functions::prepare_query_database;
use crate::functions::query_database_reply;
use crate::functions::request_unavailable_data_reply;
use crate::functions::tool_args_error_reply;
use crate::pg_helpers::QuerySample;
use crate::store::Store;

verus! {

/// What the LLM returned for one request: optional prose, and the tool
/// calls it wants dispatched.
pub struct AssistantReply {
    pub content: Option<String>,
    pub tool_calls: Option<Vec<ToolCall>>,
}

/// The abstract value of an `AssistantReply`.
#[verifier::ext_equal]
pub struct AssistantReplyView {
    pub content: Option<Seq<char>>,
    pub tool_calls: Option<Seq<ToolCallView>>,
}

impl DeepView for AssistantReply {
    type V = AssistantReplyView;

    open spec fn deep_view(&self) -> AssistantReplyView {
        AssistantReplyView {
            content: self.content.deep_view(),
            tool_calls: self.tool_calls.deep_view(),
        }
    }
}

impl AssistantReply {
    /// Copy the reply, keeping its abstract value.
    pub fn duplicate(&self) -> (r: AssistantReply)
        ensures
            r.deep_view() == self.deep_view(),
    {
        let tool_calls = match &self.tool_calls {
            Some(tcs) => Some(duplicate_tool_calls(tcs)),
            None => None,
        };
        let r = AssistantReply { content: duplicate_opt_string(&self.content), tool_calls };
        proof {
            assert(r.deep_view() =~= self.deep_view());
        }
        r
    }
}

impl ChatterMessage {
    /// The assistant envelope an LLM reply decodes to.
    pub fn from_assistant_reply(reply: AssistantReply) -> (r: ChatterMessage)
        ensures
            r.deep_view() == (ChatterMessageView {
                message: reply.content.deep_view(),
                role: Role::Assistant,
                tool_calls: reply.tool_calls.deep_view(),
                tool_call_id: None::<Seq<char>>,
                sidecar: crate::chatter_message::SidecarView::Empty,
            }),
    {
        let m = ChatterMessage {
            message: reply.content,
            role: Role::Assistant,
            tool_calls: reply.tool_calls,
            tool_call_id: None,
            sidecar: ChatterMessageSidecar::Empty,
        };
        proof {
            assert(m.deep_view() =~= ChatterMessageView {
                message: m.message.deep_view(),
                role: Role::Assistant,
                tool_calls: m.tool_calls.deep_view(),
                tool_call_id: None::<Seq<char>>,
                sidecar: crate::chatter_message::SidecarView::Empty,
            });
        }
        m
    }
}

/// The system envelope is never streamed to the caller: where the
/// first yielded envelope is the caller's just-appended user turn and
/// the driver yields no system envelope beyond the first — which
/// `run_turn` ensures — no yielded envelope has the system role at all.
pub proof fn lemma_no_system_streamed(yielded: Seq<ChatterMessageView>)
    requires
        yielded.len() > 0 ==> yielded[0].role == Role::User,
        forall|i: int| 1 <= i < yielded.len() ==> (#[trigger] yielded[i]).role != Role::System,
    ensures
        forall|i: int| 0 <= i < yielded.len() ==> (#[trigger] yielded[i]).role != Role::System,
{
}

/// What one envelope contributes to an LLM request: the fields the
/// provider's message shape takes for the envelope's role.
pub struct RequestParts {
    pub role: Role,
    pub content: Option<String>,
    /// Only an assistant message carries its tool calls.
    pub tool_calls: Option<Vec<ToolCall>>,
    /// Only a tool message names the call it answers.
    pub tool_call_id: Option<String>,
}

impl ChatterMessage {
    /// Select what this envelope sends to the LLM: the text always,
    /// tool calls only from an assistant turn, the answered call id
    /// only from a tool turn — and never the sidecar, which is invisible
    /// to the LLM.
    pub fn to_request_parts(&self) -> (r: RequestParts)
        ensures
            r.role == self.role,
            r.content.deep_view() == self.message.deep_view(),
            r.tool_calls.deep_view() == (if self.role is Assistant {
                self.tool_calls.deep_view()
            } else {
                None::<Seq<ToolCallView>>
            }),
            r.tool_call_id.deep_view() == (if self.role is Tool {
                self.tool_call_id.deep_view()
            } else {
                None::<Seq<char>>
            }),
    {
        let tool_calls = if let Role::Assistant = self.role {
            match &self.tool_calls {
                Some(tcs) => Some(duplicate_tool_calls(tcs)),
                None => None,
            }
        } else {
            None
        };
        let tool_call_id = if let Role::Tool = self.role {
            duplicate_opt_string(&self.tool_call_id)
        } else {
            None
        };
        RequestParts {
            role: self.role,
            content: duplicate_opt_string(&self.message),
            tool_calls,
            tool_call_id,
        }
    }
}

/// One LLM round-trip's result: a reply, or a transport fault.
pub enum LlmEvent {
    Reply(AssistantReply),
    Fault(String),
}

/// What the environment handed back for one dispatched tool call.
pub enum ToolOutcome {
    /// The call's arguments failed validation against the tool's
    /// schema; the message says how.
    ArgsInvalid(String),
    /// The catalogue rows fetched for a table-description call.
    Describe(Vec<(String, TableMetadata)>),
    /// The parsed arguments of a query call and its sampling outcome.
    Query { params: QueryDatabaseParams, outcome: Result<QuerySample, ChatterError> },
    /// The parsed arguments of a data-request call.
    Request(RequestUnavailableDataParams),
}

/// The tool names the driver dispatches to.
pub open spec fn spec_known_tool(name: Seq<char>) -> bool {
    ||| name == "describe_tables"@
    ||| name == "query_database"@
    ||| name == "request_unavailable_data"@
}

/// How dispatching one reply's calls ends: every call answered (with
/// how many outcomes that took), a call with an unregistered name, or
/// the supplied outcomes running out first.
pub enum DispatchControl {
    Proceed { used: int },
    UnknownName { name: Seq<char> },
    Starved,
}

/// The dispatch control of a call list against a budget of remaining
/// tool outcomes: calls are answered front to back, one outcome each,
/// and an unregistered name stops the dispatch before consuming one.
pub open spec fn spec_dispatch_control(calls: Seq<ToolCallView>, tools_left: int) -> DispatchControl
    decreases calls.len(),
{
    if calls.len() == 0 {
        DispatchControl::Proceed { used: 0 }
    } else if !spec_known_tool(calls[0].name) {
        DispatchControl::UnknownName { name: calls[0].name }
    } else if tools_left <= 0 {
        DispatchControl::Starved
    } else {
        match spec_dispatch_control(calls.skip(1), tools_left - 1) {
            DispatchControl::Proceed { used } => DispatchControl::Proceed { used: used + 1 },
            other => other,
        }
    }
}

/// How a turn ends, as a function of the supplied events alone: the
/// position of the first reply without tool calls that the turn
/// reaches, an LLM fault, an unknown tool name, or the events running
/// out first.
pub enum ControlOutcome {
    Finished { at: int },
    LlmFault { message: Seq<char> },
    UnknownTool { name: Seq<char> },
    Starved,
}

/// The control of a turn over the remaining events: event `at` is
/// consumed first; a fault is fatal, a reply without tool calls ends
/// the turn there, and a reply with tool calls dispatches them and
/// goes on with the outcomes that remain.
pub open spec fn spec_turn_control(llm: Seq<LlmEvent>, tools_left: int, at: int) -> ControlOutcome
    decreases llm.len(),
{
    if llm.len() == 0 {
        ControlOutcome::Starved
    } else {
        match llm[0] {
            LlmEvent::Fault(m) => ControlOutcome::LlmFault { message: m@ },
            LlmEvent::Reply(rep) => match rep.tool_calls {
                None => ControlOutcome::Finished { at },
                Some(tcs) => match spec_dispatch_control(tcs.deep_view(), tools_left) {
                    DispatchControl::Proceed { used } => spec_turn_control(
                        llm.skip(1),
                        tools_left - used,
                        at + 1,
                    ),
                    DispatchControl::UnknownName { name } => ControlOutcome::UnknownTool { name },
                    DispatchControl::Starved => ControlOutcome::Starved,
                },
            },
        }
    }
}

/// The roles of the envelopes one reply's dispatch appends: one tool
/// envelope per answered call, stopping at an unknown name or when the
/// outcomes run out.
pub open spec fn spec_dispatch_roles(calls: Seq<ToolCallView>, tools_left: int) -> Seq<Role>
    decreases calls.len(),
{
    if calls.len() == 0 {
        Seq::empty()
    } else if !spec_known_tool(calls[0].name) {
        Seq::empty()
    } else if tools_left <= 0 {
        Seq::empty()
    } else {
        seq![Role::Tool] + spec_dispatch_roles(calls.skip(1), tools_left - 1)
    }
}

/// The roles of the envelopes a whole turn appends, in order: for each
/// consumed reply an assistant envelope, then its dispatched tool
/// envelopes in call order.
pub open spec fn spec_turn_roles(llm: Seq<LlmEvent>, tools_left: int) -> Seq<Role>
    decreases llm.len(),
{
    if llm.len() == 0 {
        Seq::empty()
    } else {
        match llm[0] {
            LlmEvent::Fault(_) => Seq::empty(),
            LlmEvent::Reply(rep) => match rep.tool_calls {
                None => seq![Role::Assistant],
                Some(tcs) => seq![Role::Assistant] + spec_dispatch_roles(
                    tcs.deep_view(),
                    tools_left,
                ) + (match spec_dispatch_control(tcs.deep_view(), tools_left) {
                    DispatchControl::Proceed { used } => spec_turn_roles(
                        llm.skip(1),
                        tools_left - used,
                    ),
                    _ => Seq::empty(),
                }),
            },
        }
    }
}

/// The role sequence of a list of envelopes.
pub open spec fn spec_roles_of(s: Seq<ChatterMessageView>) -> Seq<Role> {
    s.map_values(|m: ChatterMessageView| m.role)
}

/// The discriminant of a sidecar, without its payload.
#[verifier::ext_equal]
pub enum SidecarTag {
    Empty,
    Execution,
    ExecutionError,
    Lookup,
}

/// The discriminant of a sidecar value.
pub open spec fn spec_sidecar_tag(s: crate::chatter_message::SidecarView) -> SidecarTag {
    match s {
        crate::chatter_message::SidecarView::Empty => SidecarTag::Empty,
        crate::chatter_message::SidecarView::SQLExecution(_) => SidecarTag::Execution,
        crate::chatter_message::SidecarView::SQLExecutionError => SidecarTag::ExecutionError,
        crate::chatter_message::SidecarView::DatabaseLookup => SidecarTag::Lookup,
    }
}

/// The sidecar discriminant a tool outcome's reply carries: invalid
/// arguments and failed or rejected samples classify as execution
/// errors, a catalogue lookup as a lookup, a valid sample as an
/// execution, and a stored data request as nothing.
pub open spec fn spec_outcome_sidecar(o: ToolOutcome) -> SidecarTag {
    match o {
        ToolOutcome::ArgsInvalid(_) => SidecarTag::ExecutionError,
        ToolOutcome::Describe(_) => SidecarTag::Lookup,
        ToolOutcome::Query { params, outcome } => match outcome {
            Err(_) => SidecarTag::ExecutionError,
            Ok(sample) => if sample.rows.len() > 0
                && crate::pg_helpers::spec_has_geometry_column(sample.columns.deep_view()) {
                SidecarTag::Execution
            } else {
                SidecarTag::ExecutionError
            },
        },
        ToolOutcome::Request(_) => SidecarTag::Empty,
    }
}

/// The sidecar discriminants one reply's dispatch appends: one per
/// answered call, determined by the outcome that answers it.
pub open spec fn spec_dispatch_sidecars(
    calls: Seq<ToolCallView>,
    tools: Seq<ToolOutcome>,
    ti: int,
) -> Seq<SidecarTag>
    decreases calls.len(),
{
    if calls.len() == 0 {
        Seq::empty()
    } else if !spec_known_tool(calls[0].name) {
        Seq::empty()
    } else if ti < 0 || ti >= tools.len() {
        Seq::empty()
    } else {
        seq![spec_outcome_sidecar(tools[ti])] + spec_dispatch_sidecars(
            calls.skip(1),
            tools,
            ti + 1,
        )
    }
}

/// The sidecar discriminants a whole turn appends, in order: for each
/// consumed reply the assistant envelope's empty sidecar, then its
/// dispatched tool replies' classifications.
pub open spec fn spec_turn_sidecars(
    llm: Seq<LlmEvent>,
    tools: Seq<ToolOutcome>,
    ti: int,
) -> Seq<SidecarTag>
    decreases llm.len(),
{
    if llm.len() == 0 {
        Seq::empty()
    } else {
        match llm[0] {
            LlmEvent::Fault(_) => Seq::empty(),
            LlmEvent::Reply(rep) => match rep.tool_calls {
                None => seq![SidecarTag::Empty],
                Some(tcs) => seq![SidecarTag::Empty] + spec_dispatch_sidecars(
                    tcs.deep_view(),
                    tools,
                    ti,
                ) + (match spec_dispatch_control(tcs.deep_view(), tools.len() as int - ti) {
                    DispatchControl::Proceed { used } => spec_turn_sidecars(
                        llm.skip(1),
                        tools,
                        ti + used,
                    ),
                    _ => Seq::<SidecarTag>::empty(),
                }),
            },
        }
    }
}

/// The sidecar discriminant sequence of a list of envelopes.
pub open spec fn spec_sidecars_of(s: Seq<ChatterMessageView>) -> Seq<SidecarTag> {
    s.map_values(|m: ChatterMessageView| spec_sidecar_tag(m.sidecar))
}

/// How a turn ended.
pub enum TurnOutcome {
    /// The model replied without tool calls.
    Done,
    /// A fatal fault: an LLM transport fault or an unknown tool name.
    Faulted(ChatterError),
    /// The supplied events ran out before the turn ended.
    OutOfEvents,
}

/// Drive one turn: yield the last envelope already in the context,
/// then alternate LLM replies and tool dispatch until the model stops
/// calling tools.
///
/// Envelopes are yielded in exactly the order they are appended to the
/// context, the just-appended last envelope first.  Only an LLM fault
/// and an unknown tool name are fatal; arguments that fail validation
/// become a tool reply and the loop goes on.  How the turn ends — and
/// that it ends with the first reply without tool calls — is fixed by
/// `spec_turn_control` over the supplied events.
#[verifier::spinoff_prover]
#[verifier::rlimit(100)]
pub fn run_turn(
    context: &mut ChatterContext,
    store: &mut Store,
    llm: Vec<LlmEvent>,
    tools: Vec<ToolOutcome>,
    now: i64,
) -> (r: (Vec<ChatterMessage>, TurnOutcome))
    requires
        old(store).wf(),
    ensures
        final (store).wf(),
        final (context).id@ == old(context).id@,
        ({
            let yielded = r.0.deep_view();
            let pre = old(context).messages.deep_view();
            let post = final (context).messages.deep_view();
            let base: int = if pre.len() > 0 {
                1
            } else {
                0
            };
            &&& (pre.len() > 0 ==> yielded.len() >= 1 && yielded[0] == pre.last())
            &&& post == pre + yielded.skip(base)
            &&& forall|i: int| base <= i < yielded.len() ==> (#[trigger] yielded[i]).role
                != Role::System
        }),
        // the outcome is the one the events dictate
        ({
            let control = spec_turn_control(llm@, tools@.len() as int, 0);
            match r.1 {
                TurnOutcome::Done => control is Finished,
                TurnOutcome::Faulted(e) => match e {
                    ChatterError::OpenAIError(m) => control == (ControlOutcome::LlmFault {
                        message: m@,
                    }),
                    ChatterError::UnknownToolCall(n) => control == (ControlOutcome::UnknownTool {
                        name: n@,
                    }),
                    _ => false,
                },
                TurnOutcome::OutOfEvents => control is Starved,
            }
        }),
        // the appended envelopes' roles follow the events: for each
        // consumed reply an assistant envelope, then one tool envelope
        // per dispatched call, in call order
        ({
            let yielded = r.0.deep_view();
            let pre = old(context).messages.deep_view();
            let base: int = if pre.len() > 0 {
                1
            } else {
                0
            };
            spec_roles_of(yielded.skip(base)) == spec_turn_roles(llm@, tools@.len() as int)
        }),
        // so do their sidecar classifications, each tool reply's fixed
        // by the outcome that answers its call
        ({
            let yielded = r.0.deep_view();
            let pre = old(context).messages.deep_view();
            let base: int = if pre.len() > 0 {
                1
            } else {
                0
            };
            spec_sidecars_of(yielded.skip(base)) == spec_turn_sidecars(llm@, tools@, 0)
        }),
        // a finished turn ends at the first reply without tool calls,
        // and that assistant envelope is the last one yielded
        r.1 is Done ==> ({
            let control = spec_turn_control(llm@, tools@.len() as int, 0);
            &&& control matches ControlOutcome::Finished { at }
            &&& 0 <= at < llm@.len()
            &&& (llm@[at] matches LlmEvent::Reply(rep) && rep.tool_calls is None
                && r.0.deep_view().len() > 0 && r.0.deep_view().last() == (ChatterMessageView {
                message: rep.content.deep_view(),
                role: Role::Assistant,
                tool_calls: rep.tool_calls.deep_view(),
                tool_call_id: None::<Seq<char>>,
                sidecar: crate::chatter_message::SidecarView::Empty,
            }))
        }),
        r.1 matches TurnOutcome::Faulted(e) ==> (e is OpenAIError || e is UnknownToolCall),
        r.1 matches TurnOutcome::Faulted(e) ==> e matches ChatterError::UnknownToolCall(n) ==> ({
            let post = final (context).messages.deep_view();
            exists|k: int|
                {
                    &&& 0 <= k < post.len()
                    &&& (#[trigger] post[k]).role == Role::Assistant
                    &&& post[k].tool_calls matches Some(tcs) && (exists|c: int|
                        0 <= c < tcs.len() && (#[trigger] tcs[c]).name == n@)
                    &&& forall|j: int| k < j < post.len() ==> (#[trigger] post[j]).role == Role::Tool
                }
        }),
{
    let ghost pre = old(context).messages.deep_view();
    let ghost pre_id = old(context).id@;
    let ghost t0: int = tools@.len() as int;
    let ghost full_control = spec_turn_control(llm@, t0, 0);
    let thread_id = context.id.clone();
    let mut yielded: Vec<ChatterMessage> = Vec::new();
    if context.messages.len() > 0 {
        let last = context.messages[context.messages.len() - 1].duplicate();
        yielded.push(last);
    }
    let ghost base: int = if pre.len() > 0 {
        1int
    } else {
        0int
    };
    proof {
        assert(context.messages.deep_view() =~= pre + yielded.deep_view().skip(base));
        assert(llm@.skip(0) =~= llm@);
        assert(yielded.deep_view().skip(base).len() == 0);
        assert(spec_roles_of(yielded.deep_view().skip(base)) =~= Seq::<Role>::empty());
        assert(Seq::<Role>::empty() + spec_turn_roles(llm@, t0) =~= spec_turn_roles(llm@, t0));
        assert(spec_sidecars_of(yielded.deep_view().skip(base)) =~= Seq::<SidecarTag>::empty());
        assert(Seq::<SidecarTag>::empty() + spec_turn_sidecars(llm@, tools@, 0)
            =~= spec_turn_sidecars(llm@, tools@, 0));
    }
    let mut ti: usize = 0;
    let mut li: usize = 0;
    loop
        invariant
            store.wf(),
            li <= llm@.len(),
            ti <= tools@.len(),
            pre == old(context).messages.deep_view(),
            pre_id == old(context).id@,
            t0 == tools@.len() as int,
            full_control == spec_turn_control(llm@, t0, 0),
            full_control == spec_turn_control(llm@.skip(li as int), t0 - ti, li as int),
            spec_roles_of(yielded.deep_view().skip(base)) + spec_turn_roles(
                llm@.skip(li as int),
                t0 - ti,
            ) == spec_turn_roles(llm@, t0),
            spec_sidecars_of(yielded.deep_view().skip(base)) + spec_turn_sidecars(
                llm@.skip(li as int),
                tools@,
                ti as int,
            ) == spec_turn_sidecars(llm@, tools@, 0),
            context.id@ == pre_id,
            context.messages.deep_view() == pre + yielded.deep_view().skip(base),
            base == if pre.len() > 0 {
                1int
            } else {
                0int
            },
            pre.len() > 0 ==> yielded.deep_view().len() >= 1 && yielded.deep_view()[0]
                == pre.last(),
            yielded.deep_view().len() >= base,
            forall|i: int|
                base <= i < yielded.deep_view().len() ==> (#[trigger] yielded.deep_view()[i]).role
                    != Role::System,
        decreases llm@.len() - li,
    {
        if li >= llm.len() {
            proof {
                assert(llm@.skip(li as int).len() == 0);
                assert(full_control is Starved);
                assert(spec_turn_roles(llm@.skip(li as int), t0 - ti) =~= Seq::<Role>::empty());
                assert(spec_roles_of(yielded.deep_view().skip(base)) + Seq::<Role>::empty()
                    =~= spec_roles_of(yielded.deep_view().skip(base)));
                assert(spec_turn_sidecars(llm@.skip(li as int), tools@, ti as int)
                    =~= Seq::<SidecarTag>::empty());
                assert(spec_sidecars_of(yielded.deep_view().skip(base))
                    + Seq::<SidecarTag>::empty() =~= spec_sidecars_of(
                    yielded.deep_view().skip(base),
                ));
            }
            return (yielded, TurnOutcome::OutOfEvents);
        }
        proof {
            assert(llm@.skip(li as int)[0] == llm@[li as int]);
            assert(llm@.skip(li as int).skip(1) =~= llm@.skip(li as int + 1));
        }
        let event = match &llm[li] {
            LlmEvent::Fault(msg) => {
                proof {
                    assert(full_control == (ControlOutcome::LlmFault { message: msg@ }));
                    assert(spec_turn_roles(llm@.skip(li as int), t0 - ti)
                        =~= Seq::<Role>::empty());
                    assert(spec_roles_of(yielded.deep_view().skip(base)) + Seq::<Role>::empty()
                        =~= spec_roles_of(yielded.deep_view().skip(base)));
                    assert(spec_turn_sidecars(llm@.skip(li as int), tools@, ti as int)
                        =~= Seq::<SidecarTag>::empty());
                    assert(spec_sidecars_of(yielded.deep_view().skip(base))
                        + Seq::<SidecarTag>::empty() =~= spec_sidecars_of(
                        yielded.deep_view().skip(base),
                    ));
                }
                return (
                    yielded,
                    TurnOutcome::Faulted(ChatterError::OpenAIError(msg.clone())),
                );
            },
            LlmEvent::Reply(rep) => rep.duplicate(),
        };
        let ghost reply_index: int = li as int;
        li += 1;
        let has_calls = event.tool_calls.is_some();
        let calls: Vec<ToolCall> = match &event.tool_calls {
            Some(tcs) => duplicate_tool_calls(tcs),
            None => Vec::new(),
        };
        let amsg = ChatterMessage::from_assistant_reply(event);
        let ghost a_idx: int = context.messages.deep_view().len() as int;
        let ghost av = amsg.deep_view();
        let ghost pre_ctx = context.messages.deep_view();
        context.add_message(amsg.duplicate());
        let ghost pre_yielded = yielded.deep_view();
        yielded.push(amsg);
        proof {
            assert(yielded.deep_view() =~= pre_yielded.push(av));
            assert(pre_yielded.push(av).skip(base) =~= pre_yielded.skip(base).push(av));
            assert(context.messages.deep_view() =~= pre_ctx.push(av));
            assert(context.messages.deep_view() =~= pre + yielded.deep_view().skip(base));
            assert(av.role == Role::Assistant);
            assert(spec_roles_of(yielded.deep_view().skip(base)) =~= spec_roles_of(
                pre_yielded.skip(base),
            ) + seq![Role::Assistant]);
            assert(spec_sidecar_tag(av.sidecar) == SidecarTag::Empty);
            assert(spec_sidecars_of(yielded.deep_view().skip(base)) =~= spec_sidecars_of(
                pre_yielded.skip(base),
            ) + seq![SidecarTag::Empty]);
        }
        if !has_calls {
            proof {
                assert(full_control == (ControlOutcome::Finished { at: reply_index }));
                assert(spec_turn_roles(llm@.skip(reply_index), t0 - ti) =~= seq![
                    Role::Assistant,
                ]);
                assert(spec_roles_of(pre_yielded.skip(base)) + seq![Role::Assistant]
                    =~= spec_roles_of(yielded.deep_view().skip(base)));
                assert(spec_roles_of(yielded.deep_view().skip(base)) =~= spec_turn_roles(
                    llm@,
                    t0,
                ));
                assert(spec_turn_sidecars(llm@.skip(reply_index), tools@, ti as int) =~= seq![
                    SidecarTag::Empty,
                ]);
                assert(spec_sidecars_of(pre_yielded.skip(base)) + seq![SidecarTag::Empty]
                    =~= spec_sidecars_of(yielded.deep_view().skip(base)));
                assert(spec_sidecars_of(yielded.deep_view().skip(base)) =~= spec_turn_sidecars(
                    llm@,
                    tools@,
                    0,
                ));
                assert(llm@[reply_index] matches LlmEvent::Reply(rep) && rep.tool_calls is None
                    && av == (ChatterMessageView {
                    message: rep.content.deep_view(),
                    role: Role::Assistant,
                    tool_calls: rep.tool_calls.deep_view(),
                    tool_call_id: None::<Seq<char>>,
                    sidecar: crate::chatter_message::SidecarView::Empty,
                }));
            }
            return (yielded, TurnOutcome::Done);
        }
        proof {
            // the consumed reply's calls drive the dispatch below
            assert(llm@[reply_index] matches LlmEvent::Reply(rep) && rep.tool_calls matches Some(
                tcs,
            ) && calls.deep_view() == tcs.deep_view());
            assert(spec_turn_roles(llm@.skip(reply_index), t0 - ti) == seq![Role::Assistant]
                + spec_dispatch_roles(calls.deep_view(), t0 - ti) + (
            match spec_dispatch_control(calls.deep_view(), t0 - ti) {
                DispatchControl::Proceed { used } => spec_turn_roles(
                    llm@.skip(li as int),
                    t0 - ti - used,
                ),
                _ => Seq::<Role>::empty(),
            }));
            assert(spec_roles_of(pre_yielded.skip(base)) + spec_turn_roles(
                llm@.skip(reply_index),
                t0 - ti,
            ) =~= spec_roles_of(yielded.deep_view().skip(base)) + spec_dispatch_roles(
                calls.deep_view(),
                t0 - ti,
            ) + (match spec_dispatch_control(calls.deep_view(), t0 - ti) {
                DispatchControl::Proceed { used } => spec_turn_roles(
                    llm@.skip(li as int),
                    t0 - ti - used,
                ),
                _ => Seq::<Role>::empty(),
            }));
            assert(spec_turn_sidecars(llm@.skip(reply_index), tools@, ti as int) == seq![
                SidecarTag::Empty,
            ] + spec_dispatch_sidecars(calls.deep_view(), tools@, ti as int) + (
            match spec_dispatch_control(calls.deep_view(), t0 - ti) {
                DispatchControl::Proceed { used } => spec_turn_sidecars(
                    llm@.skip(li as int),
                    tools@,
                    ti + used,
                ),
                _ => Seq::<SidecarTag>::empty(),
            }));
            assert(spec_sidecars_of(pre_yielded.skip(base)) + spec_turn_sidecars(
                llm@.skip(reply_index),
                tools@,
                ti as int,
            ) =~= spec_sidecars_of(yielded.deep_view().skip(base)) + spec_dispatch_sidecars(
                calls.deep_view(),
                tools@,
                ti as int,
            ) + (match spec_dispatch_control(calls.deep_view(), t0 - ti) {
                DispatchControl::Proceed { used } => spec_turn_sidecars(
                    llm@.skip(li as int),
                    tools@,
                    ti + used,
                ),
                _ => Seq::<SidecarTag>::empty(),
            }));
        }
        // dispatch each requested call, in the order received
        let mut ci: usize = 0;
        proof {
            assert(calls.deep_view().skip(0) =~= calls.deep_view());
        }
        while ci < calls.len()
            invariant
                store.wf(),
                ci <= calls.len(),
                ti <= tools@.len(),
                li <= llm@.len(),
                pre == old(context).messages.deep_view(),
                pre_id == old(context).id@,
                t0 == tools@.len() as int,
                full_control == spec_turn_control(llm@, t0, 0),
                full_control == (match spec_dispatch_control(
                    calls.deep_view().skip(ci as int),
                    t0 - ti,
                ) {
                    DispatchControl::Proceed { used } => spec_turn_control(
                        llm@.skip(li as int),
                        t0 - ti - used,
                        li as int,
                    ),
                    DispatchControl::UnknownName { name } => ControlOutcome::UnknownTool { name },
                    DispatchControl::Starved => ControlOutcome::Starved,
                }),
                spec_roles_of(yielded.deep_view().skip(base)) + spec_dispatch_roles(
                    calls.deep_view().skip(ci as int),
                    t0 - ti,
                ) + (match spec_dispatch_control(calls.deep_view().skip(ci as int), t0 - ti) {
                    DispatchControl::Proceed { used } => spec_turn_roles(
                        llm@.skip(li as int),
                        t0 - ti - used,
                    ),
                    _ => Seq::<Role>::empty(),
                }) == spec_turn_roles(llm@, t0),
                spec_sidecars_of(yielded.deep_view().skip(base)) + spec_dispatch_sidecars(
                    calls.deep_view().skip(ci as int),
                    tools@,
                    ti as int,
                ) + (match spec_dispatch_control(calls.deep_view().skip(ci as int), t0 - ti) {
                    DispatchControl::Proceed { used } => spec_turn_sidecars(
                        llm@.skip(li as int),
                        tools@,
                        ti + used,
                    ),
                    _ => Seq::<SidecarTag>::empty(),
                }) == spec_turn_sidecars(llm@, tools@, 0),
                context.id@ == pre_id,
                context.messages.deep_view() == pre + yielded.deep_view().skip(base),
                base == if pre.len() > 0 {
                    1int
                } else {
                    0int
                },
                pre.len() > 0 ==> yielded.deep_view().len() >= 1 && yielded.deep_view()[0]
                    == pre.last(),
                yielded.deep_view().len() >= base,
                forall|i: int|
                    base <= i < yielded.deep_view().len() ==> (
                    #[trigger] yielded.deep_view()[i]).role != Role::System,
                0 <= a_idx < context.messages.deep_view().len(),
                context.messages.deep_view()[a_idx].role == Role::Assistant,
                context.messages.deep_view()[a_idx].tool_calls == Some(calls.deep_view()),
                forall|j: int|
                    a_idx < j < context.messages.deep_view().len() ==> (
                    #[trigger] context.messages.deep_view()[j]).role == Role::Tool,
            decreases calls.len() - ci,
        {
            proof {
                assert(calls.deep_view().skip(ci as int)[0] == calls.deep_view()[ci as int]);
                assert(calls.deep_view().skip(ci as int).skip(1) =~= calls.deep_view().skip(
                    ci as int + 1,
                ));
            }
            let call_id = calls[ci].id.clone();
            let call_name = calls[ci].name.clone();
            let known = str_eq(call_name.as_str(), "describe_tables") || str_eq(
                call_name.as_str(),
                "query_database",
            ) || str_eq(call_name.as_str(), "request_unavailable_data");
            if !known {
                proof {
                    assert(full_control == (ControlOutcome::UnknownTool { name: call_name@ }));
                    assert(spec_dispatch_roles(calls.deep_view().skip(ci as int), t0 - ti)
                        =~= Seq::<Role>::empty());
                    assert(spec_roles_of(yielded.deep_view().skip(base)) + Seq::<Role>::empty()
                        + Seq::<Role>::empty() =~= spec_roles_of(
                        yielded.deep_view().skip(base),
                    ));
                    assert(spec_dispatch_sidecars(
                        calls.deep_view().skip(ci as int),
                        tools@,
                        ti as int,
                    ) =~= Seq::<SidecarTag>::empty());
                    assert(spec_sidecars_of(yielded.deep_view().skip(base))
                        + Seq::<SidecarTag>::empty() + Seq::<SidecarTag>::empty()
                        =~= spec_sidecars_of(yielded.deep_view().skip(base)));
                    let post = context.messages.deep_view();
                    assert(post[a_idx].tool_calls matches Some(tcs) && tcs[ci as int].name
                        == call_name@);
                }
                return (
                    yielded,
                    TurnOutcome::Faulted(ChatterError::UnknownToolCall(call_name)),
                );
            }
            if ti >= tools.len() {
                proof {
                    assert(full_control is Starved);
                    assert(spec_dispatch_roles(calls.deep_view().skip(ci as int), t0 - ti)
                        =~= Seq::<Role>::empty());
                    assert(spec_roles_of(yielded.deep_view().skip(base)) + Seq::<Role>::empty()
                        + Seq::<Role>::empty() =~= spec_roles_of(
                        yielded.deep_view().skip(base),
                    ));
                    assert(spec_dispatch_sidecars(
                        calls.deep_view().skip(ci as int),
                        tools@,
                        ti as int,
                    ) =~= Seq::<SidecarTag>::empty());
                    assert(spec_sidecars_of(yielded.deep_view().skip(base))
                        + Seq::<SidecarTag>::empty() + Seq::<SidecarTag>::empty()
                        =~= spec_sidecars_of(yielded.deep_view().skip(base)));
                }
                return (yielded, TurnOutcome::OutOfEvents);
            }
            let reply: ChatterMessage = match &tools[ti] {
                ToolOutcome::ArgsInvalid(msg) => tool_args_error_reply(call_id, msg.as_str()),
                ToolOutcome::Describe(tables) => describe_tables_reply(tables, call_id),
                ToolOutcome::Query { params, outcome } => {
                    let (query_id, stripped, _sample_sql) = prepare_query_database(params);
                    query_database_reply(
                        store,
                        thread_id.as_str(),
                        query_id,
                        params.name.clone(),
                        stripped,
                        outcome,
                        call_id,
                        now,
                    )
                },
                ToolOutcome::Request(params) => request_unavailable_data_reply(
                    store,
                    thread_id.as_str(),
                    RequestUnavailableDataParams {
                        name: params.name.clone(),
                        explanation: params.explanation.clone(),
                    },
                    now,
                    call_id,
                ).0,
            };
            ti += 1;
            let ghost rv = reply.deep_view();
            let ghost pre_ctx2 = context.messages.deep_view();
            context.add_message(reply.duplicate());
            let ghost pre_yielded2 = yielded.deep_view();
            yielded.push(reply);
            proof {
                assert(yielded.deep_view() =~= pre_yielded2.push(rv));
                assert(pre_yielded2.push(rv).skip(base) =~= pre_yielded2.skip(base).push(rv));
                assert(context.messages.deep_view() =~= pre_ctx2.push(rv));
                assert(context.messages.deep_view() =~= pre + yielded.deep_view().skip(base));
                assert(rv.role == Role::Tool);
                assert(spec_roles_of(yielded.deep_view().skip(base)) =~= spec_roles_of(
                    pre_yielded2.skip(base),
                ) + seq![Role::Tool]);
                assert(spec_dispatch_roles(calls.deep_view().skip(ci as int), t0 - (ti - 1))
                    == seq![Role::Tool] + spec_dispatch_roles(
                    calls.deep_view().skip(ci as int + 1),
                    t0 - ti,
                ));
                assert(spec_roles_of(pre_yielded2.skip(base)) + (seq![Role::Tool]
                    + spec_dispatch_roles(calls.deep_view().skip(ci as int + 1), t0 - ti)) + (
                match spec_dispatch_control(calls.deep_view().skip(ci as int + 1), t0 - ti) {
                    DispatchControl::Proceed { used } => spec_turn_roles(
                        llm@.skip(li as int),
                        t0 - ti - used,
                    ),
                    _ => Seq::<Role>::empty(),
                }) =~= spec_roles_of(yielded.deep_view().skip(base)) + spec_dispatch_roles(
                    calls.deep_view().skip(ci as int + 1),
                    t0 - ti,
                ) + (match spec_dispatch_control(calls.deep_view().skip(ci as int + 1), t0 - ti) {
                    DispatchControl::Proceed { used } => spec_turn_roles(
                        llm@.skip(li as int),
                        t0 - ti - used,
                    ),
                    _ => Seq::<Role>::empty(),
                }));
                assert(spec_sidecar_tag(rv.sidecar) == spec_outcome_sidecar(tools@[ti - 1]));
                assert(spec_sidecars_of(yielded.deep_view().skip(base)) =~= spec_sidecars_of(
                    pre_yielded2.skip(base),
                ) + seq![spec_outcome_sidecar(tools@[ti - 1])]);
                assert(spec_dispatch_sidecars(calls.deep_view().skip(ci as int), tools@, ti - 1)
                    == seq![spec_outcome_sidecar(tools@[ti - 1])] + spec_dispatch_sidecars(
                    calls.deep_view().skip(ci as int + 1),
                    tools@,
                    ti as int,
                ));
                assert(spec_sidecars_of(pre_yielded2.skip(base)) + (seq![
                    spec_outcome_sidecar(tools@[ti - 1]),
                ] + spec_dispatch_sidecars(calls.deep_view().skip(ci as int + 1), tools@, ti as int))
                    + (match spec_dispatch_control(calls.deep_view().skip(ci as int + 1), t0 - ti) {
                    DispatchControl::Proceed { used } => spec_turn_sidecars(
                        llm@.skip(li as int),
                        tools@,
                        ti + used,
                    ),
                    _ => Seq::<SidecarTag>::empty(),
                }) =~= spec_sidecars_of(yielded.deep_view().skip(base)) + spec_dispatch_sidecars(
                    calls.deep_view().skip(ci as int + 1),
                    tools@,
                    ti as int,
                ) + (match spec_dispatch_control(calls.deep_view().skip(ci as int + 1), t0 - ti) {
                    DispatchControl::Proceed { used } => spec_turn_sidecars(
                        llm@.skip(li as int),
                        tools@,
                        ti + used,
                    ),
                    _ => Seq::<SidecarTag>::empty(),
                }));
            }
            ci += 1;
        }
    }
}

} // verus!
