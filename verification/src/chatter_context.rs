//! The conversation context: the message history, the model id, and
//! the tool declarations sent with every LLM request.

use vstd::prelude::*;
use crate::chatter_message::ChatterMessage;
use crate::chatter_message::ChatterMessageView;
use crate::chatter_message::Role;
use crate::chatter_message::SidecarView;
use crate::chatter_message::ToolCallView;
use crate::ext::mint_ulid;
use crate::functions::LlmTool;
use crate::functions::ToolSpec;
use crate::functions::spec_tool_name;
use crate::keys::no_hash;

verus! {

/// The message history and request parameters of one conversation.
pub struct ChatterContext {
    /// The thread id this context belongs to.
    pub id: String,
    /// The history, oldest first.  Stored histories hold no system
    /// envelope; one is prepended when the context is rebuilt.
    pub messages: Vec<ChatterMessage>,
    /// The model the requests name.
    pub model: String,
    /// The tool declarations the requests carry.
    pub tools: Vec<ToolSpec>,
}

impl ChatterContext {
    /// Rebuild a context from stored messages.
    pub fn new_with_stored(id: String, messages: Vec<ChatterMessage>) -> (r: ChatterContext)
        ensures
            r.id == id,
            r.messages == messages,
            r.model@ == "gpt-4.1"@,
            r.tools.len() == 2,
            r.tools@[0].name@ == spec_tool_name(LlmTool::DescribeTables),
            r.tools@[1].name@ == spec_tool_name(LlmTool::QueryDatabase),
    {
        let mut tools: Vec<ToolSpec> = Vec::new();
        tools.push(LlmTool::DescribeTables.tool());
        tools.push(LlmTool::QueryDatabase.tool());
        ChatterContext { id, messages, model: "gpt-4.1".to_owned(), tools }
    }

    /// A fresh context: a newly minted id and an empty history.
    pub fn new() -> (r: ChatterContext)
        ensures
            r.id@.len() == 26 && no_hash(r.id@),
            r.messages@.len() == 0,
            r.model@ == "gpt-4.1"@,
            r.tools.len() == 2,
    {
        Self::new_with_stored(mint_ulid(), Vec::new())
    }

    /// Append one envelope to the history.
    pub fn add_message(&mut self, message: ChatterMessage)
        ensures
            final (self).messages@ == old(self).messages@.push(message),
            final (self).id == old(self).id,
            final (self).model == old(self).model,
            final (self).tools == old(self).tools,
    {
        self.messages.push(message);
    }

    /// Append a user envelope holding the given text.
    pub fn add_user_message(&mut self, message: &str)
        ensures
            final (self).messages.deep_view() == old(self).messages.deep_view().push(
                ChatterMessageView {
                    message: Some(message@),
                    role: Role::User,
                    tool_calls: None::<Seq<ToolCallView>>,
                    tool_call_id: None::<Seq<char>>,
                    sidecar: SidecarView::Empty,
                },
            ),
            final (self).id == old(self).id,
            final (self).model == old(self).model,
            final (self).tools == old(self).tools,
    {
        let m = ChatterMessage::user(message);
        let ghost pre = self.messages.deep_view();
        self.messages.push(m);
        proof {
            assert(self.messages.deep_view() =~= pre.push(m.deep_view()));
        }
    }

    /// Prepend a system envelope, as rebuilding a context for a turn
    /// does: stored histories never hold one.
    pub fn insert_system_message(&mut self, message: ChatterMessage)
        requires
            old(self).messages@.len() < usize::MAX,
        ensures
            final (self).messages@ == seq![message] + old(self).messages@,
            final (self).id == old(self).id,
            final (self).model == old(self).model,
            final (self).tools == old(self).tools,
    {
        let ghost pre = self.messages@;
        self.messages.insert(0, message);
        proof {
            assert(self.messages@ =~= seq![message] + pre);
        }
    }
}

/// The dataset lines of the system prompt: one line per table, the
/// table's name in backticks, then its human-readable name.
pub open spec fn spec_dataset_lines(tables: Seq<(Seq<char>, Seq<char>)>) -> Seq<char>
    decreases tables.len(),
{
    if tables.len() == 0 {
        Seq::empty()
    } else {
        spec_dataset_lines(tables.drop_last()) + "- `"@ + tables.last().0 + "`: "@
            + tables.last().1 + "\n"@
    }
}

/// The system prompt: a fixed preamble, then the dataset catalogue as
/// `tableName -> humanName` lines.  The wording is stable for a given
/// deployment.
pub open spec fn spec_system_text(tables: Seq<(Seq<char>, Seq<char>)>) -> Seq<char> {
    "You are a geospatial data assistant. Answer questions by querying the PostGIS database through the provided tools. Every query shown on the map must return a column named _id and a geometry column. The available dataset tables are:\n"@
        + spec_dataset_lines(tables)
}

/// Build the system envelope from the current dataset catalogue, given
/// as `tableName -> humanName` pairs.
pub fn create_system_message(tables: &Vec<(String, String)>) -> (r: ChatterMessage)
    ensures
        r.deep_view() == (ChatterMessageView {
            message: Some(spec_system_text(tables.deep_view())),
            role: Role::System,
            tool_calls: None::<Seq<ToolCallView>>,
            tool_call_id: None::<Seq<char>>,
            sidecar: SidecarView::Empty,
        }),
{
    let ghost all = tables.deep_view();
    let mut text =
        "You are a geospatial data assistant. Answer questions by querying the PostGIS database through the provided tools. Every query shown on the map must return a column named _id and a geometry column. The available dataset tables are:\n".to_owned();
    let ghost preamble = text@;
    let mut i: usize = 0;
    proof {
        assert(all.take(0) =~= Seq::<(Seq<char>, Seq<char>)>::empty());
        assert(text@ =~= preamble + spec_dataset_lines(all.take(0)));
    }
    while i < tables.len()
        invariant
            all == tables.deep_view(),
            i <= tables.len(),
            text@ == preamble + spec_dataset_lines(all.take(i as int)),
        decreases tables.len() - i,
    {
        text.append("- `");
        text.append(tables[i].0.as_str());
        text.append("`: ");
        text.append(tables[i].1.as_str());
        text.append("\n");
        proof {
            let t1 = all.take(i as int + 1);
            assert(t1.drop_last() =~= all.take(i as int));
            assert(t1.last() == all[i as int]);
            assert(text@ =~= preamble + spec_dataset_lines(t1));
        }
        i += 1;
    }
    proof {
        assert(all.take(tables.len() as int) =~= all);
    }
    let m = ChatterMessage::system(text.as_str());
    proof {
        assert(m.deep_view() =~= ChatterMessageView {
            message: Some(spec_system_text(tables.deep_view())),
            role: Role::System,
            tool_calls: None::<Seq<ToolCallView>>,
            tool_call_id: None::<Seq<char>>,
            sidecar: SidecarView::Empty,
        });
    }
    m
}

} // verus!
