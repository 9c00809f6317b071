//! The LLM-callable functions: their parameter shapes, their metadata
//! for the provider, the name-indexed registry, and the pure reply
//! builders each tool's execution comes down to.

use vstd::prelude::*;
use crate::chatter_message::ChatterMessage;
use crate::chatter_message::ChatterMessageSidecar;
use crate::chatter_message::ChatterMessageView;
use crate::chatter_message::Role;
use crate::chatter_message::SQLExecutionDetails;
use crate::chatter_message::SidecarView;
use crate::chatter_message::ToolCallView;
use crate::codec::str_eq;
use crate::data_request::DataRequestBuilder;
use crate::error::ChatterError;
use crate::ext::mint_ulid;
use crate::json::json_string;
use crate::json::spec_json_string;
use crate::keys::concat_str;
use crate::keys::no_hash;
use crate::keys::spec_request_pk;
use crate::keys::spec_request_sk;
use crate::decimal::dec_digits;
use crate::decimal::format_u64;
use crate::pg_helpers::QuerySample;
use crate::pg_helpers::spec_format_db_error;
use crate::pg_helpers::format_db_error;
use crate::pg_helpers::validate_query_rows;
use crate::rows_to_tsv::rows_to_tsv;
use crate::rows_to_tsv::spec_rows_to_tsv;
use crate::sql_query::SqlQueryBuilder;
use crate::store::RecordView;
use crate::store::Store;

verus! {

/// Arguments of the table-description tool.
pub struct DescribeTablesParams {
    pub table_names: Vec<String>,
}

/// Arguments of the query tool: a query id (empty for a fresh query),
/// a short user-facing name, and the SQL to run.
pub struct QueryDatabaseParams {
    pub query_id: String,
    pub name: String,
    pub query: String,
}

/// Arguments of the data-request tool.
pub struct RequestUnavailableDataParams {
    pub name: String,
    pub explanation: String,
}

/// What the provider is told about one tool: a strict JSON-Schema
/// function declaration.
pub struct ToolSpec {
    pub name: String,
    pub description: String,
    pub parameters: String,
    pub strict: bool,
}

/// The interface every LLM-callable function presents.
pub trait LlmFunctionTrait {
    /// The stable identifier the LLM sees.
    spec fn spec_name(&self) -> Seq<char>;

    /// The stable identifier the LLM sees.
    fn name(&self) -> (r: String)
        ensures
            r@ == self.spec_name(),
    ;

    /// A human- and LLM-readable summary.
    fn description(&self) -> (r: String);

    /// The JSON-Schema text of the accepted arguments; unknown fields
    /// are rejected.
    fn parameters_schema(&self) -> (r: String);
}

/// The table-description tool.
pub struct DescribeTablesFunction;

impl LlmFunctionTrait for DescribeTablesFunction {
    open spec fn spec_name(&self) -> Seq<char> {
        "describe_tables"@
    }

    fn name(&self) -> (r: String) {
        "describe_tables".to_owned()
    }

    fn description(&self) -> (r: String) {
        "Get detailed information about the requested tables.".to_owned()
    }

    fn parameters_schema(&self) -> (r: String) {
        "{\"type\":\"object\",\"properties\":{\"table_names\":{\"type\":\"array\",\"items\":{\"type\":\"string\"}}},\"required\":[\"table_names\"],\"additionalProperties\":false}".to_owned()
    }
}

/// The query tool.
pub struct QueryDatabaseFunction;

impl LlmFunctionTrait for QueryDatabaseFunction {
    open spec fn spec_name(&self) -> Seq<char> {
        "query_database"@
    }

    fn name(&self) -> (r: String) {
        "query_database".to_owned()
    }

    fn description(&self) -> (r: String) {
        "Query the database and show results to the user. You will have access to a limited subset of the output.\nIf the query is not correct, an error message will be returned.\nIf an error is returned, rewrite the query and try again.\nWhen updating previous queries, provide the `query_id` parameter with the ID of the query you are updating.".to_owned()
    }

    fn parameters_schema(&self) -> (r: String) {
        "{\"type\":\"object\",\"properties\":{\"query_id\":{\"type\":\"string\"},\"name\":{\"type\":\"string\"},\"query\":{\"type\":\"string\"}},\"required\":[\"query_id\",\"name\",\"query\"],\"additionalProperties\":false}".to_owned()
    }
}

/// The data-request tool.
pub struct RequestUnavailableDataFunction;

impl LlmFunctionTrait for RequestUnavailableDataFunction {
    open spec fn spec_name(&self) -> Seq<char> {
        "request_unavailable_data"@
    }

    fn name(&self) -> (r: String) {
        "request_unavailable_data".to_owned()
    }

    fn description(&self) -> (r: String) {
        "Puts in a request for data that is currently unavailable.".to_owned()
    }

    fn parameters_schema(&self) -> (r: String) {
        "{\"type\":\"object\",\"properties\":{\"name\":{\"type\":\"string\"},\"explanation\":{\"type\":\"string\"}},\"required\":[\"name\",\"explanation\"],\"additionalProperties\":false}".to_owned()
    }
}

/// One registered tool.
#[derive(Clone, Copy, Debug, PartialEq, Eq, Structural)]
pub enum LlmTool {
    DescribeTables,
    QueryDatabase,
    RequestUnavailableData,
}

/// The stable name of a registered tool.
pub open spec fn spec_tool_name(t: LlmTool) -> Seq<char> {
    match t {
        LlmTool::DescribeTables => "describe_tables"@,
        LlmTool::QueryDatabase => "query_database"@,
        LlmTool::RequestUnavailableData => "request_unavailable_data"@,
    }
}

impl LlmTool {
    /// The stable name of this tool.
    pub fn name(&self) -> (r: String)
        ensures
            r@ == spec_tool_name(*self),
    {
        match self {
            LlmTool::DescribeTables => "describe_tables".to_owned(),
            LlmTool::QueryDatabase => "query_database".to_owned(),
            LlmTool::RequestUnavailableData => "request_unavailable_data".to_owned(),
        }
    }

    /// The provider-facing declaration of this tool.
    pub fn tool(&self) -> (r: ToolSpec)
        ensures
            r.name@ == spec_tool_name(*self),
            r.strict,
    {
        match self {
            LlmTool::DescribeTables => ToolSpec {
                name: DescribeTablesFunction.name(),
                description: DescribeTablesFunction.description(),
                parameters: DescribeTablesFunction.parameters_schema(),
                strict: true,
            },
            LlmTool::QueryDatabase => ToolSpec {
                name: QueryDatabaseFunction.name(),
                description: QueryDatabaseFunction.description(),
                parameters: QueryDatabaseFunction.parameters_schema(),
                strict: true,
            },
            LlmTool::RequestUnavailableData => ToolSpec {
                name: RequestUnavailableDataFunction.name(),
                description: RequestUnavailableDataFunction.description(),
                parameters: RequestUnavailableDataFunction.parameters_schema(),
                strict: true,
            },
        }
    }
}

/// The tool a name denotes in a registration list: the most recent
/// registration wins, as an insert into a name-keyed table would.
pub open spec fn spec_lookup(entries: Seq<(Seq<char>, LlmTool)>, name: Seq<char>) -> Option<
    LlmTool,
>
    decreases entries.len(),
{
    if entries.len() == 0 {
        None
    } else if entries.last().0 == name {
        Some(entries.last().1)
    } else {
        spec_lookup(entries.drop_last(), name)
    }
}

/// The registry of LLM-callable functions, keyed by name.
pub struct FunctionRegistry {
    pub functions: Vec<(String, LlmTool)>,
}

/// The abstract registration list of a registry.
pub open spec fn spec_entries(functions: Seq<(String, LlmTool)>) -> Seq<(Seq<char>, LlmTool)> {
    functions.map_values(|e: (String, LlmTool)| (e.0@, e.1))
}

impl FunctionRegistry {
    /// The abstract registration list.
    pub open spec fn entries(self) -> Seq<(Seq<char>, LlmTool)> {
        spec_entries(self.functions@)
    }

    /// An empty registry.
    pub fn new() -> (r: FunctionRegistry)
        ensures
            r.entries() =~= Seq::<(Seq<char>, LlmTool)>::empty(),
    {
        FunctionRegistry { functions: Vec::new() }
    }

    /// Register a tool under its name; a re-registration of the same
    /// name takes precedence over the earlier one.
    pub fn register(&mut self, function: LlmTool)
        ensures
            final (self).entries() == old(self).entries().push(
                (spec_tool_name(function), function),
            ),
    {
        let name = function.name();
        let ghost pre = self.entries();
        self.functions.push((name, function));
        proof {
            assert(self.entries() =~= pre.push((spec_tool_name(function), function)));
        }
    }

    /// The tool registered under a name, if any.
    pub fn lookup(&self, name: &str) -> (r: Option<LlmTool>)
        ensures
            r == spec_lookup(self.entries(), name@),
    {
        let ghost entries = self.entries();
        let n = self.functions.len();
        let mut i: usize = n;
        proof {
            assert(entries.take(n as int) =~= entries);
        }
        while i > 0
            invariant
                entries == self.entries(),
                i <= n,
                n == self.functions.len(),
                spec_lookup(entries, name@) == spec_lookup(entries.take(i as int), name@),
            decreases i,
        {
            i -= 1;
            if str_eq(self.functions[i].0.as_str(), name) {
                proof {
                    assert(entries.take(i as int + 1).last() == (name@, entries[i as int].1));
                }
                return Some(self.functions[i].1);
            }
            proof {
                assert(entries.take(i as int + 1).last().0 != name@);
                assert(entries.take(i as int + 1).drop_last() =~= entries.take(i as int));
            }
        }
        proof {
            assert(entries.take(0).len() == 0);
        }
        None
    }

    /// All registered tools' provider-facing declarations, in
    /// registration order.
    pub fn get_tools(&self) -> (r: Vec<ToolSpec>)
        ensures
            r.len() == self.functions.len(),
            forall|i: int|
                0 <= i < r.len() ==> (#[trigger] r@[i]).name@ == spec_tool_name(
                    self.functions@[i].1,
                ) && r@[i].strict,
    {
        let mut out: Vec<ToolSpec> = Vec::new();
        let mut i: usize = 0;
        while i < self.functions.len()
            invariant
                i <= self.functions.len(),
                out.len() == i,
                forall|j: int|
                    0 <= j < i ==> (#[trigger] out@[j]).name@ == spec_tool_name(
                        self.functions@[j].1,
                    ) && out@[j].strict,
            decreases self.functions.len() - i,
        {
            let spec_decl = self.functions[i].1.tool();
            out.push(spec_decl);
            i += 1;
        }
        out
    }

    /// Resolve a tool-call name, as dispatch does: an unknown name is
    /// the registry's error.
    pub fn dispatch(&self, function_name: &str) -> (r: Result<LlmTool, ChatterError>)
        ensures
            match r {
                Ok(t) => spec_lookup(self.entries(), function_name@) == Some(t),
                Err(e) => spec_lookup(self.entries(), function_name@) is None && (e matches
                ChatterError::FunctionNotFound(n) && n@ == function_name@),
            },
    {
        match self.lookup(function_name) {
            Some(t) => Ok(t),
            None => Err(ChatterError::FunctionNotFound(function_name.to_owned())),
        }
    }
}

impl Default for FunctionRegistry {
    /// An empty registry.
    fn default() -> (r: FunctionRegistry)
        ensures
            r.entries() =~= Seq::<(Seq<char>, LlmTool)>::empty(),
    {
        FunctionRegistry::new()
    }
}

/// One possible value of an enumerated column.
pub struct EnumValueInfo {
    pub value: String,
    pub desc: Option<String>,
}

/// The abstract value of an `EnumValueInfo`.
#[verifier::ext_equal]
pub struct EnumValueInfoView {
    pub value: Seq<char>,
    pub desc: Option<Seq<char>>,
}

impl DeepView for EnumValueInfo {
    type V = EnumValueInfoView;

    open spec fn deep_view(&self) -> EnumValueInfoView {
        EnumValueInfoView { value: self.value@, desc: self.desc.deep_view() }
    }
}

/// A column's foreign-key target.
pub struct ForeignKeyInfo {
    pub foreign_table: String,
    pub foreign_column: String,
}

/// The abstract value of a `ForeignKeyInfo`.
#[verifier::ext_equal]
pub struct ForeignKeyInfoView {
    pub foreign_table: Seq<char>,
    pub foreign_column: Seq<char>,
}

impl DeepView for ForeignKeyInfo {
    type V = ForeignKeyInfoView;

    open spec fn deep_view(&self) -> ForeignKeyInfoView {
        ForeignKeyInfoView {
            foreign_table: self.foreign_table@,
            foreign_column: self.foreign_column@,
        }
    }
}

/// What the catalogue says of one column.
pub struct ColumnMetadata {
    pub name: String,
    pub desc: Option<String>,
    pub data_type: String,
    pub foreign_key: Option<ForeignKeyInfo>,
    pub enum_values: Option<Vec<EnumValueInfo>>,
}

/// The abstract value of a `ColumnMetadata`.
#[verifier::ext_equal]
pub struct ColumnMetadataView {
    pub name: Seq<char>,
    pub desc: Option<Seq<char>>,
    pub data_type: Seq<char>,
    pub foreign_key: Option<ForeignKeyInfoView>,
    pub enum_values: Option<Seq<EnumValueInfoView>>,
}

impl DeepView for ColumnMetadata {
    type V = ColumnMetadataView;

    open spec fn deep_view(&self) -> ColumnMetadataView {
        ColumnMetadataView {
            name: self.name@,
            desc: self.desc.deep_view(),
            data_type: self.data_type@,
            foreign_key: self.foreign_key.deep_view(),
            enum_values: self.enum_values.deep_view(),
        }
    }
}

/// What the catalogue says of one table.
pub struct TableMetadata {
    pub name: String,
    pub desc: Option<String>,
    pub primary_key: Option<String>,
    pub columns: Vec<ColumnMetadata>,
}

/// The abstract value of a `TableMetadata`.
#[verifier::ext_equal]
pub struct TableMetadataView {
    pub name: Seq<char>,
    pub desc: Option<Seq<char>>,
    pub primary_key: Option<Seq<char>>,
    pub columns: Seq<ColumnMetadataView>,
}

impl DeepView for TableMetadata {
    type V = TableMetadataView;

    open spec fn deep_view(&self) -> TableMetadataView {
        TableMetadataView {
            name: self.name@,
            desc: self.desc.deep_view(),
            primary_key: self.primary_key.deep_view(),
            columns: self.columns.deep_view(),
        }
    }
}

/// The rendering of one enumerated value: the value in backticks, then
/// its description where there is one.
pub open spec fn spec_enum_value(e: EnumValueInfoView) -> Seq<char> {
    "`"@ + e.value + "`"@ + (match e.desc {
        Some(d) => ": "@ + d,
        None => Seq::<char>::empty(),
    })
}

/// The renderings of the enumerated values, joined by commas.
pub open spec fn spec_enum_values(evs: Seq<EnumValueInfoView>) -> Seq<char>
    decreases evs.len(),
{
    if evs.len() == 0 {
        Seq::empty()
    } else if evs.len() == 1 {
        spec_enum_value(evs[0])
    } else {
        spec_enum_values(evs.drop_last()) + ", "@ + spec_enum_value(evs.last())
    }
}

/// The parenthesised annotations of a column: its type, its foreign
/// key, and its possible values, where present.
pub open spec fn spec_annotations(c: ColumnMetadataView) -> Seq<char> {
    "type: "@ + c.data_type + (match c.foreign_key {
        Some(fk) => ", foreign key: \""@ + fk.foreign_table + "\".\""@ + fk.foreign_column + "\""@,
        None => Seq::<char>::empty(),
    }) + (match c.enum_values {
        Some(evs) => ", possible values: "@ + spec_enum_values(evs),
        None => Seq::<char>::empty(),
    })
}

/// The rendered line of one column.
pub open spec fn spec_format_column(c: ColumnMetadataView) -> Seq<char> {
    "  - `"@ + c.name + "`"@ + (match c.desc {
        Some(d) => ": "@ + d,
        None => Seq::<char>::empty(),
    }) + " ("@ + spec_annotations(c) + ")\n"@
}

/// Render the enumerated values of a column, comma-joined.
fn enum_values_string(evs: &Vec<EnumValueInfo>) -> (r: String)
    ensures
        r@ == spec_enum_values(evs.deep_view()),
{
    let ghost all = evs.deep_view();
    let mut out = String::new();
    let mut i: usize = 0;
    proof {
        assert(all.take(0) =~= Seq::<EnumValueInfoView>::empty());
    }
    while i < evs.len()
        invariant
            all == evs.deep_view(),
            i <= evs.len(),
            out@ == spec_enum_values(all.take(i as int)),
        decreases evs.len() - i,
    {
        if i > 0 {
            out.append(", ");
        }
        out.append("`");
        out.append(evs[i].value.as_str());
        out.append("`");
        if let Some(d) = &evs[i].desc {
            out.append(": ");
            out.append(d.as_str());
        }
        proof {
            let t1 = all.take(i as int + 1);
            assert(t1.drop_last() =~= all.take(i as int));
            assert(t1.last() == all[i as int]);
            assert(out@ =~= spec_enum_values(t1));
        }
        i += 1;
    }
    proof {
        assert(all.take(evs.len() as int) =~= all);
    }
    out
}

/// Render the description line of one column.
pub fn format_column(column: &ColumnMetadata) -> (r: String)
    ensures
        r@ == spec_format_column(column.deep_view()),
{
    let mut out = concat_str("  - `", column.name.as_str());
    out.append("`");
    if let Some(d) = &column.desc {
        out.append(": ");
        out.append(d.as_str());
    }
    out.append(" (");
    out.append("type: ");
    out.append(column.data_type.as_str());
    if let Some(fk) = &column.foreign_key {
        out.append(", foreign key: \"");
        out.append(fk.foreign_table.as_str());
        out.append("\".\"");
        out.append(fk.foreign_column.as_str());
        out.append("\"");
    }
    if let Some(evs) = &column.enum_values {
        out.append(", possible values: ");
        let joined = enum_values_string(evs);
        out.append(joined.as_str());
    }
    out.append(")\n");
    proof {
        assert(out@ =~= spec_format_column(column.deep_view()));
    }
    out
}

/// The rendered lines of a table's columns, concatenated.
pub open spec fn spec_columns_block(cols: Seq<ColumnMetadataView>) -> Seq<char>
    decreases cols.len(),
{
    if cols.len() == 0 {
        Seq::empty()
    } else {
        spec_columns_block(cols.drop_last()) + spec_format_column(cols.last())
    }
}

/// The rendered description of one table.
pub open spec fn spec_table_block(table_name: Seq<char>, m: TableMetadataView) -> Seq<char> {
    "Table: `"@ + table_name + "` (for humans: "@ + m.name + ")\n"@ + (match m.desc {
        Some(d) => "- Description: "@ + d + "\n"@,
        None => Seq::<char>::empty(),
    }) + (match m.primary_key {
        Some(p) => "- Primary key: "@ + p + "\n"@,
        None => Seq::<char>::empty(),
    }) + (if m.columns.len() == 0 {
        "- No columns found. This table is empty. Do not use this table in your queries.\n"@
    } else {
        "- Columns:\n"@ + spec_columns_block(m.columns) + "\n"@
    }) + "\n\n"@
}

/// The rendered descriptions of all the tables, concatenated.
pub open spec fn spec_tables_text(tables: Seq<(Seq<char>, TableMetadataView)>) -> Seq<char>
    decreases tables.len(),
{
    if tables.len() == 0 {
        Seq::empty()
    } else {
        spec_tables_text(tables.drop_last()) + spec_table_block(
            tables.last().0,
            tables.last().1,
        )
    }
}

/// Render one table's description.
fn table_block(table_name: &str, m: &TableMetadata) -> (r: String)
    ensures
        r@ == spec_table_block(table_name@, m.deep_view()),
{
    let mut out = concat_str("Table: `", table_name);
    out.append("` (for humans: ");
    out.append(m.name.as_str());
    out.append(")\n");
    if let Some(d) = &m.desc {
        out.append("- Description: ");
        out.append(d.as_str());
        out.append("\n");
    }
    if let Some(p) = &m.primary_key {
        out.append("- Primary key: ");
        out.append(p.as_str());
        out.append("\n");
    }
    if m.columns.len() == 0 {
        out.append("- No columns found. This table is empty. Do not use this table in your queries.\n");
    } else {
        out.append("- Columns:\n");
        let ghost cols = m.columns.deep_view();
        let ghost mid = out@;
        let mut i: usize = 0;
        proof {
            assert(cols.take(0) =~= Seq::<ColumnMetadataView>::empty());
            assert(mid + spec_columns_block(cols.take(0)) =~= mid);
        }
        while i < m.columns.len()
            invariant
                cols == m.columns.deep_view(),
                i <= m.columns.len(),
                out@ == mid + spec_columns_block(cols.take(i as int)),
            decreases m.columns.len() - i,
        {
            let line = format_column(&m.columns[i]);
            out.append(line.as_str());
            proof {
                let t1 = cols.take(i as int + 1);
                assert(t1.drop_last() =~= cols.take(i as int));
                assert(t1.last() == cols[i as int]);
                assert(out@ =~= mid + spec_columns_block(t1));
            }
            i += 1;
        }
        proof {
            assert(cols.take(m.columns.len() as int) =~= cols);
        }
        out.append("\n");
    }
    out.append("\n\n");
    proof {
        assert(out@ =~= spec_table_block(table_name@, m.deep_view()));
    }
    out
}

/// The table-description tool's reply: the rendered catalogue text in
/// a tool envelope classified as a database lookup.
pub fn describe_tables_reply(tables: &Vec<(String, TableMetadata)>, tool_call_id: String) -> (r:
    ChatterMessage)
    ensures
        r.deep_view() == (ChatterMessageView {
            message: Some(spec_tables_text(tables.deep_view())),
            role: Role::Tool,
            tool_calls: None::<Seq<ToolCallView>>,
            tool_call_id: Some(tool_call_id@),
            sidecar: SidecarView::DatabaseLookup,
        }),
{
    let ghost all = tables.deep_view();
    let mut out = String::new();
    let mut i: usize = 0;
    proof {
        assert(all.take(0) =~= Seq::<(Seq<char>, TableMetadataView)>::empty());
    }
    while i < tables.len()
        invariant
            all == tables.deep_view(),
            i <= tables.len(),
            out@ == spec_tables_text(all.take(i as int)),
        decreases tables.len() - i,
    {
        let block = table_block(tables[i].0.as_str(), &tables[i].1);
        out.append(block.as_str());
        proof {
            let t1 = all.take(i as int + 1);
            assert(t1.drop_last() =~= all.take(i as int));
            assert(t1.last() == all[i as int]);
            assert(out@ =~= spec_tables_text(t1));
        }
        i += 1;
    }
    proof {
        assert(all.take(tables.len() as int) =~= all);
    }
    let m = ChatterMessage {
        message: Some(out),
        role: Role::Tool,
        tool_calls: None,
        tool_call_id: Some(tool_call_id),
        sidecar: ChatterMessageSidecar::DatabaseLookup,
    };
    proof {
        assert(m.deep_view() =~= ChatterMessageView {
            message: Some(spec_tables_text(tables.deep_view())),
            role: Role::Tool,
            tool_calls: None::<Seq<ToolCallView>>,
            tool_call_id: Some(m.tool_call_id.deep_view()->0),
            sidecar: SidecarView::DatabaseLookup,
        });
    }
    m
}

/// The SQL with a single trailing semicolon removed, if one is there.
pub open spec fn spec_strip_semicolon(q: Seq<char>) -> Seq<char> {
    if q.len() > 0 && q[q.len() - 1] == ';' {
        q.drop_last()
    } else {
        q
    }
}

/// A single trailing semicolon never reaches the validator: the SQL
/// with exactly one trailing semicolon strips to the same text as the
/// SQL without it, so the sampling wrapper, the validated sample, and
/// the resulting tool envelope are the same for both.
pub proof fn lemma_trailing_semicolon_ignored(q: Seq<char>)
    requires
        q.len() == 0 || q[q.len() - 1] != ';',
    ensures
        spec_strip_semicolon(q.push(';')) == spec_strip_semicolon(q),
        spec_strip_semicolon(q) == q,
{
    assert(q.push(';').drop_last() =~= q);
}

/// Strip a single trailing semicolon.
pub fn strip_semicolon(q: &str) -> (r: String)
    ensures
        r@ == spec_strip_semicolon(q@),
{
    let len = q.unicode_len();
    if len > 0 && q.get_char(len - 1) == ';' {
        let sub = q.substring_char(0, len - 1);
        proof {
            assert(sub@ =~= q@.drop_last());
        }
        sub.to_owned()
    } else {
        q.to_owned()
    }
}

/// Resolve the query tool's arguments: the stable query id (minted
/// fresh where the caller passed an empty one), the SQL with its
/// trailing semicolon stripped, and the sampling wrapper to run.
pub fn prepare_query_database(params: &QueryDatabaseParams) -> (r: (String, String, String))
    ensures
        params.query_id@.len() > 0 ==> r.0@ == params.query_id@,
        params.query_id@.len() == 0 ==> r.0@.len() == 26 && no_hash(r.0@),
        r.1@ == spec_strip_semicolon(params.query@),
        r.2@ == crate::pg_helpers::spec_sample_query(
            spec_strip_semicolon(params.query@),
            crate::pg_helpers::SAMPLE_SIZE as nat,
        ),
{
    let query_id = if params.query_id.unicode_len() == 0 {
        mint_ulid()
    } else {
        params.query_id.clone()
    };
    let stripped = strip_semicolon(params.query.as_str());
    let sample_sql = crate::pg_helpers::build_sample_query(
        stripped.as_str(),
        crate::pg_helpers::SAMPLE_SIZE,
    );
    (query_id, stripped, sample_sql)
}

/// The JSON body of a failed query-tool reply.
pub open spec fn spec_query_error_body(id: Seq<char>, msg: Seq<char>) -> Seq<char> {
    "{\"queryId\":"@ + spec_json_string(id) + ",\"error\":true,\"message\":"@ + spec_json_string(
        msg,
    ) + "}"@
}

/// The JSON body of a successful query-tool reply.
pub open spec fn spec_query_success_body(id: Seq<char>, tsv: Seq<char>, n: nat) -> Seq<char> {
    "{\"queryId\":"@ + spec_json_string(id) + ",\"tsv\":"@ + spec_json_string(tsv) + ",\"tsvRows\":"@
        + dec_digits(n) + "}"@
}

/// Build the JSON body of a failed query-tool reply.
fn query_error_body(id: &str, msg: &str) -> (r: String)
    ensures
        r@ == spec_query_error_body(id@, msg@),
{
    let mut out = "{\"queryId\":".to_owned();
    let idq = json_string(id);
    out.append(idq.as_str());
    out.append(",\"error\":true,\"message\":");
    let msgq = json_string(msg);
    out.append(msgq.as_str());
    out.append("}");
    proof {
        assert(out@ =~= spec_query_error_body(id@, msg@));
    }
    out
}

/// Build the JSON body of a successful query-tool reply.
fn query_success_body(id: &str, tsv: &str, n: u64) -> (r: String)
    ensures
        r@ == spec_query_success_body(id@, tsv@, n as nat),
{
    let mut out = "{\"queryId\":".to_owned();
    let idq = json_string(id);
    out.append(idq.as_str());
    out.append(",\"tsv\":");
    let tsvq = json_string(tsv);
    out.append(tsvq.as_str());
    out.append(",\"tsvRows\":");
    let digits = format_u64(n);
    out.append(digits.as_str());
    out.append("}");
    proof {
        assert(out@ =~= spec_query_success_body(id@, tsv@, n as nat));
    }
    out
}

/// A tool envelope carrying an error body, classified as a failed SQL
/// execution.
fn query_error_reply(query_id: &str, msg: &str, tool_call_id: String) -> (r: ChatterMessage)
    ensures
        r.deep_view() == (ChatterMessageView {
            message: Some(spec_query_error_body(query_id@, msg@)),
            role: Role::Tool,
            tool_calls: None::<Seq<ToolCallView>>,
            tool_call_id: Some(tool_call_id@),
            sidecar: SidecarView::SQLExecutionError,
        }),
{
    let body = query_error_body(query_id, msg);
    let m = ChatterMessage {
        message: Some(body),
        role: Role::Tool,
        tool_calls: None,
        tool_call_id: Some(tool_call_id),
        sidecar: ChatterMessageSidecar::SQLExecutionError,
    };
    proof {
        assert(m.deep_view() =~= ChatterMessageView {
            message: Some(spec_query_error_body(query_id@, msg@)),
            role: Role::Tool,
            tool_calls: None::<Seq<ToolCallView>>,
            tool_call_id: Some(m.tool_call_id.deep_view()->0),
            sidecar: SidecarView::SQLExecutionError,
        });
    }
    m
}

/// The saved-query record the query tool persists on success.
pub open spec fn spec_saved_query(
    thread_id: Seq<char>,
    query_id: Seq<char>,
    name: Seq<char>,
    stripped_query: Seq<char>,
    now: i64,
) -> crate::sql_query::SqlQueryView {
    crate::sql_query::SqlQueryView {
        pk: crate::keys::spec_query_pk(thread_id),
        sk: crate::keys::spec_query_sk(query_id),
        query_name: name,
        query_content: stripped_query,
        created_ts: now,
        modified_ts: now,
        accessed_ts: now,
        ttl: None,
    }
}

/// The query tool's reply, given the sampling outcome.
///
/// A driver fault or an invalid sample (no rows, or no geometry
/// column) becomes an error envelope and nothing is stored; a valid
/// sample is rendered as TSV, the query is saved under its id, and the
/// envelope carries the execution sidecar.
pub fn query_database_reply(
    store: &mut Store,
    thread_id: &str,
    query_id: String,
    name: String,
    stripped_query: String,
    outcome: &Result<QuerySample, ChatterError>,
    tool_call_id: String,
    now: i64,
) -> (r: ChatterMessage)
    requires
        old(store).wf(),
    ensures
        final (store).wf(),
        r.deep_view().role == Role::Tool,
        r.deep_view().tool_call_id == Some(tool_call_id@),
        r.deep_view().tool_calls is None,
        match *outcome {
            Err(e) => {
                &&& *final (store) == *old(store)
                &&& r.deep_view() == (ChatterMessageView {
                    message: Some(
                        spec_query_error_body(query_id@, spec_format_db_error(e)),
                    ),
                    role: Role::Tool,
                    tool_calls: None::<Seq<ToolCallView>>,
                    tool_call_id: Some(tool_call_id@),
                    sidecar: SidecarView::SQLExecutionError,
                })
            },
            Ok(sample) => {
                let valid = sample.rows.len() > 0 && crate::pg_helpers::spec_has_geometry_column(
                    sample.columns.deep_view(),
                );
                if valid {
                    &&& final (store).contents() == old(store).contents().insert(
                        (
                            crate::keys::spec_query_pk(thread_id@),
                            crate::keys::spec_query_sk(query_id@),
                        ),
                        RecordView::Query(
                            crate::sql_query::spec_query_item(
                                spec_saved_query(
                                    thread_id@,
                                    query_id@,
                                    name@,
                                    stripped_query@,
                                    now,
                                ),
                            ),
                        ),
                    )
                    &&& r.deep_view() == (ChatterMessageView {
                        message: Some(
                            spec_query_success_body(
                                query_id@,
                                spec_rows_to_tsv(sample.deep_view()),
                                sample.rows.len() as nat,
                            ),
                        ),
                        role: Role::Tool,
                        tool_calls: None::<Seq<ToolCallView>>,
                        tool_call_id: Some(tool_call_id@),
                        sidecar: SidecarView::SQLExecution(
                            crate::chatter_message::SQLExecutionDetailsView {
                                id: query_id@,
                                name: name@,
                                sql: stripped_query@,
                            },
                        ),
                    })
                } else {
                    &&& *final (store) == *old(store)
                    &&& r.deep_view().sidecar == SidecarView::SQLExecutionError
                    &&& (sample.rows.len() == 0 ==> r.deep_view().message == Some(
                        spec_query_error_body(
                            query_id@,
                            "SQL Query Error: "@ + crate::pg_helpers::spec_empty_result_message(),
                        ),
                    ))
                    &&& (sample.rows.len() > 0 ==> r.deep_view().message == Some(
                        spec_query_error_body(
                            query_id@,
                            "Geometry was not found in the query result"@,
                        ),
                    ))
                }
            },
        },
{
    let sample = match outcome {
        Ok(sample) => sample,
        Err(e) => {
            let msg = format_db_error(e);
            return query_error_reply(query_id.as_str(), msg.as_str(), tool_call_id);
        },
    };
    if let Err(validation_error) = validate_query_rows(sample) {
        let msg = validation_error.message();
        return query_error_reply(query_id.as_str(), msg.as_str(), tool_call_id);
    }
    let builder = SqlQueryBuilder::default().thread_id(thread_id).query_id(
        query_id.as_str(),
    ).query_name(name.clone()).query_content(stripped_query.clone()).created_ts(now).modified_ts(
        now,
    ).accessed_ts(now);
    let saved = match builder.build() {
        Ok(q) => q,
        Err(_) => {
            // unreachable: every required field was set
            proof {
                assert(false);
            }
            return query_error_reply(query_id.as_str(), "", tool_call_id);
        },
    };
    let item = saved.to_item();
    proof {
        assert(saved.deep_view() =~= spec_saved_query(
            thread_id@,
            query_id@,
            name@,
            stripped_query@,
            now,
        ));
    }
    let put_result = store.put_item(item);
    proof {
        assert(put_result is Ok);
    }
    let tsv = rows_to_tsv(sample);
    let rows_len: u64 = sample.rows.len() as u64;
    let body = query_success_body(query_id.as_str(), tsv.as_str(), rows_len);
    let m = ChatterMessage {
        message: Some(body),
        role: Role::Tool,
        tool_calls: None,
        tool_call_id: Some(tool_call_id),
        sidecar: ChatterMessageSidecar::SQLExecution(
            SQLExecutionDetails { id: query_id, name, sql: stripped_query },
        ),
    };
    proof {
        assert(m.deep_view() =~= ChatterMessageView {
            message: Some(
                spec_query_success_body(
                    m.sidecar->SQLExecution_0.id@,
                    spec_rows_to_tsv(sample.deep_view()),
                    sample.rows.len() as nat,
                ),
            ),
            role: Role::Tool,
            tool_calls: None::<Seq<ToolCallView>>,
            tool_call_id: Some(m.tool_call_id.deep_view()->0),
            sidecar: SidecarView::SQLExecution(
                crate::chatter_message::SQLExecutionDetailsView {
                    id: m.sidecar->SQLExecution_0.id@,
                    name: m.sidecar->SQLExecution_0.name@,
                    sql: m.sidecar->SQLExecution_0.sql@,
                },
            ),
        });
    }
    m
}

/// The acknowledgement text of a stored data request.
pub open spec fn spec_request_ack(name: Seq<char>, request_id: Seq<char>) -> Seq<char> {
    "I've submitted a request for the data '"@ + name
        + "'. The data team will review this request and get back to you. Request ID: "@
        + request_id
}

/// The data-request tool's reply: the request is stored as pending
/// under a fresh id, and the envelope carries a confirmation for the
/// user; the returned string is the minted request id.
pub fn request_unavailable_data_reply(
    store: &mut Store,
    thread_id: &str,
    params: RequestUnavailableDataParams,
    now: i64,
    tool_call_id: String,
) -> (r: (ChatterMessage, String))
    requires
        old(store).wf(),
    ensures
        final (store).wf(),
        r.1@.len() == 26 && no_hash(r.1@),
        final (store).contents() == old(store).contents().insert(
            (spec_request_pk(), spec_request_sk(thread_id@, r.1@)),
            RecordView::Request(
                crate::data_request::spec_request_item(
                    crate::data_request::DataRequestView {
                        pk: spec_request_pk(),
                        sk: spec_request_sk(thread_id@, r.1@),
                        name: params.name@,
                        explanation: params.explanation@,
                        created_ts: now,
                        status: "pending"@,
                    },
                ),
            ),
        ),
        r.0.deep_view() == (ChatterMessageView {
            message: Some(spec_request_ack(params.name@, r.1@)),
            role: Role::Tool,
            tool_calls: None::<Seq<ToolCallView>>,
            tool_call_id: Some(tool_call_id@),
            sidecar: SidecarView::Empty,
        }),
{
    let request_id = mint_ulid();
    let builder = DataRequestBuilder::default().thread_and_request_ids(
        thread_id,
        request_id.as_str(),
    ).name(params.name).explanation(params.explanation).created_ts(now);
    let request = match builder.build() {
        Ok(d) => d,
        Err(_) => {
            // unreachable: every required field was set
            proof {
                assert(false);
            }
            let m = ChatterMessage {
                message: None,
                role: Role::Tool,
                tool_calls: None,
                tool_call_id: Some(tool_call_id),
                sidecar: ChatterMessageSidecar::Empty,
            };
            return (m, request_id);
        },
    };
    let mut content = "I've submitted a request for the data '".to_owned();
    content.append(request.name.as_str());
    content.append("'. The data team will review this request and get back to you. Request ID: ");
    content.append(request_id.as_str());
    let item = request.to_item();
    proof {
        assert(item.deep_view() =~= RecordView::Request(
            crate::data_request::spec_request_item(
                crate::data_request::DataRequestView {
                    pk: spec_request_pk(),
                    sk: spec_request_sk(thread_id@, request_id@),
                    name: request.name@,
                    explanation: request.explanation@,
                    created_ts: now,
                    status: "pending"@,
                },
            ),
        ));
    }
    let put_result = store.put_item(item);
    proof {
        assert(put_result is Ok);
        assert(content@ =~= spec_request_ack(request.name@, request_id@));
    }
    let m = ChatterMessage {
        message: Some(content),
        role: Role::Tool,
        tool_calls: None,
        tool_call_id: Some(tool_call_id),
        sidecar: ChatterMessageSidecar::Empty,
    };
    proof {
        assert(m.deep_view() =~= ChatterMessageView {
            message: Some(spec_request_ack(request.name@, request_id@)),
            role: Role::Tool,
            tool_calls: None::<Seq<ToolCallView>>,
            tool_call_id: Some(m.tool_call_id.deep_view()->0),
            sidecar: SidecarView::Empty,
        });
    }
    (m, request_id)
}

/// The JSON body of a tool reply for arguments that failed validation.
pub open spec fn spec_args_error_body(msg: Seq<char>) -> Seq<char> {
    "{\"error\":true,\"message\":"@ + spec_json_string(msg) + "}"@
}

/// The tool envelope returned where a tool call's arguments do not
/// parse against the tool's schema: an error payload the LLM can react
/// to, never a fault of the loop.
pub fn tool_args_error_reply(tool_call_id: String, message: &str) -> (r: ChatterMessage)
    ensures
        r.deep_view() == (ChatterMessageView {
            message: Some(spec_args_error_body(message@)),
            role: Role::Tool,
            tool_calls: None::<Seq<ToolCallView>>,
            tool_call_id: Some(tool_call_id@),
            sidecar: SidecarView::SQLExecutionError,
        }),
{
    let mut body = "{\"error\":true,\"message\":".to_owned();
    let msgq = json_string(message);
    body.append(msgq.as_str());
    body.append("}");
    proof {
        assert(body@ =~= spec_args_error_body(message@));
    }
    let m = ChatterMessage {
        message: Some(body),
        role: Role::Tool,
        tool_calls: None,
        tool_call_id: Some(tool_call_id),
        sidecar: ChatterMessageSidecar::SQLExecutionError,
    };
    proof {
        assert(m.deep_view() =~= ChatterMessageView {
            message: Some(spec_args_error_body(message@)),
            role: Role::Tool,
            tool_calls: None::<Seq<ToolCallView>>,
            tool_call_id: Some(m.tool_call_id.deep_view()->0),
            sidecar: SidecarView::SQLExecutionError,
        });
    }
    m
}

} // verus!
