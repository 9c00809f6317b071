//! The database boundary, modelled: sampled rows, query validation,
//! error formatting, and cell coercion.
//!
//! The database itself is outside; what its driver hands back crosses
//! into the library as plain values — a column as its name and type
//! name, a cell as one of the value shapes below.  A float crosses as
//! the text it was rendered to at the boundary.

use vstd::prelude::*;
use crate::error::ChatterError;
use crate::error::PgError;
use crate::error::spec_chatter_error_message;
use crate::geom::GeometryKind;
use crate::keys::concat_str;
use crate::decimal::dec_digits;
use crate::decimal::format_u64;
use crate::codec::str_eq;

verus! {

/// How many rows the validation sampler fetches.
pub const SAMPLE_SIZE: u64 = 5;

/// One column of a result set: its name and its type's name.
pub struct PgColumn {
    pub name: String,
    pub pg_type: String,
}

/// The abstract value of a `PgColumn`.
#[verifier::ext_equal]
pub struct PgColumnView {
    pub name: Seq<char>,
    pub pg_type: Seq<char>,
}

impl DeepView for PgColumn {
    type V = PgColumnView;

    open spec fn deep_view(&self) -> PgColumnView {
        PgColumnView { name: self.name@, pg_type: self.pg_type@ }
    }
}

/// One cell of a result set, as a plain value.
pub enum PgCell {
    /// A null in a column of a supported type.
    Null,
    /// A character type.
    Text(String),
    I32(i32),
    I64(i64),
    /// A floating-point value, rendered to text at the boundary.
    Float(String),
    Bool(bool),
    /// An arbitrary-precision decimal, as text to keep its precision.
    Numeric(String),
    /// A `json`/`jsonb` value, as its JSON text.
    Json(String),
    /// A geometry value: only its variant is read.
    Geometry(GeometryKind),
    /// A value of a type the renderers do not support.
    Unsupported,
}

/// The abstract value of a `PgCell`.
#[verifier::ext_equal]
pub enum PgCellView {
    Null,
    Text(Seq<char>),
    I32(i32),
    I64(i64),
    Float(Seq<char>),
    Bool(bool),
    Numeric(Seq<char>),
    Json(Seq<char>),
    Geometry(GeometryKind),
    Unsupported,
}

impl DeepView for PgCell {
    type V = PgCellView;

    open spec fn deep_view(&self) -> PgCellView {
        match self {
            PgCell::Null => PgCellView::Null,
            PgCell::Text(s) => PgCellView::Text(s@),
            PgCell::I32(v) => PgCellView::I32(*v),
            PgCell::I64(v) => PgCellView::I64(*v),
            PgCell::Float(s) => PgCellView::Float(s@),
            PgCell::Bool(b) => PgCellView::Bool(*b),
            PgCell::Numeric(s) => PgCellView::Numeric(s@),
            PgCell::Json(s) => PgCellView::Json(s@),
            PgCell::Geometry(k) => PgCellView::Geometry(*k),
            PgCell::Unsupported => PgCellView::Unsupported,
        }
    }
}

/// A sampled result set: the columns, and the rows' cells in column
/// order.
pub struct QuerySample {
    pub columns: Vec<PgColumn>,
    pub rows: Vec<Vec<PgCell>>,
}

/// The abstract value of a `QuerySample`.
#[verifier::ext_equal]
pub struct QuerySampleView {
    pub columns: Seq<PgColumnView>,
    pub rows: Seq<Seq<PgCellView>>,
}

impl DeepView for QuerySample {
    type V = QuerySampleView;

    open spec fn deep_view(&self) -> QuerySampleView {
        QuerySampleView { columns: self.columns.deep_view(), rows: self.rows.deep_view() }
    }
}

/// The sampling wrapper around a candidate query: the user SQL becomes
/// a sub-query and at most `limit` rows come back, with no ordering
/// imposed.
pub open spec fn spec_sample_query(query: Seq<char>, limit: nat) -> Seq<char> {
    "SELECT * FROM ("@ + query + ") AS t LIMIT "@ + dec_digits(limit)
}

/// Build the sampling wrapper for a candidate query.
pub fn build_sample_query(query: &str, limit: u64) -> (r: String)
    ensures
        r@ == spec_sample_query(query@, limit as nat),
{
    let mut out = concat_str("SELECT * FROM (", query);
    out.append(") AS t LIMIT ");
    let digits = format_u64(limit);
    out.append(digits.as_str());
    proof {
        assert(out@ =~= spec_sample_query(query@, limit as nat));
    }
    out
}

/// Whether some column of the sample has the geometry type.
pub open spec fn spec_has_geometry_column(columns: Seq<PgColumnView>) -> bool {
    exists|i: int| 0 <= i < columns.len() && (#[trigger] columns[i].pg_type) == "geometry"@
}

/// Whether some column of the sample has the geometry type.
pub fn has_geometry_column(columns: &Vec<PgColumn>) -> (r: bool)
    ensures
        r == spec_has_geometry_column(columns.deep_view()),
{
    let mut i: usize = 0;
    while i < columns.len()
        invariant
            i <= columns.len(),
            forall|j: int|
                0 <= j < i ==> (#[trigger] columns.deep_view()[j].pg_type) != "geometry"@,
        decreases columns.len() - i,
    {
        if str_eq(columns[i].pg_type.as_str(), "geometry") {
            proof {
                assert(columns.deep_view()[i as int].pg_type == "geometry"@);
            }
            return true;
        }
        i += 1;
    }
    false
}

/// The message of the empty-sample fault.
pub open spec fn spec_empty_result_message() -> Seq<char> {
    "Failed to execute query: The result set is empty. Try again."@
}

/// Validate a sample: it must hold at least one row, and some column
/// must have the geometry type.
pub fn validate_query_rows(sample: &QuerySample) -> (r: Result<(), ChatterError>)
    ensures
        match r {
            Ok(()) => sample.rows.len() > 0 && spec_has_geometry_column(
                sample.columns.deep_view(),
            ),
            Err(e) => {
                &&& (sample.rows.len() == 0 <==> (e matches ChatterError::QueryError(m) && m@
                    == spec_empty_result_message()))
                &&& (sample.rows.len() > 0 <==> (e is GeometryNotFound
                    && !spec_has_geometry_column(sample.columns.deep_view())))
            },
        },
{
    if sample.rows.len() == 0 {
        Err(
            ChatterError::QueryError(
                "Failed to execute query: The result set is empty. Try again.".to_owned(),
            ),
        )
    } else if !has_geometry_column(&sample.columns) {
        Err(ChatterError::GeometryNotFound)
    } else {
        Ok(())
    }
}

/// The user-visible rendering of a database fault: the driver-reported
/// message, and the `where` and `hint` details where present.
pub open spec fn spec_format_db_error(e: ChatterError) -> Seq<char> {
    match e {
        ChatterError::PostgresError(pg) => match pg {
            PgError::Db { message, where_detail, hint } => "Failed to execute query: "@ + message@
                + (match where_detail {
                Some(w) => ", where: "@ + w@,
                None => Seq::<char>::empty(),
            }) + (match hint {
                Some(h) => ", hint: "@ + h@,
                None => Seq::<char>::empty(),
            }),
            PgError::Other(s) => "Failed to execute query: "@ + s@,
        },
        _ => "Failed to execute query: "@ + spec_chatter_error_message(e),
    }
}

/// Render a database fault for the user.
pub fn format_db_error(e: &ChatterError) -> (r: String)
    ensures
        r@ == spec_format_db_error(*e),
{
    match e {
        ChatterError::PostgresError(pg) => match pg {
            PgError::Db { message, where_detail, hint } => {
                let mut out = concat_str("Failed to execute query: ", message.as_str());
                if let Some(w) = where_detail {
                    out.append(", where: ");
                    out.append(w.as_str());
                }
                if let Some(h) = hint {
                    out.append(", hint: ");
                    out.append(h.as_str());
                }
                proof {
                    assert(out@ =~= spec_format_db_error(*e));
                }
                out
            },
            PgError::Other(s) => concat_str("Failed to execute query: ", s.as_str()),
        },
        _ => {
            let msg = e.message();
            concat_str("Failed to execute query: ", msg.as_str())
        },
    }
}

/// A JSON scalar, as the buffered query endpoint coerces cells.
pub enum JsonScalar {
    /// JSON null.
    Null,
    /// A JSON string.
    Str(String),
    /// A JSON number from an integer.
    IntNum(i64),
    /// A JSON number from a float, as the text it was rendered to.
    FloatNum(String),
    /// A JSON boolean.
    BoolVal(bool),
    /// A JSON value passed through unparsed.
    Raw(String),
}

/// The abstract value of a `JsonScalar`.
#[verifier::ext_equal]
pub enum JsonScalarView {
    Null,
    Str(Seq<char>),
    IntNum(i64),
    FloatNum(Seq<char>),
    BoolVal(bool),
    Raw(Seq<char>),
}

impl DeepView for JsonScalar {
    type V = JsonScalarView;

    open spec fn deep_view(&self) -> JsonScalarView {
        match self {
            JsonScalar::Null => JsonScalarView::Null,
            JsonScalar::Str(s) => JsonScalarView::Str(s@),
            JsonScalar::IntNum(v) => JsonScalarView::IntNum(*v),
            JsonScalar::FloatNum(s) => JsonScalarView::FloatNum(s@),
            JsonScalar::BoolVal(b) => JsonScalarView::BoolVal(*b),
            JsonScalar::Raw(s) => JsonScalarView::Raw(s@),
        }
    }
}

/// The JSON scalar a cell coerces to: strings and integers keep their
/// value, a float keeps its rendered text, `numeric` becomes a string
/// to keep its precision, JSON passes through, and anything else —
/// including a null — becomes JSON null.
pub open spec fn spec_convert_column_value(c: PgCellView) -> JsonScalarView {
    match c {
        PgCellView::Null => JsonScalarView::Null,
        PgCellView::Text(s) => JsonScalarView::Str(s),
        PgCellView::I32(v) => JsonScalarView::IntNum(v as i64),
        PgCellView::I64(v) => JsonScalarView::IntNum(v),
        PgCellView::Float(s) => JsonScalarView::FloatNum(s),
        PgCellView::Bool(b) => JsonScalarView::BoolVal(b),
        PgCellView::Numeric(s) => JsonScalarView::Str(s),
        PgCellView::Json(s) => JsonScalarView::Raw(s),
        PgCellView::Geometry(_) => JsonScalarView::Null,
        PgCellView::Unsupported => JsonScalarView::Null,
    }
}

/// The geometry of one row: the value of the last geometry-typed
/// column, where that column holds a geometry.
pub open spec fn spec_row_geom(cells: Seq<(PgColumnView, PgCellView)>) -> Option<GeometryKind>
    decreases cells.len(),
{
    if cells.len() == 0 {
        None
    } else if cells.last().0.pg_type == "geometry"@ {
        match cells.last().1 {
            PgCellView::Geometry(k) => Some(k),
            _ => None,
        }
    } else {
        spec_row_geom(cells.drop_last())
    }
}

/// The properties of one row: every non-geometry column's name with
/// its coerced JSON scalar, in column order.
pub open spec fn spec_row_props(cells: Seq<(PgColumnView, PgCellView)>) -> Seq<
    (Seq<char>, JsonScalarView),
>
    decreases cells.len(),
{
    if cells.len() == 0 {
        Seq::empty()
    } else if cells.last().0.pg_type == "geometry"@ {
        spec_row_props(cells.drop_last())
    } else {
        spec_row_props(cells.drop_last()).push(
            (cells.last().0.name, spec_convert_column_value(cells.last().1)),
        )
    }
}

/// Split one row into its geometry and its JSON properties: geometry
/// columns carry the geometry (the last one wins), every other column
/// becomes a property; a row without a geometry is the geometry-not-
/// found fault.
pub fn split_row(cells: &Vec<(PgColumn, PgCell)>) -> (r: Result<
    (GeometryKind, Vec<(String, JsonScalar)>),
    ChatterError,
>)
    requires
        forall|i: int|
            0 <= i < cells.deep_view().len() ==> ((#[trigger] cells.deep_view()[i]).0.pg_type
                == "geometry"@ ==> cells.deep_view()[i].1 is Geometry),
    ensures
        match r {
            Ok((geom, props)) => {
                &&& spec_row_geom(cells.deep_view()) == Some(geom)
                &&& props.deep_view() == spec_row_props(cells.deep_view())
            },
            Err(e) => e is GeometryNotFound && spec_row_geom(cells.deep_view()) is None,
        },
{
    let ghost all = cells.deep_view();
    let mut geom: Option<GeometryKind> = None;
    let mut props: Vec<(String, JsonScalar)> = Vec::new();
    let mut i: usize = 0;
    proof {
        assert(all.take(0) =~= Seq::<(PgColumnView, PgCellView)>::empty());
        assert(props.deep_view() =~= spec_row_props(all.take(0)));
    }
    while i < cells.len()
        invariant
            all == cells.deep_view(),
            i <= cells.len(),
            forall|j: int|
                0 <= j < all.len() ==> ((#[trigger] all[j]).0.pg_type == "geometry"@ ==> all[j].1
                    is Geometry),
            geom == spec_row_geom(all.take(i as int)),
            props.deep_view() == spec_row_props(all.take(i as int)),
        decreases cells.len() - i,
    {
        let ghost t1 = all.take(i as int + 1);
        proof {
            assert(t1.drop_last() =~= all.take(i as int));
            assert(t1.last() == all[i as int]);
        }
        if str_eq(cells[i].0.pg_type.as_str(), "geometry") {
            match &cells[i].1 {
                PgCell::Geometry(k) => {
                    geom = Some(*k);
                },
                _ => {
                    proof {
                        assert(false);
                    }
                },
            }
        } else {
            let ghost pre = props.deep_view();
            let value = convert_column_value(&cells[i].1);
            props.push((cells[i].0.name.clone(), value));
            proof {
                assert(props.deep_view() =~= pre.push(
                    (all[i as int].0.name, spec_convert_column_value(all[i as int].1)),
                ));
            }
        }
        i += 1;
    }
    proof {
        assert(all.take(cells.len() as int) =~= all);
    }
    match geom {
        Some(k) => Ok((k, props)),
        None => Err(ChatterError::GeometryNotFound),
    }
}

/// Coerce one cell to the JSON scalar the buffered endpoint returns.
pub fn convert_column_value(c: &PgCell) -> (r: JsonScalar)
    ensures
        r.deep_view() == spec_convert_column_value(c.deep_view()),
{
    match c {
        PgCell::Null => JsonScalar::Null,
        PgCell::Text(s) => JsonScalar::Str(s.clone()),
        PgCell::I32(v) => JsonScalar::IntNum(*v as i64),
        PgCell::I64(v) => JsonScalar::IntNum(*v),
        PgCell::Float(s) => JsonScalar::FloatNum(s.clone()),
        PgCell::Bool(b) => JsonScalar::BoolVal(*b),
        PgCell::Numeric(s) => JsonScalar::Str(s.clone()),
        PgCell::Json(s) => JsonScalar::Raw(s.clone()),
        PgCell::Geometry(_) => JsonScalar::Null,
        PgCell::Unsupported => JsonScalar::Null,
    }
}

} // verus!
