//! The tile builder: wrapping a saved query as the source of a
//! vector-tile-producing statement, and of a bounding-box aggregate.
//!
//! The composed SQL is a pure function of the saved query's text and
//! the discovered columns, so rendering the same tile twice over a
//! stable database snapshot runs the identical statement.

use vstd::prelude::*;
use crate::codec::str_eq;
use crate::error::ChatterError;
use crate::keys::concat_str;
use crate::pg_helpers::PgColumn;
use crate::pg_helpers::PgColumnView;

verus! {

/// The column plan of a tile statement: the mandatory id column, the
/// geometry column, and the names forwarded as tile attributes.
pub struct TilePlan {
    pub id_column: String,
    pub geom_column: String,
    pub extra_columns: Vec<String>,
}

/// The first index at which a column is named `_id`.
pub open spec fn spec_find_id(cols: Seq<PgColumnView>) -> Option<int>
    decreases cols.len(),
{
    if cols.len() == 0 {
        None
    } else if cols[0].name == "_id"@ {
        Some(0int)
    } else {
        match spec_find_id(cols.skip(1)) {
            Some(i) => Some(i + 1),
            None => None,
        }
    }
}

/// The first index at which a column has the geometry type.
pub open spec fn spec_find_geom(cols: Seq<PgColumnView>) -> Option<int>
    decreases cols.len(),
{
    if cols.len() == 0 {
        None
    } else if cols[0].pg_type == "geometry"@ {
        Some(0int)
    } else {
        match spec_find_geom(cols.skip(1)) {
            Some(i) => Some(i + 1),
            None => None,
        }
    }
}

/// The names forwarded as tile attributes: every column not named like
/// the id column or the geometry column.
pub open spec fn spec_extra_names(cols: Seq<PgColumnView>, geom_name: Seq<char>) -> Seq<Seq<char>> {
    cols.filter(|c: PgColumnView| c.name != "_id"@ && c.name != geom_name).map_values(
        |c: PgColumnView| c.name,
    )
}

/// Identify the id and geometry columns of a prepared statement and
/// gather the attribute columns; the absence of either mandatory
/// column is a query error.
pub fn plan_tile_query(columns: &Vec<PgColumn>) -> (r: Result<TilePlan, ChatterError>)
    ensures
        match r {
            Ok(plan) => {
                &&& spec_find_id(columns.deep_view()) is Some
                &&& spec_find_geom(columns.deep_view()) matches Some(g) && plan.geom_column@
                    == columns.deep_view()[g].name
                &&& plan.id_column@ == "_id"@
                &&& plan.extra_columns.deep_view() == spec_extra_names(
                    columns.deep_view(),
                    plan.geom_column@,
                )
            },
            Err(e) => {
                &&& (spec_find_id(columns.deep_view()) is None <==> (e matches
                ChatterError::QueryError(m) && m@ == "No ID column found"@))
                &&& (spec_find_id(columns.deep_view()) is Some ==> spec_find_geom(
                    columns.deep_view(),
                ) is None && (e matches ChatterError::QueryError(m) && m@
                    == "No geometry column found in the query result."@))
            },
        },
{
    let ghost cols = columns.deep_view();
    let id_idx = find_id_col(columns);
    if id_idx.is_none() {
        return Err(ChatterError::QueryError("No ID column found".to_owned()));
    }
    let geom_idx = find_geom_col(columns);
    let geom_at = match geom_idx {
        Some(g) => g,
        None => {
            proof {
                reveal_strlit("No ID column found");
                reveal_strlit("No geometry column found in the query result.");
                assert("No ID column found"@.len() != "No geometry column found in the query result."@.len());
            }
            return Err(
                ChatterError::QueryError("No geometry column found in the query result.".to_owned()),
            );
        },
    };
    let geom_column = columns[geom_at].name.clone();
    let ghost pred = |c: PgColumnView| c.name != "_id"@ && c.name != geom_column@;
    let mut extra_columns: Vec<String> = Vec::new();
    let mut k: usize = 0;
    proof {
        broadcast use vstd::seq_lib::group_filter_ensures;

        assert(cols.take(0).filter(pred) =~= Seq::<PgColumnView>::empty());
        assert(extra_columns.deep_view() =~= cols.take(0).filter(pred).map_values(
            |c: PgColumnView| c.name,
        ));
    }
    while k < columns.len()
        invariant
            cols == columns.deep_view(),
            k <= columns.len(),
            pred == (|c: PgColumnView| c.name != "_id"@ && c.name != geom_column@),
            extra_columns.deep_view() =~= cols.take(k as int).filter(pred).map_values(
                |c: PgColumnView| c.name,
            ),
        decreases columns.len() - k,
    {
        let keep = !str_eq(columns[k].name.as_str(), "_id") && !str_eq(
            columns[k].name.as_str(),
            geom_column.as_str(),
        );
        let ghost pre = extra_columns.deep_view();
        if keep {
            extra_columns.push(columns[k].name.clone());
        }
        proof {
            broadcast use vstd::seq_lib::group_filter_ensures;

            let t0 = cols.take(k as int);
            let t1 = cols.take(k as int + 1);
            assert(t1 =~= t0 + seq![cols[k as int]]);
            assert(t1.filter(pred) == t0.filter(pred) + seq![cols[k as int]].filter(pred));
            lemma_filter_col_singleton(cols[k as int], pred);
            if pred(cols[k as int]) {
                assert(extra_columns.deep_view() =~= pre.push(cols[k as int].name));
                assert(t1.filter(pred).map_values(|c: PgColumnView| c.name) =~= t0.filter(
                    pred,
                ).map_values(|c: PgColumnView| c.name).push(cols[k as int].name));
            } else {
                assert(t1.filter(pred) =~= t0.filter(pred));
            }
        }
        k += 1;
    }
    proof {
        assert(cols.take(columns.len() as int) =~= cols);
    }
    Ok(TilePlan { id_column: "_id".to_owned(), geom_column, extra_columns })
}

/// Find the first column named `_id`.
fn find_id_col(columns: &Vec<PgColumn>) -> (r: Option<usize>)
    ensures
        match r {
            Some(i) => spec_find_id(columns.deep_view()) == Some(i as int),
            None => spec_find_id(columns.deep_view()) is None,
        },
{
    let ghost cols = columns.deep_view();
    let mut i: usize = 0;
    proof {
        assert(cols.skip(0) =~= cols);
    }
    while i < columns.len()
        invariant
            cols == columns.deep_view(),
            i <= columns.len(),
            spec_find_id(cols) == map_shift(spec_find_id(cols.skip(i as int)), i as int),
        decreases columns.len() - i,
    {
        proof {
            assert(cols.skip(i as int)[0] == cols[i as int]);
            assert(cols.skip(i as int).skip(1) =~= cols.skip(i as int + 1));
        }
        if str_eq(columns[i].name.as_str(), "_id") {
            return Some(i);
        }
        i += 1;
    }
    proof {
        assert(cols.skip(columns.len() as int).len() == 0);
    }
    None
}

/// Find the first column of the geometry type.
fn find_geom_col(columns: &Vec<PgColumn>) -> (r: Option<usize>)
    ensures
        match r {
            Some(i) => spec_find_geom(columns.deep_view()) == Some(i as int) && i < columns.len(),
            None => spec_find_geom(columns.deep_view()) is None,
        },
{
    let ghost cols = columns.deep_view();
    let mut i: usize = 0;
    proof {
        assert(cols.skip(0) =~= cols);
    }
    while i < columns.len()
        invariant
            cols == columns.deep_view(),
            i <= columns.len(),
            spec_find_geom(cols) == map_shift(spec_find_geom(cols.skip(i as int)), i as int),
        decreases columns.len() - i,
    {
        proof {
            assert(cols.skip(i as int)[0] == cols[i as int]);
            assert(cols.skip(i as int).skip(1) =~= cols.skip(i as int + 1));
        }
        if str_eq(columns[i].pg_type.as_str(), "geometry") {
            return Some(i);
        }
        i += 1;
    }
    proof {
        assert(cols.skip(columns.len() as int).len() == 0);
    }
    None
}

/// Shift a found index by an offset.
pub open spec fn map_shift(r: Option<int>, n: int) -> Option<int> {
    match r {
        Some(i) => Some(i + n),
        None => None,
    }
}

/// What filtering a one-column sequence gives.
proof fn lemma_filter_col_singleton(v: PgColumnView, pred: spec_fn(PgColumnView) -> bool)
    ensures
        seq![v].filter(pred) == if pred(v) {
            seq![v]
        } else {
            Seq::<PgColumnView>::empty()
        },
{
    reveal(Seq::filter);
    assert(seq![v].drop_last() =~= Seq::<PgColumnView>::empty());
    assert(Seq::<PgColumnView>::empty().filter(pred) =~= Seq::<PgColumnView>::empty());
    assert(Seq::<PgColumnView>::empty().push(v) =~= seq![v]);
}

/// The attribute list fragment: `, source."<name>"` for each forwarded
/// column.
pub open spec fn spec_extra_fragment(names: Seq<Seq<char>>) -> Seq<char>
    decreases names.len(),
{
    if names.len() == 0 {
        Seq::empty()
    } else {
        spec_extra_fragment(names.drop_last()) + ", source.\""@ + names.last() + "\""@
    }
}

/// The tile statement wrapped around a saved query: the tile envelope
/// parameters, the query as `source`, geometry clipped and packed as a
/// 4096-extent MVT layer named `data`, intersecting in the source
/// projection to use its index.
pub open spec fn spec_tile_query(query: Seq<char>, id: Seq<char>, geom: Seq<char>, extras: Seq<Seq<char>>) -> Seq<char> {
    "WITH params AS (SELECT $1::int AS z, $2::int AS x, $3::int AS y, ST_TileEnvelope($1, $2, $3) AS env_3857, ST_Transform(ST_TileEnvelope($1, $2, $3), 4326) AS env_4326), source AS ("@
        + query + "), tile_raw AS (SELECT \""@ + id
        + "\", ST_AsMVTGeom(ST_Transform(source.\""@ + geom
        + "\", 3857), params.env_3857, 4096, 256, TRUE) AS geom"@ + spec_extra_fragment(extras)
        + " FROM source CROSS JOIN params WHERE source.\""@ + geom
        + "\" && params.env_4326) SELECT ST_AsMVT(tile, 'data', 4096, 'geom', '"@ + id
        + "') AS mvt_tile FROM (SELECT * FROM tile_raw) AS tile;"@
}

/// Compose the tile statement for a saved query and a column plan.
/// The text is a pure function of the query and the plan, so the same
/// inputs always run the identical statement.
pub fn compose_tile_query(query: &str, plan: &TilePlan) -> (r: String)
    ensures
        r@ == spec_tile_query(
            query@,
            plan.id_column@,
            plan.geom_column@,
            plan.extra_columns.deep_view(),
        ),
{
    let ghost names = plan.extra_columns.deep_view();
    let mut out =
        "WITH params AS (SELECT $1::int AS z, $2::int AS x, $3::int AS y, ST_TileEnvelope($1, $2, $3) AS env_3857, ST_Transform(ST_TileEnvelope($1, $2, $3), 4326) AS env_4326), source AS (".to_owned();
    out.append(query);
    out.append("), tile_raw AS (SELECT \"");
    out.append(plan.id_column.as_str());
    out.append("\", ST_AsMVTGeom(ST_Transform(source.\"");
    out.append(plan.geom_column.as_str());
    out.append("\", 3857), params.env_3857, 4096, 256, TRUE) AS geom");
    let ghost mid = out@;
    let mut i: usize = 0;
    proof {
        assert(names.take(0) =~= Seq::<Seq<char>>::empty());
        assert(out@ =~= mid + spec_extra_fragment(names.take(0)));
    }
    while i < plan.extra_columns.len()
        invariant
            names == plan.extra_columns.deep_view(),
            i <= plan.extra_columns.len(),
            out@ == mid + spec_extra_fragment(names.take(i as int)),
        decreases plan.extra_columns.len() - i,
    {
        out.append(", source.\"");
        out.append(plan.extra_columns[i].as_str());
        out.append("\"");
        proof {
            let t1 = names.take(i as int + 1);
            assert(t1.drop_last() =~= names.take(i as int));
            assert(t1.last() == names[i as int]);
            assert(out@ =~= mid + spec_extra_fragment(t1));
        }
        i += 1;
    }
    proof {
        assert(names.take(plan.extra_columns.len() as int) =~= names);
    }
    out.append(" FROM source CROSS JOIN params WHERE source.\"");
    out.append(plan.geom_column.as_str());
    out.append("\" && params.env_4326) SELECT ST_AsMVT(tile, 'data', 4096, 'geom', '");
    out.append(plan.id_column.as_str());
    out.append("') AS mvt_tile FROM (SELECT * FROM tile_raw) AS tile;");
    proof {
        assert(out@ =~= spec_tile_query(
            query@,
            plan.id_column@,
            plan.geom_column@,
            plan.extra_columns.deep_view(),
        ));
    }
    out
}

/// The bounding-box aggregate wrapped around a saved query.
pub open spec fn spec_bbox_query(query: Seq<char>) -> Seq<char> {
    "WITH source AS ("@ + query
        + ") SELECT ST_XMin(extent) AS minx, ST_YMin(extent) AS miny, ST_XMax(extent) AS maxx, ST_YMax(extent) AS maxy FROM (SELECT ST_Extent(source.geom) AS extent FROM source) AS agg;"@
}

/// Compose the bounding-box aggregate for a saved query.
pub fn compose_bbox_query(query: &str) -> (r: String)
    ensures
        r@ == spec_bbox_query(query@),
{
    let mut out = concat_str("WITH source AS (", query);
    out.append(
        ") SELECT ST_XMin(extent) AS minx, ST_YMin(extent) AS miny, ST_XMax(extent) AS maxx, ST_YMax(extent) AS maxy FROM (SELECT ST_Extent(source.geom) AS extent FROM source) AS agg;",
    );
    proof {
        assert(out@ =~= spec_bbox_query(query@));
    }
    out
}

} // verus!
