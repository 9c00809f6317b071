//! Rendering sampled rows as tab-separated text for the LLM.
//!
//! The reserved sampling column `__rn` is dropped; every other cell is
//! rendered best-effort: text, integers and booleans as themselves, a
//! geometry as its variant name, a null as the literal `NULL`, and
//! anything else as `unsupported`.

use vstd::prelude::*;
use crate::codec::str_eq;
use crate::decimal::format_i64;
use crate::decimal::spec_i64_string;
use crate::geom::spec_variant_name;
use crate::pg_helpers::PgCell;
use crate::pg_helpers::PgCellView;
use crate::pg_helpers::PgColumn;
use crate::pg_helpers::PgColumnView;
use crate::pg_helpers::QuerySample;
use crate::pg_helpers::QuerySampleView;

verus! {

/// The best-effort text of one cell.
pub open spec fn spec_cell_string(c: PgCellView) -> Seq<char> {
    match c {
        PgCellView::Null => "NULL"@,
        PgCellView::Text(s) => s,
        PgCellView::I32(v) => spec_i64_string(v as i64),
        PgCellView::I64(v) => spec_i64_string(v),
        PgCellView::Float(s) => s,
        PgCellView::Bool(b) => if b {
            "true"@
        } else {
            "false"@
        },
        PgCellView::Geometry(k) => spec_variant_name(k),
        PgCellView::Numeric(_) => "unsupported"@,
        PgCellView::Json(_) => "unsupported"@,
        PgCellView::Unsupported => "unsupported"@,
    }
}

/// Render one cell best-effort.
pub fn col_to_string(c: &PgCell) -> (r: String)
    ensures
        r@ == spec_cell_string(c.deep_view()),
{
    match c {
        PgCell::Null => "NULL".to_owned(),
        PgCell::Text(s) => s.clone(),
        PgCell::I32(v) => format_i64(*v as i64),
        PgCell::I64(v) => format_i64(*v),
        PgCell::Float(s) => s.clone(),
        PgCell::Bool(b) => if *b {
            "true".to_owned()
        } else {
            "false".to_owned()
        },
        PgCell::Geometry(k) => k.variant_name().to_owned(),
        PgCell::Numeric(_) => "unsupported".to_owned(),
        PgCell::Json(_) => "unsupported".to_owned(),
        PgCell::Unsupported => "unsupported".to_owned(),
    }
}

/// Join text parts with tab characters.
pub open spec fn join_tabs(parts: Seq<Seq<char>>) -> Seq<char>
    decreases parts.len(),
{
    if parts.len() == 0 {
        Seq::empty()
    } else if parts.len() == 1 {
        parts[0]
    } else {
        parts[0] + seq!['\t'] + join_tabs(parts.skip(1))
    }
}

/// Appending one more part appends a tab and the part, once any part
/// is there.
proof fn lemma_join_tabs_push(parts: Seq<Seq<char>>, x: Seq<char>)
    requires
        parts.len() > 0,
    ensures
        join_tabs(parts.push(x)) == join_tabs(parts) + seq!['\t'] + x,
    decreases parts.len(),
{
    if parts.len() == 1 {
        assert(parts.push(x).skip(1) =~= seq![x]);
        assert(join_tabs(seq![x]) == x);
        assert(join_tabs(parts.push(x)) == parts[0] + seq!['\t'] + x);
    } else {
        lemma_join_tabs_push(parts.skip(1), x);
        assert(parts.push(x).skip(1) =~= parts.skip(1).push(x));
        assert(join_tabs(parts.push(x)) == parts[0] + seq!['\t'] + (join_tabs(parts.skip(1))
            + seq!['\t'] + x));
        assert(parts[0] + seq!['\t'] + (join_tabs(parts.skip(1)) + seq!['\t'] + x) =~= (parts[0]
            + seq!['\t'] + join_tabs(parts.skip(1))) + seq!['\t'] + x);
    }
}

/// Join text parts with tab characters.
pub fn join_with_tabs(parts: &Vec<String>) -> (r: String)
    ensures
        r@ == join_tabs(parts.deep_view()),
{
    let ghost all = parts.deep_view();
    let mut out = String::new();
    let mut i: usize = 0;
    while i < parts.len()
        invariant
            all == parts.deep_view(),
            i <= parts.len(),
            out@ == join_tabs(all.take(i as int)),
        decreases parts.len() - i,
    {
        if i > 0 {
            out.append("\t");
            proof {
                reveal_strlit("\t");
            }
        }
        out.append(parts[i].as_str());
        proof {
            let t0 = all.take(i as int);
            let t1 = all.take(i as int + 1);
            assert(t1 =~= t0.push(all[i as int]));
            if i > 0 {
                lemma_join_tabs_push(t0, all[i as int]);
                assert("\t"@ =~= seq!['\t']);
                assert(out@ =~= join_tabs(t1));
            } else {
                assert(t1 =~= seq![all[0]]);
                assert(out@ =~= join_tabs(t1));
            }
        }
        i += 1;
    }
    proof {
        assert(all.take(parts.len() as int) =~= all);
    }
    out
}

/// The reserved sampling column, dropped from every rendering.
pub open spec fn spec_is_reserved(name: Seq<char>) -> bool {
    name == "__rn"@
}

/// The header parts: the names of the kept columns, in order.
pub open spec fn spec_header_parts(columns: Seq<PgColumnView>) -> Seq<Seq<char>>
    decreases columns.len(),
{
    if columns.len() == 0 {
        Seq::empty()
    } else {
        (if spec_is_reserved(columns[0].name) {
            Seq::empty()
        } else {
            seq![columns[0].name]
        }) + spec_header_parts(columns.skip(1))
    }
}

/// The cell parts of one row: the rendered cells of kept columns, in
/// order; cells beyond the column list are ignored.
pub open spec fn spec_row_parts(columns: Seq<PgColumnView>, row: Seq<PgCellView>) -> Seq<
    Seq<char>,
>
    decreases columns.len(),
{
    if columns.len() == 0 || row.len() == 0 {
        Seq::empty()
    } else {
        (if spec_is_reserved(columns[0].name) {
            Seq::empty()
        } else {
            seq![spec_cell_string(row[0])]
        }) + spec_row_parts(columns.skip(1), row.skip(1))
    }
}

/// The rendered lines of the data rows, each ending in a newline.
pub open spec fn spec_tsv_lines(columns: Seq<PgColumnView>, rows: Seq<Seq<PgCellView>>) -> Seq<
    char,
>
    decreases rows.len(),
{
    if rows.len() == 0 {
        Seq::empty()
    } else {
        join_tabs(spec_row_parts(columns, rows[0])) + seq!['\n'] + spec_tsv_lines(
            columns,
            rows.skip(1),
        )
    }
}

/// One more row appends its line.
proof fn lemma_tsv_lines_push(
    columns: Seq<PgColumnView>,
    rows: Seq<Seq<PgCellView>>,
    row: Seq<PgCellView>,
)
    ensures
        spec_tsv_lines(columns, rows.push(row)) == spec_tsv_lines(columns, rows) + join_tabs(
            spec_row_parts(columns, row),
        ) + seq!['\n'],
    decreases rows.len(),
{
    if rows.len() == 0 {
        assert(rows.push(row)[0] == row);
        assert(rows.push(row).skip(1) =~= rows);
        assert(spec_tsv_lines(columns, rows) =~= Seq::<char>::empty());
        assert(spec_tsv_lines(columns, rows.push(row)) == join_tabs(spec_row_parts(columns, row))
            + seq!['\n'] + spec_tsv_lines(columns, rows));
        assert(join_tabs(spec_row_parts(columns, row)) + seq!['\n'] + Seq::<char>::empty()
            =~= Seq::<char>::empty() + join_tabs(spec_row_parts(columns, row)) + seq!['\n']);
    } else {
        lemma_tsv_lines_push(columns, rows.skip(1), row);
        assert(rows.push(row).skip(1) =~= rows.skip(1).push(row));
        assert(join_tabs(spec_row_parts(columns, rows[0])) + seq!['\n'] + (spec_tsv_lines(
            columns,
            rows.skip(1),
        ) + join_tabs(spec_row_parts(columns, row)) + seq!['\n']) =~= (join_tabs(
            spec_row_parts(columns, rows[0]),
        ) + seq!['\n'] + spec_tsv_lines(columns, rows.skip(1))) + join_tabs(
            spec_row_parts(columns, row),
        ) + seq!['\n']);
    }
}

/// The whole rendering: the header line, then one line per row; an
/// empty sample renders as a fixed sentence.
pub open spec fn spec_rows_to_tsv(s: QuerySampleView) -> Seq<char> {
    if s.rows.len() == 0 {
        "Empty result set."@
    } else {
        join_tabs(spec_header_parts(s.columns)) + seq!['\n'] + spec_tsv_lines(s.columns, s.rows)
    }
}

/// The header parts of the kept columns.
fn header_parts(columns: &Vec<PgColumn>) -> (r: Vec<String>)
    ensures
        r.deep_view() == spec_header_parts(columns.deep_view()),
{
    let ghost all = columns.deep_view();
    let mut out: Vec<String> = Vec::new();
    let mut i: usize = 0;
    proof {
        assert(all.skip(0) =~= all);
        assert(out.deep_view() + spec_header_parts(all) =~= spec_header_parts(all));
    }
    while i < columns.len()
        invariant
            all == columns.deep_view(),
            i <= columns.len(),
            out.deep_view() + spec_header_parts(all.skip(i as int)) =~= spec_header_parts(all),
        decreases columns.len() - i,
    {
        let ghost pre = out.deep_view();
        if !str_eq(columns[i].name.as_str(), "__rn") {
            out.push(columns[i].name.clone());
            proof {
                assert(out.deep_view() =~= pre.push(all[i as int].name));
            }
        }
        proof {
            assert(all.skip(i as int).skip(1) =~= all.skip(i as int + 1));
            assert(all.skip(i as int)[0] == all[i as int]);
            if spec_is_reserved(all[i as int].name) {
                assert(spec_header_parts(all.skip(i as int)) =~= spec_header_parts(
                    all.skip(i as int + 1),
                ));
            } else {
                assert(spec_header_parts(all.skip(i as int)) =~= seq![all[i as int].name]
                    + spec_header_parts(all.skip(i as int + 1)));
                assert(out.deep_view() + spec_header_parts(all.skip(i as int + 1)) =~= pre + (seq![
                    all[i as int].name,
                ] + spec_header_parts(all.skip(i as int + 1))));
            }
        }
        i += 1;
    }
    proof {
        assert(all.skip(columns.len() as int) =~= Seq::<PgColumnView>::empty());
        assert(out.deep_view() + Seq::<Seq<char>>::empty() =~= out.deep_view());
    }
    out
}

/// The rendered cell parts of one row.
fn row_parts(columns: &Vec<PgColumn>, row: &Vec<PgCell>) -> (r: Vec<String>)
    ensures
        r.deep_view() == spec_row_parts(columns.deep_view(), row.deep_view()),
{
    let ghost cs = columns.deep_view();
    let ghost rw = row.deep_view();
    let n = if columns.len() < row.len() {
        columns.len()
    } else {
        row.len()
    };
    let mut out: Vec<String> = Vec::new();
    let mut i: usize = 0;
    proof {
        assert(cs.skip(0) =~= cs);
        assert(rw.skip(0) =~= rw);
        assert(out.deep_view() + spec_row_parts(cs, rw) =~= spec_row_parts(cs, rw));
    }
    while i < n
        invariant
            cs == columns.deep_view(),
            rw == row.deep_view(),
            n == if columns.len() < row.len() {
                columns.len()
            } else {
                row.len()
            },
            i <= n,
            out.deep_view() + spec_row_parts(cs.skip(i as int), rw.skip(i as int))
                =~= spec_row_parts(cs, rw),
        decreases n - i,
    {
        let ghost pre = out.deep_view();
        if !str_eq(columns[i].name.as_str(), "__rn") {
            let cell = col_to_string(&row[i]);
            out.push(cell);
            proof {
                assert(out.deep_view() =~= pre.push(spec_cell_string(rw[i as int])));
            }
        }
        proof {
            assert(cs.skip(i as int).skip(1) =~= cs.skip(i as int + 1));
            assert(rw.skip(i as int).skip(1) =~= rw.skip(i as int + 1));
            assert(cs.skip(i as int)[0] == cs[i as int]);
            assert(rw.skip(i as int)[0] == rw[i as int]);
            if spec_is_reserved(cs[i as int].name) {
                assert(spec_row_parts(cs.skip(i as int), rw.skip(i as int)) =~= spec_row_parts(
                    cs.skip(i as int + 1),
                    rw.skip(i as int + 1),
                ));
            } else {
                assert(spec_row_parts(cs.skip(i as int), rw.skip(i as int)) =~= seq![
                    spec_cell_string(rw[i as int]),
                ] + spec_row_parts(cs.skip(i as int + 1), rw.skip(i as int + 1)));
                assert(out.deep_view() + spec_row_parts(cs.skip(i as int + 1), rw.skip(i as int + 1))
                    =~= pre + (seq![spec_cell_string(rw[i as int])] + spec_row_parts(
                    cs.skip(i as int + 1),
                    rw.skip(i as int + 1),
                )));
            }
        }
        i += 1;
    }
    proof {
        assert(cs.skip(n as int).len() == 0 || rw.skip(n as int).len() == 0);
        assert(spec_row_parts(cs.skip(n as int), rw.skip(n as int)) =~= Seq::<Seq<char>>::empty());
        assert(out.deep_view() + Seq::<Seq<char>>::empty() =~= out.deep_view());
    }
    out
}

/// Render a sample as tab-separated text: the kept column names as a
/// header line, then each row's kept cells, best-effort.
pub fn rows_to_tsv(sample: &QuerySample) -> (r: String)
    ensures
        r@ == spec_rows_to_tsv(sample.deep_view()),
{
    let ghost cs = sample.columns.deep_view();
    let ghost rws = sample.rows.deep_view();
    if sample.rows.len() == 0 {
        return "Empty result set.".to_owned();
    }
    let headers = header_parts(&sample.columns);
    let mut out = join_with_tabs(&headers);
    out.append("\n");
    proof {
        reveal_strlit("\n");
        assert(out@ =~= join_tabs(spec_header_parts(cs)) + seq!['\n'] + spec_tsv_lines(
            cs,
            rws.take(0),
        ));
    }
    let mut i: usize = 0;
    while i < sample.rows.len()
        invariant
            cs == sample.columns.deep_view(),
            rws == sample.rows.deep_view(),
            i <= sample.rows.len(),
            out@ == join_tabs(spec_header_parts(cs)) + seq!['\n'] + spec_tsv_lines(
                cs,
                rws.take(i as int),
            ),
        decreases sample.rows.len() - i,
    {
        let parts = row_parts(&sample.columns, &sample.rows[i]);
        let line = join_with_tabs(&parts);
        out.append(line.as_str());
        out.append("\n");
        proof {
            reveal_strlit("\n");
            assert(rws.take(i as int + 1) =~= rws.take(i as int).push(rws[i as int]));
            lemma_tsv_lines_push(cs, rws.take(i as int), rws[i as int]);
            assert(out@ =~= join_tabs(spec_header_parts(cs)) + seq!['\n'] + spec_tsv_lines(
                cs,
                rws.take(i as int + 1),
            ));
        }
        i += 1;
    }
    proof {
        assert(rws.take(sample.rows.len() as int) =~= rws);
    }
    out
}

} // verus!
