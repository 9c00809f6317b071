use chatter::error::ChatterError;
use chatter::pg_helpers::PgColumn;
use chatter::tile::compose_bbox_query;
use chatter::tile::compose_tile_query;
use chatter::tile::plan_tile_query;

fn col(name: &str, pg_type: &str) -> PgColumn {
    PgColumn {
        name: name.to_string(),
        pg_type: pg_type.to_string(),
    }
}

// The saved point query of the tile-extraction scenario: the composed
// statement is a pure function of the query and the plan, so composing
// it twice gives the identical text.
#[test]
fn test_compose_tile_query_point() {
    let columns = vec![col("_id", "int4"), col("geom", "geometry")];
    let plan = plan_tile_query(&columns).unwrap();
    assert_eq!(plan.id_column, "_id");
    assert_eq!(plan.geom_column, "geom");
    assert!(plan.extra_columns.is_empty());

    let query = "SELECT 1 AS _id, ST_Point(139.76,35.68,4326) AS geom";
    let sql = compose_tile_query(query, &plan);
    let again = compose_tile_query(query, &plan_tile_query(&columns).unwrap());
    assert_eq!(sql, again);
    let expected = "WITH params AS (SELECT $1::int AS z, $2::int AS x, $3::int AS y, \
        ST_TileEnvelope($1, $2, $3) AS env_3857, \
        ST_Transform(ST_TileEnvelope($1, $2, $3), 4326) AS env_4326), \
        source AS (SELECT 1 AS _id, ST_Point(139.76,35.68,4326) AS geom), \
        tile_raw AS (SELECT \"_id\", \
        ST_AsMVTGeom(ST_Transform(source.\"geom\", 3857), params.env_3857, 4096, 256, TRUE) AS geom \
        FROM source CROSS JOIN params \
        WHERE source.\"geom\" && params.env_4326) \
        SELECT ST_AsMVT(tile, 'data', 4096, 'geom', '_id') AS mvt_tile \
        FROM (SELECT * FROM tile_raw) AS tile;";
    assert_eq!(sql, expected);
}

#[test]
fn test_compose_tile_query_forwards_attributes() {
    let columns = vec![
        col("_id", "int4"),
        col("name", "text"),
        col("population", "int8"),
        col("geom", "geometry"),
    ];
    let plan = plan_tile_query(&columns).unwrap();
    assert_eq!(plan.extra_columns, vec!["name".to_string(), "population".to_string()]);
    let sql = compose_tile_query("SELECT * FROM prefectures", &plan);
    assert!(sql.contains("AS geom, source.\"name\", source.\"population\" FROM source"));
}

#[test]
fn test_plan_requires_id_column() {
    let columns = vec![col("ogc_fid", "int4"), col("geom", "geometry")];
    match plan_tile_query(&columns) {
        Err(ChatterError::QueryError(m)) => assert_eq!(m, "No ID column found"),
        _ => panic!("expected the missing-id error"),
    }
}

#[test]
fn test_plan_requires_geometry_column() {
    let columns = vec![col("_id", "int4"), col("name", "text")];
    match plan_tile_query(&columns) {
        Err(ChatterError::QueryError(m)) => {
            assert_eq!(m, "No geometry column found in the query result.")
        }
        _ => panic!("expected the missing-geometry error"),
    }
}

#[test]
fn test_compose_bbox_query() {
    let sql = compose_bbox_query("SELECT 1 AS _id, ST_Point(139.76,35.68,4326) AS geom");
    let expected = "WITH source AS (SELECT 1 AS _id, ST_Point(139.76,35.68,4326) AS geom) \
        SELECT ST_XMin(extent) AS minx, ST_YMin(extent) AS miny, \
        ST_XMax(extent) AS maxx, ST_YMax(extent) AS maxy \
        FROM (SELECT ST_Extent(source.geom) AS extent FROM source) AS agg;";
    assert_eq!(sql, expected);
}
