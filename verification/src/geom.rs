//! Geometry values as the library sees them.
//!
//! Decoding WKB into geometry is the business of an outside decoder;
//! the library reads only which variant a value is, so a geometry cell
//! carries its variant here.

use vstd::prelude::*;

verus! {

/// The variant of a geometry value.
#[derive(Clone, Copy, Debug, PartialEq, Eq, Structural)]
pub enum GeometryKind {
    Point,
    LineString,
    Polygon,
    MultiPoint,
    MultiLineString,
    MultiPolygon,
    GeometryCollection,
    Line,
    Rect,
    Triangle,
}

/// The display name of a geometry variant.
pub open spec fn spec_variant_name(k: GeometryKind) -> Seq<char> {
    match k {
        GeometryKind::Point => "Point"@,
        GeometryKind::LineString => "LineString"@,
        GeometryKind::Polygon => "Polygon"@,
        GeometryKind::MultiPoint => "MultiPoint"@,
        GeometryKind::MultiLineString => "MultiLineString"@,
        GeometryKind::MultiPolygon => "MultiPolygon"@,
        GeometryKind::GeometryCollection => "GeometryCollection"@,
        GeometryKind::Line => "Line"@,
        GeometryKind::Rect => "Rect"@,
        GeometryKind::Triangle => "Triangle"@,
    }
}

impl GeometryKind {
    /// The display name of this variant.
    pub fn variant_name(&self) -> (r: &'static str)
        ensures
            r@ == spec_variant_name(*self),
    {
        match self {
            GeometryKind::Point => "Point",
            GeometryKind::LineString => "LineString",
            GeometryKind::Polygon => "Polygon",
            GeometryKind::MultiPoint => "MultiPoint",
            GeometryKind::MultiLineString => "MultiLineString",
            GeometryKind::MultiPolygon => "MultiPolygon",
            GeometryKind::GeometryCollection => "GeometryCollection",
            GeometryKind::Line => "Line",
            GeometryKind::Rect => "Rect",
            GeometryKind::Triangle => "Triangle",
        }
    }
}

} // verus!
