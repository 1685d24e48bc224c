//! Describing spatial data files: readable names of OGR field and geometry
//! types, the format of a file from its extension, and the description of a
//! file from what was read of it.
use crate::models::{opt_view, strings_view, FieldInfo, FileInfo, SpatialRefInfo};
use crate::text::{digits_of, has_substring, push_char, str_eq, u64_to_decimal};
use vstd::prelude::*;

verus! {

/// The readable name of an OGR field type code (`OGRFieldType`).
pub open spec fn field_type_text(ty: u32) -> Seq<char> {
    if ty == 4 {
        "String"@
    } else if ty == 0 {
        "Integer"@
    } else if ty == 1 {
        "IntegerList"@
    } else if ty == 2 {
        "Real"@
    } else if ty == 3 {
        "RealList"@
    } else if ty == 5 {
        "StringList"@
    } else if ty == 6 {
        "WideString"@
    } else if ty == 7 {
        "WideStringList"@
    } else if ty == 8 {
        "Binary"@
    } else if ty == 9 {
        "Date"@
    } else if ty == 10 {
        "Time"@
    } else if ty == 11 {
        "DateTime"@
    } else if ty == 12 {
        "Integer64"@
    } else if ty == 13 {
        "Integer64List"@
    } else {
        "Unknown("@ + digits_of(ty as nat) + seq![')']
    }
}

/// Readable name of an OGR field type code; unknown codes read `Unknown(<code>)`.
pub fn field_type_name(ty: u32) -> (r: String)
    ensures
        r@ == field_type_text(ty),
{
    match ty {
        4 => String::from_str("String"),
        0 => String::from_str("Integer"),
        1 => String::from_str("IntegerList"),
        2 => String::from_str("Real"),
        3 => String::from_str("RealList"),
        5 => String::from_str("StringList"),
        6 => String::from_str("WideString"),
        7 => String::from_str("WideStringList"),
        8 => String::from_str("Binary"),
        9 => String::from_str("Date"),
        10 => String::from_str("Time"),
        11 => String::from_str("DateTime"),
        12 => String::from_str("Integer64"),
        13 => String::from_str("Integer64List"),
        _ => {
            let mut s = String::from_str("Unknown(");
            let d = u64_to_decimal(ty as u64);
            s.append(d.as_str());
            push_char(&mut s, ')');
            s
        },
    }
}

/// The readable name of an OGR geometry type code (`OGRwkbGeometryType`).
pub open spec fn geometry_type_text(ty: u32) -> Seq<char> {
    if ty == 1 {
        "Point"@
    } else if ty == 2 {
        "LineString"@
    } else if ty == 3 {
        "Polygon"@
    } else if ty == 4 {
        "MultiPoint"@
    } else if ty == 5 {
        "MultiLineString"@
    } else if ty == 6 {
        "MultiPolygon"@
    } else if ty == 7 {
        "GeometryCollection"@
    } else if ty == 8 {
        "CircularString"@
    } else if ty == 9 {
        "CompoundCurve"@
    } else if ty == 10 {
        "CurvePolygon"@
    } else if ty == 11 {
        "MultiCurve"@
    } else if ty == 12 {
        "MultiSurface"@
    } else if ty == 13 {
        "Curve"@
    } else if ty == 14 {
        "Surface"@
    } else if ty == 15 {
        "PolyhedralSurface"@
    } else if ty == 16 {
        "TIN"@
    } else if ty == 17 {
        "Triangle"@
    } else if ty == 100 {
        "None"@
    } else if ty == 0 {
        "Unknown"@
    } else {
        "Unknown("@ + digits_of(ty as nat) + seq![')']
    }
}

/// Readable name of an OGR geometry type code; unknown codes read `Unknown(<code>)`.
pub fn geometry_type_name(ty: u32) -> (r: String)
    ensures
        r@ == geometry_type_text(ty),
{
    match ty {
        1 => String::from_str("Point"),
        2 => String::from_str("LineString"),
        3 => String::from_str("Polygon"),
        4 => String::from_str("MultiPoint"),
        5 => String::from_str("MultiLineString"),
        6 => String::from_str("MultiPolygon"),
        7 => String::from_str("GeometryCollection"),
        8 => String::from_str("CircularString"),
        9 => String::from_str("CompoundCurve"),
        10 => String::from_str("CurvePolygon"),
        11 => String::from_str("MultiCurve"),
        12 => String::from_str("MultiSurface"),
        13 => String::from_str("Curve"),
        14 => String::from_str("Surface"),
        15 => String::from_str("PolyhedralSurface"),
        16 => String::from_str("TIN"),
        17 => String::from_str("Triangle"),
        100 => String::from_str("None"),
        0 => String::from_str("Unknown"),
        _ => {
            let mut s = String::from_str("Unknown(");
            let d = u64_to_decimal(ty as u64);
            s.append(d.as_str());
            push_char(&mut s, ')');
            s
        },
    }
}

/// Whether `c` is a geometry type code that OGR defines (and this library names).
pub open spec fn known_geometry_code(c: u32) -> bool {
    c == 0 || c == 1 || c == 2 || c == 3 || c == 4 || c == 5 || c == 6 || c == 7 || c == 8 || c == 9 || c == 10 || c == 11 || c == 12 || c == 13 || c == 14 || c == 15 || c == 16 || c == 17 || c == 100
}

/// Distinct geometry_type codes that OGR defines get distinct names, each the OGR
/// name of the code.
pub proof fn law_geometry_type_names_distinct(a: u32, b: u32)
    requires
        known_geometry_code(a),
        known_geometry_code(b),
        a != b,
    ensures
        geometry_type_text(a) != geometry_type_text(b),
        geometry_type_text(0) == "Unknown"@,
        geometry_type_text(1) == "Point"@,
        geometry_type_text(2) == "LineString"@,
        geometry_type_text(3) == "Polygon"@,
        geometry_type_text(4) == "MultiPoint"@,
        geometry_type_text(5) == "MultiLineString"@,
        geometry_type_text(6) == "MultiPolygon"@,
        geometry_type_text(7) == "GeometryCollection"@,
        geometry_type_text(8) == "CircularString"@,
        geometry_type_text(9) == "CompoundCurve"@,
        geometry_type_text(10) == "CurvePolygon"@,
        geometry_type_text(11) == "MultiCurve"@,
        geometry_type_text(12) == "MultiSurface"@,
        geometry_type_text(13) == "Curve"@,
        geometry_type_text(14) == "Surface"@,
        geometry_type_text(15) == "PolyhedralSurface"@,
        geometry_type_text(16) == "TIN"@,
        geometry_type_text(17) == "Triangle"@,
        geometry_type_text(100) == "None"@,
{
    reveal_strlit("CircularString");
    reveal_strlit("CompoundCurve");
    reveal_strlit("Curve");
    reveal_strlit("CurvePolygon");
    reveal_strlit("GeometryCollection");
    reveal_strlit("LineString");
    reveal_strlit("MultiCurve");
    reveal_strlit("MultiLineString");
    reveal_strlit("MultiPoint");
    reveal_strlit("MultiPolygon");
    reveal_strlit("MultiSurface");
    reveal_strlit("None");
    reveal_strlit("Point");
    reveal_strlit("Polygon");
    reveal_strlit("PolyhedralSurface");
    reveal_strlit("Surface");
    reveal_strlit("TIN");
    reveal_strlit("Triangle");
    reveal_strlit("Unknown");
    assert("CircularString"@.len() != "CompoundCurve"@.len());
    assert("CircularString"@.len() != "Curve"@.len());
    assert("CircularString"@.len() != "CurvePolygon"@.len());
    assert("CircularString"@.len() != "GeometryCollection"@.len());
    assert("CircularString"@.len() != "LineString"@.len());
    assert("CircularString"@.len() != "MultiCurve"@.len());
    assert("CircularString"@.len() != "MultiLineString"@.len());
    assert("CircularString"@.len() != "MultiPoint"@.len());
    assert("CircularString"@.len() != "MultiPolygon"@.len());
    assert("CircularString"@.len() != "MultiSurface"@.len());
    assert("CircularString"@.len() != "None"@.len());
    assert("CircularString"@.len() != "Point"@.len());
    assert("CircularString"@.len() != "Polygon"@.len());
    assert("CircularString"@.len() != "PolyhedralSurface"@.len());
    assert("CircularString"@.len() != "Surface"@.len());
    assert("CircularString"@.len() != "TIN"@.len());
    assert("CircularString"@.len() != "Triangle"@.len());
    assert("CircularString"@.len() != "Unknown"@.len());
    assert("CompoundCurve"@.len() != "Curve"@.len());
    assert("CompoundCurve"@.len() != "CurvePolygon"@.len());
    assert("CompoundCurve"@.len() != "GeometryCollection"@.len());
    assert("CompoundCurve"@.len() != "LineString"@.len());
    assert("CompoundCurve"@.len() != "MultiCurve"@.len());
    assert("CompoundCurve"@.len() != "MultiLineString"@.len());
    assert("CompoundCurve"@.len() != "MultiPoint"@.len());
    assert("CompoundCurve"@.len() != "MultiPolygon"@.len());
    assert("CompoundCurve"@.len() != "MultiSurface"@.len());
    assert("CompoundCurve"@.len() != "None"@.len());
    assert("CompoundCurve"@.len() != "Point"@.len());
    assert("CompoundCurve"@.len() != "Polygon"@.len());
    assert("CompoundCurve"@.len() != "PolyhedralSurface"@.len());
    assert("CompoundCurve"@.len() != "Surface"@.len());
    assert("CompoundCurve"@.len() != "TIN"@.len());
    assert("CompoundCurve"@.len() != "Triangle"@.len());
    assert("CompoundCurve"@.len() != "Unknown"@.len());
    assert("Curve"@.len() != "CurvePolygon"@.len());
    assert("Curve"@.len() != "GeometryCollection"@.len());
    assert("Curve"@.len() != "LineString"@.len());
    assert("Curve"@.len() != "MultiCurve"@.len());
    assert("Curve"@.len() != "MultiLineString"@.len());
    assert("Curve"@.len() != "MultiPoint"@.len());
    assert("Curve"@.len() != "MultiPolygon"@.len());
    assert("Curve"@.len() != "MultiSurface"@.len());
    assert("Curve"@.len() != "None"@.len());
    assert("Curve"@[0] != "Point"@[0]);
    assert("Curve"@.len() != "Polygon"@.len());
    assert("Curve"@.len() != "PolyhedralSurface"@.len());
    assert("Curve"@.len() != "Surface"@.len());
    assert("Curve"@.len() != "TIN"@.len());
    assert("Curve"@.len() != "Triangle"@.len());
    assert("Curve"@.len() != "Unknown"@.len());
    assert("CurvePolygon"@.len() != "GeometryCollection"@.len());
    assert("CurvePolygon"@.len() != "LineString"@.len());
    assert("CurvePolygon"@.len() != "MultiCurve"@.len());
    assert("CurvePolygon"@.len() != "MultiLineString"@.len());
    assert("CurvePolygon"@.len() != "MultiPoint"@.len());
    assert("CurvePolygon"@[0] != "MultiPolygon"@[0]);
    assert("CurvePolygon"@[0] != "MultiSurface"@[0]);
    assert("CurvePolygon"@.len() != "None"@.len());
    assert("CurvePolygon"@.len() != "Point"@.len());
    assert("CurvePolygon"@.len() != "Polygon"@.len());
    assert("CurvePolygon"@.len() != "PolyhedralSurface"@.len());
    assert("CurvePolygon"@.len() != "Surface"@.len());
    assert("CurvePolygon"@.len() != "TIN"@.len());
    assert("CurvePolygon"@.len() != "Triangle"@.len());
    assert("CurvePolygon"@.len() != "Unknown"@.len());
    assert("GeometryCollection"@.len() != "LineString"@.len());
    assert("GeometryCollection"@.len() != "MultiCurve"@.len());
    assert("GeometryCollection"@.len() != "MultiLineString"@.len());
    assert("GeometryCollection"@.len() != "MultiPoint"@.len());
    assert("GeometryCollection"@.len() != "MultiPolygon"@.len());
    assert("GeometryCollection"@.len() != "MultiSurface"@.len());
    assert("GeometryCollection"@.len() != "None"@.len());
    assert("GeometryCollection"@.len() != "Point"@.len());
    assert("GeometryCollection"@.len() != "Polygon"@.len());
    assert("GeometryCollection"@.len() != "PolyhedralSurface"@.len());
    assert("GeometryCollection"@.len() != "Surface"@.len());
    assert("GeometryCollection"@.len() != "TIN"@.len());
    assert("GeometryCollection"@.len() != "Triangle"@.len());
    assert("GeometryCollection"@.len() != "Unknown"@.len());
    assert("LineString"@[0] != "MultiCurve"@[0]);
    assert("LineString"@.len() != "MultiLineString"@.len());
    assert("LineString"@[0] != "MultiPoint"@[0]);
    assert("LineString"@.len() != "MultiPolygon"@.len());
    assert("LineString"@.len() != "MultiSurface"@.len());
    assert("LineString"@.len() != "None"@.len());
    assert("LineString"@.len() != "Point"@.len());
    assert("LineString"@.len() != "Polygon"@.len());
    assert("LineString"@.len() != "PolyhedralSurface"@.len());
    assert("LineString"@.len() != "Surface"@.len());
    assert("LineString"@.len() != "TIN"@.len());
    assert("LineString"@.len() != "Triangle"@.len());
    assert("LineString"@.len() != "Unknown"@.len());
    assert("MultiCurve"@.len() != "MultiLineString"@.len());
    assert("MultiCurve"@[5] != "MultiPoint"@[5]);
    assert("MultiCurve"@.len() != "MultiPolygon"@.len());
    assert("MultiCurve"@.len() != "MultiSurface"@.len());
    assert("MultiCurve"@.len() != "None"@.len());
    assert("MultiCurve"@.len() != "Point"@.len());
    assert("MultiCurve"@.len() != "Polygon"@.len());
    assert("MultiCurve"@.len() != "PolyhedralSurface"@.len());
    assert("MultiCurve"@.len() != "Surface"@.len());
    assert("MultiCurve"@.len() != "TIN"@.len());
    assert("MultiCurve"@.len() != "Triangle"@.len());
    assert("MultiCurve"@.len() != "Unknown"@.len());
    assert("MultiLineString"@.len() != "MultiPoint"@.len());
    assert("MultiLineString"@.len() != "MultiPolygon"@.len());
    assert("MultiLineString"@.len() != "MultiSurface"@.len());
    assert("MultiLineString"@.len() != "None"@.len());
    assert("MultiLineString"@.len() != "Point"@.len());
    assert("MultiLineString"@.len() != "Polygon"@.len());
    assert("MultiLineString"@.len() != "PolyhedralSurface"@.len());
    assert("MultiLineString"@.len() != "Surface"@.len());
    assert("MultiLineString"@.len() != "TIN"@.len());
    assert("MultiLineString"@.len() != "Triangle"@.len());
    assert("MultiLineString"@.len() != "Unknown"@.len());
    assert("MultiPoint"@.len() != "MultiPolygon"@.len());
    assert("MultiPoint"@.len() != "MultiSurface"@.len());
    assert("MultiPoint"@.len() != "None"@.len());
    assert("MultiPoint"@.len() != "Point"@.len());
    assert("MultiPoint"@.len() != "Polygon"@.len());
    assert("MultiPoint"@.len() != "PolyhedralSurface"@.len());
    assert("MultiPoint"@.len() != "Surface"@.len());
    assert("MultiPoint"@.len() != "TIN"@.len());
    assert("MultiPoint"@.len() != "Triangle"@.len());
    assert("MultiPoint"@.len() != "Unknown"@.len());
    assert("MultiPolygon"@[5] != "MultiSurface"@[5]);
    assert("MultiPolygon"@.len() != "None"@.len());
    assert("MultiPolygon"@.len() != "Point"@.len());
    assert("MultiPolygon"@.len() != "Polygon"@.len());
    assert("MultiPolygon"@.len() != "PolyhedralSurface"@.len());
    assert("MultiPolygon"@.len() != "Surface"@.len());
    assert("MultiPolygon"@.len() != "TIN"@.len());
    assert("MultiPolygon"@.len() != "Triangle"@.len());
    assert("MultiPolygon"@.len() != "Unknown"@.len());
    assert("MultiSurface"@.len() != "None"@.len());
    assert("MultiSurface"@.len() != "Point"@.len());
    assert("MultiSurface"@.len() != "Polygon"@.len());
    assert("MultiSurface"@.len() != "PolyhedralSurface"@.len());
    assert("MultiSurface"@.len() != "Surface"@.len());
    assert("MultiSurface"@.len() != "TIN"@.len());
    assert("MultiSurface"@.len() != "Triangle"@.len());
    assert("MultiSurface"@.len() != "Unknown"@.len());
    assert("None"@.len() != "Point"@.len());
    assert("None"@.len() != "Polygon"@.len());
    assert("None"@.len() != "PolyhedralSurface"@.len());
    assert("None"@.len() != "Surface"@.len());
    assert("None"@.len() != "TIN"@.len());
    assert("None"@.len() != "Triangle"@.len());
    assert("None"@.len() != "Unknown"@.len());
    assert("Point"@.len() != "Polygon"@.len());
    assert("Point"@.len() != "PolyhedralSurface"@.len());
    assert("Point"@.len() != "Surface"@.len());
    assert("Point"@.len() != "TIN"@.len());
    assert("Point"@.len() != "Triangle"@.len());
    assert("Point"@.len() != "Unknown"@.len());
    assert("Polygon"@.len() != "PolyhedralSurface"@.len());
    assert("Polygon"@[0] != "Surface"@[0]);
    assert("Polygon"@.len() != "TIN"@.len());
    assert("Polygon"@.len() != "Triangle"@.len());
    assert("Polygon"@[0] != "Unknown"@[0]);
    assert("PolyhedralSurface"@.len() != "Surface"@.len());
    assert("PolyhedralSurface"@.len() != "TIN"@.len());
    assert("PolyhedralSurface"@.len() != "Triangle"@.len());
    assert("PolyhedralSurface"@.len() != "Unknown"@.len());
    assert("Surface"@.len() != "TIN"@.len());
    assert("Surface"@.len() != "Triangle"@.len());
    assert("Surface"@[0] != "Unknown"@[0]);
    assert("TIN"@.len() != "Triangle"@.len());
    assert("TIN"@.len() != "Unknown"@.len());
    assert("Triangle"@.len() != "Unknown"@.len());
}

/// Whether `c` is a field type code that OGR defines.
pub open spec fn known_field_code(c: u32) -> bool {
    c == 0 || c == 1 || c == 2 || c == 3 || c == 4 || c == 5 || c == 6 || c == 7 || c == 8 || c == 9 || c == 10 || c == 11 || c == 12 || c == 13
}

/// Distinct field_type codes that OGR defines get distinct names, each the OGR
/// name of the code.
pub proof fn law_field_type_names_distinct(a: u32, b: u32)
    requires
        known_field_code(a),
        known_field_code(b),
        a != b,
    ensures
        field_type_text(a) != field_type_text(b),
        field_type_text(0) == "Integer"@,
        field_type_text(1) == "IntegerList"@,
        field_type_text(2) == "Real"@,
        field_type_text(3) == "RealList"@,
        field_type_text(4) == "String"@,
        field_type_text(5) == "StringList"@,
        field_type_text(6) == "WideString"@,
        field_type_text(7) == "WideStringList"@,
        field_type_text(8) == "Binary"@,
        field_type_text(9) == "Date"@,
        field_type_text(10) == "Time"@,
        field_type_text(11) == "DateTime"@,
        field_type_text(12) == "Integer64"@,
        field_type_text(13) == "Integer64List"@,
{
    reveal_strlit("Binary");
    reveal_strlit("Date");
    reveal_strlit("DateTime");
    reveal_strlit("Integer");
    reveal_strlit("Integer64");
    reveal_strlit("Integer64List");
    reveal_strlit("IntegerList");
    reveal_strlit("Real");
    reveal_strlit("RealList");
    reveal_strlit("String");
    reveal_strlit("StringList");
    reveal_strlit("Time");
    reveal_strlit("WideString");
    reveal_strlit("WideStringList");
    assert("Binary"@.len() != "Date"@.len());
    assert("Binary"@.len() != "DateTime"@.len());
    assert("Binary"@.len() != "Integer"@.len());
    assert("Binary"@.len() != "Integer64"@.len());
    assert("Binary"@.len() != "Integer64List"@.len());
    assert("Binary"@.len() != "IntegerList"@.len());
    assert("Binary"@.len() != "Real"@.len());
    assert("Binary"@.len() != "RealList"@.len());
    assert("Binary"@[0] != "String"@[0]);
    assert("Binary"@.len() != "StringList"@.len());
    assert("Binary"@.len() != "Time"@.len());
    assert("Binary"@.len() != "WideString"@.len());
    assert("Binary"@.len() != "WideStringList"@.len());
    assert("Date"@.len() != "DateTime"@.len());
    assert("Date"@.len() != "Integer"@.len());
    assert("Date"@.len() != "Integer64"@.len());
    assert("Date"@.len() != "Integer64List"@.len());
    assert("Date"@.len() != "IntegerList"@.len());
    assert("Date"@[0] != "Real"@[0]);
    assert("Date"@.len() != "RealList"@.len());
    assert("Date"@.len() != "String"@.len());
    assert("Date"@.len() != "StringList"@.len());
    assert("Date"@[0] != "Time"@[0]);
    assert("Date"@.len() != "WideString"@.len());
    assert("Date"@.len() != "WideStringList"@.len());
    assert("DateTime"@.len() != "Integer"@.len());
    assert("DateTime"@.len() != "Integer64"@.len());
    assert("DateTime"@.len() != "Integer64List"@.len());
    assert("DateTime"@.len() != "IntegerList"@.len());
    assert("DateTime"@.len() != "Real"@.len());
    assert("DateTime"@[0] != "RealList"@[0]);
    assert("DateTime"@.len() != "String"@.len());
    assert("DateTime"@.len() != "StringList"@.len());
    assert("DateTime"@.len() != "Time"@.len());
    assert("DateTime"@.len() != "WideString"@.len());
    assert("DateTime"@.len() != "WideStringList"@.len());
    assert("Integer"@.len() != "Integer64"@.len());
    assert("Integer"@.len() != "Integer64List"@.len());
    assert("Integer"@.len() != "IntegerList"@.len());
    assert("Integer"@.len() != "Real"@.len());
    assert("Integer"@.len() != "RealList"@.len());
    assert("Integer"@.len() != "String"@.len());
    assert("Integer"@.len() != "StringList"@.len());
    assert("Integer"@.len() != "Time"@.len());
    assert("Integer"@.len() != "WideString"@.len());
    assert("Integer"@.len() != "WideStringList"@.len());
    assert("Integer64"@.len() != "Integer64List"@.len());
    assert("Integer64"@.len() != "IntegerList"@.len());
    assert("Integer64"@.len() != "Real"@.len());
    assert("Integer64"@.len() != "RealList"@.len());
    assert("Integer64"@.len() != "String"@.len());
    assert("Integer64"@.len() != "StringList"@.len());
    assert("Integer64"@.len() != "Time"@.len());
    assert("Integer64"@.len() != "WideString"@.len());
    assert("Integer64"@.len() != "WideStringList"@.len());
    assert("Integer64List"@.len() != "IntegerList"@.len());
    assert("Integer64List"@.len() != "Real"@.len());
    assert("Integer64List"@.len() != "RealList"@.len());
    assert("Integer64List"@.len() != "String"@.len());
    assert("Integer64List"@.len() != "StringList"@.len());
    assert("Integer64List"@.len() != "Time"@.len());
    assert("Integer64List"@.len() != "WideString"@.len());
    assert("Integer64List"@.len() != "WideStringList"@.len());
    assert("IntegerList"@.len() != "Real"@.len());
    assert("IntegerList"@.len() != "RealList"@.len());
    assert("IntegerList"@.len() != "String"@.len());
    assert("IntegerList"@.len() != "StringList"@.len());
    assert("IntegerList"@.len() != "Time"@.len());
    assert("IntegerList"@.len() != "WideString"@.len());
    assert("IntegerList"@.len() != "WideStringList"@.len());
    assert("Real"@.len() != "RealList"@.len());
    assert("Real"@.len() != "String"@.len());
    assert("Real"@.len() != "StringList"@.len());
    assert("Real"@[0] != "Time"@[0]);
    assert("Real"@.len() != "WideString"@.len());
    assert("Real"@.len() != "WideStringList"@.len());
    assert("RealList"@.len() != "String"@.len());
    assert("RealList"@.len() != "StringList"@.len());
    assert("RealList"@.len() != "Time"@.len());
    assert("RealList"@.len() != "WideString"@.len());
    assert("RealList"@.len() != "WideStringList"@.len());
    assert("String"@.len() != "StringList"@.len());
    assert("String"@.len() != "Time"@.len());
    assert("String"@.len() != "WideString"@.len());
    assert("String"@.len() != "WideStringList"@.len());
    assert("StringList"@.len() != "Time"@.len());
    assert("StringList"@[0] != "WideString"@[0]);
    assert("StringList"@.len() != "WideStringList"@.len());
    assert("Time"@.len() != "WideString"@.len());
    assert("Time"@.len() != "WideStringList"@.len());
    assert("WideString"@.len() != "WideStringList"@.len());
}

/// `stem` is absent, or is a non-empty run of consecutive characters of
/// `path` (a file stem is the file name, or the part of it before its last
/// `.`, and is never empty).
pub open spec fn stem_in(stem: Option<Seq<char>>, path: Seq<char>) -> bool {
    match stem {
        Some(s) => s.len() > 0 && has_substring(path, s),
        None => true,
    }
}

/// `ext` is absent, or is text without a `.` that follows a `.` in `path`
/// (an extension is the part of the file name after its last `.`).
pub open spec fn extension_in(ext: Option<Seq<char>>, path: Seq<char>) -> bool {
    match ext {
        Some(e) => !e.contains('.') && has_substring(path, seq!['.'] + e),
        None => true,
    }
}

/// The text after the last `/` of `p` (all of `p` when it has none).
pub open spec fn last_part(p: Seq<char>) -> Seq<char>
    decreases p.len(),
{
    if p.len() == 0 {
        p
    } else if p.last() == '/' {
        Seq::empty()
    } else {
        last_part(p.drop_last()).push(p.last())
    }
}

/// The position of the last `.` in `f`, or -1 when it has none.
pub open spec fn last_dot(f: Seq<char>) -> int
    decreases f.len(),
{
    if f.len() == 0 {
        -1
    } else if f.last() == '.' {
        f.len() - 1
    } else {
        last_dot(f.drop_last())
    }
}

/// A path that every platform splits alike: it holds no `\` and no `:`, does
/// not begin with `//`, and its last `/`-separated part (the file name) is
/// neither empty nor `.` nor `..`.
pub open spec fn plain_file_path(p: Seq<char>) -> bool {
    &&& !p.contains('\\')
    &&& !p.contains(':')
    &&& !(p.len() >= 2 && p[0] == '/' && p[1] == '/')
    &&& last_part(p).len() > 0
    &&& last_part(p) != "."@
    &&& last_part(p) != ".."@
}

/// The extension of a file name: the text after its last `.`, when that `.`
/// is not its first character.
pub open spec fn name_extension(f: Seq<char>) -> Option<Seq<char>> {
    if last_dot(f) > 0 {
        Some(f.skip(last_dot(f) + 1))
    } else {
        None
    }
}

/// The stem of a file name: the text before its last `.`, when that `.` is
/// not its first character; otherwise the whole name.
pub open spec fn name_stem(f: Seq<char>) -> Seq<char> {
    if last_dot(f) > 0 {
        f.take(last_dot(f))
    } else {
        f
    }
}

/// `stem` and `ext` are what `Path::file_stem` and `Path::extension` can give
/// for `path`: parts of it, and exactly the stem and extension of the file
/// name for a plain file path.
pub open spec fn stem_and_extension(stem: Option<Seq<char>>, ext: Option<Seq<char>>, path: Seq<char>) -> bool {
    &&& stem_in(stem, path)
    &&& extension_in(ext, path)
    &&& plain_file_path(path) ==> stem == Some(name_stem(last_part(path))) && ext == name_extension(
        last_part(path),
    )
}

/// Calls `Path::file_stem` on the path and takes the stem as text (a stem read
/// from a `&str` path is valid UTF-8). Which part of a path is the file name
/// depends on the platform's separators and prefixes, so for every path only
/// this is stated: the stem is absent or a non-empty part of the path's text;
/// for a plain file path (see `plain_file_path`), on which every platform
/// agrees, it is the stem of the file name as `Path::file_stem` documents it.
#[verifier::external_body]
fn file_stem_of<'a>(path: &'a str) -> (r: Option<&'a str>)
    ensures
        stem_in(opt_str_view(r), path@),
        plain_file_path(path@) ==> opt_str_view(r) == Some(name_stem(last_part(path@))),
{
    std::path::Path::new(path).file_stem().and_then(|s| s.to_str())
}

/// Calls `Path::extension` on the path and takes it as text. As for the stem,
/// for every path only this is stated: the extension is absent, or text
/// without a `.` that follows a `.` in the path; for a plain file path it is
/// the extension of the file name as `Path::extension` documents it.
#[verifier::external_body]
fn extension_of<'a>(path: &'a str) -> (r: Option<&'a str>)
    ensures
        extension_in(opt_str_view(r), path@),
        plain_file_path(path@) ==> opt_str_view(r) == name_extension(last_part(path@)),
{
    std::path::Path::new(path).extension().and_then(|e| e.to_str())
}

/// The format name for a file extension.
pub open spec fn format_for(ext: Option<Seq<char>>) -> Seq<char> {
    match ext {
        Some(e) => if e == "shp"@ {
            "Shapefile"@
        } else if e == "gpkg"@ {
            "GeoPackage"@
        } else if e == "geojson"@ {
            "GeoJSON"@
        } else if e == "kml"@ {
            "KML"@
        } else {
            "Unknown"@
        },
        None => "Unknown"@,
    }
}

/// One layer of a data set: its name and how many features it holds.
#[derive(Clone, Debug)]
pub struct LayerInfo {
    pub name: String,
    pub feature_count: i64,
}

/// An attribute field as read from a layer definition.
pub struct FieldDef {
    pub name: String,
    pub type_code: u32,
}

/// What was read of a layer.
pub struct LayerRead {
    pub name: String,
    pub feature_count: u64,
    pub fields: Vec<FieldDef>,
    /// The type code of the first geometry field, if the layer has one.
    pub geometry_type: Option<u32>,
}

/// What was read of a data set's spatial reference; each part is `None`
/// when reading it failed.
pub struct SrsRead {
    pub epsg: Option<i32>,
    pub proj4: Option<String>,
    pub wkt: Option<String>,
}

/// How reading a data set went, step by step.
pub enum SourceRead {
    /// The data set could not be opened.
    OpenFailed(String),
    /// The named layer was asked for and is not there.
    LayerMissing { requested: String, error: String },
    /// No layer was named and the data set has none.
    NoLayer,
    /// The layer was read but the spatial reference could not be.
    SrsFailed { error: String },
    /// Everything was read.
    Read { layer: LayerRead, srs: SrsRead },
}

/// The spatial reference of a file description: present when an EPSG code
/// above zero, a PROJ.4 text or a WKT text was read.
pub open spec fn srs_described(srs: SrsRead, info: Option<SpatialRefInfo>) -> bool {
    let epsg: i32 = match srs.epsg { Some(c) => c, None => 0 };
    if epsg > 0 || srs.proj4 is Some || srs.wkt is Some {
        info matches Some(s) && s.epsg == epsg && opt_view(s.proj4) == opt_view(srs.proj4)
            && opt_view(s.wkt) == opt_view(srs.wkt)
    } else {
        info is None
    }
}

/// `info` describes the layer `layer` of the file at `path` whose stem and
/// extension are `stem` and `ext`, with spatial reference `srs`.
pub open spec fn describes(
    info: FileInfo,
    path: Seq<char>,
    stem: Option<Seq<char>>,
    ext: Option<Seq<char>>,
    layer: LayerRead,
    srs: SrsRead,
) -> bool {
    &&& info.path@ == path
    &&& info.name@ == (match stem { Some(s) => s, None => "unknown"@ })
    &&& info.format@ == format_for(ext)
    &&& info.layer_name@ == layer.name@
    &&& info.feature_count == layer.feature_count as i64
    &&& info.fields@.len() == layer.fields@.len()
    &&& forall|i: int| 0 <= i < info.fields@.len() ==> {
        &&& (#[trigger] info.fields@[i]).name@ == layer.fields@[i].name@
        &&& info.fields@[i].field_type@ == field_type_text(layer.fields@[i].type_code)
    }
    &&& info.geometry_type@ == (match layer.geometry_type {
        Some(c) => geometry_type_text(c),
        None => "Unknown"@,
    })
    &&& srs_described(srs, info.srs)
}

/// Reads GDAL data sets into the descriptions the import screen shows.
pub struct GdalHandler;

impl GdalHandler {
    /// The format name of a file from its extension (`Shapefile`,
    /// `GeoPackage`, `GeoJSON`, `KML`, else `Unknown`).
    pub fn detect_format(path: &str) -> (r: String)
        ensures
            exists|ext: Option<Seq<char>>| extension_in(ext, path@) && r@ == format_for(ext),
            plain_file_path(path@) ==> r@ == format_for(name_extension(last_part(path@))),
    {
        let ext = extension_of(path);
        let r = String::from_str(GdalHandler::format_of_extension(ext));
        assert(extension_in(opt_str_view(ext), path@) && r@ == format_for(opt_str_view(ext)));
        r
    }

    /// The format name for an extension as `Path::extension` gives it.
    pub fn format_of_extension(ext: Option<&str>) -> (r: &'static str)
        ensures
            r@ == format_for(match ext { Some(e) => Some(e@), None => None }),
    {
        match ext {
            Some(e) => if str_eq(e, "shp") {
                "Shapefile"
            } else if str_eq(e, "gpkg") {
                "GeoPackage"
            } else if str_eq(e, "geojson") {
                "GeoJSON"
            } else if str_eq(e, "kml") {
                "KML"
            } else {
                "Unknown"
            },
            None => "Unknown",
        }
    }

    /// The description of a file from what was read of it, or the message of
    /// the step that failed.
    pub fn get_file_info(path: &str, source: SourceRead) -> (r: Result<FileInfo, String>)
        ensures
            exists|stem: Option<Seq<char>>, ext: Option<Seq<char>>|
                #![trigger stem_and_extension(stem, ext, path@)]
                stem_and_extension(stem, ext, path@) && file_info_result(r, path@, stem, ext, source),
    {
        let stem = file_stem_of(path);
        let ext = extension_of(path);
        let ghost sv = opt_str_view(stem);
        let ghost ev = opt_str_view(ext);
        let r = GdalHandler::file_info_from(path, stem, ext, source);
        assert(stem_and_extension(sv, ev, path@) && file_info_result(r, path@, sv, ev, source));
        r
    }

    /// The description of a file, given the stem and extension of its path
    /// (as `Path::file_stem` and `Path::extension` give them) and what was
    /// read of it.
    pub fn file_info_from(path: &str, stem: Option<&str>, ext: Option<&str>, source: SourceRead) -> (r: Result<FileInfo, String>)
        ensures
            file_info_result(r, path@, opt_str_view(stem), opt_str_view(ext), source),
    {
        match source {
            SourceRead::OpenFailed(e) => {
                let mut m = String::from_str("无法打开文件: ");
                m.append(e.as_str());
                Err(m)
            },
            SourceRead::LayerMissing { requested, error } => {
                let mut m = String::from_str("找不到图层 ");
                m.append(requested.as_str());
                m.append(": ");
                m.append(error.as_str());
                Err(m)
            },
            SourceRead::NoLayer => Err(String::from_str("没有找到图层")),
            SourceRead::SrsFailed { error } => {
                let mut m = String::from_str("获取坐标系统失败: ");
                m.append(error.as_str());
                Err(m)
            },
            SourceRead::Read { layer, srs } => {
                let name = match stem {
                    Some(s) => String::from_str(s),
                    None => String::from_str("unknown"),
                };
                let format = String::from_str(GdalHandler::format_of_extension(ext));
                let mut fields: Vec<FieldInfo> = Vec::new();
                let mut i: usize = 0;
                while i < layer.fields.len()
                    invariant
                        i <= layer.fields@.len(),
                        fields@.len() == i,
                        forall|j: int| 0 <= j < i ==> {
                            &&& (#[trigger] fields@[j]).name@ == layer.fields@[j].name@
                            &&& fields@[j].field_type@ == field_type_text(layer.fields@[j].type_code)
                        },
                    decreases layer.fields@.len() - i,
                {
                    let f = FieldInfo {
                        name: layer.fields[i].name.clone(),
                        field_type: field_type_name(layer.fields[i].type_code),
                    };
                    fields.push(f);
                    i = i + 1;
                }
                let geometry_type = match layer.geometry_type {
                    Some(c) => geometry_type_name(c),
                    None => String::from_str("Unknown"),
                };
                let epsg: i32 = match srs.epsg {
                    Some(c) => c,
                    None => 0,
                };
                let described = if epsg > 0 || srs.proj4.is_some() || srs.wkt.is_some() {
                    Some(SpatialRefInfo { epsg, proj4: srs.proj4.clone(), wkt: srs.wkt.clone() })
                } else {
                    None
                };
                let info = FileInfo {
                    path: String::from_str(path),
                    name,
                    format,
                    layer_name: layer.name.clone(),
                    feature_count: layer.feature_count as i64,
                    geometry_type,
                    fields,
                    srs: described,
                };
                Ok(info)
            },
        }
    }

    /// The formats this tool reads, by their GDAL driver names.
    pub fn get_supported_drivers() -> (r: Vec<String>)
        ensures
            strings_view(r@) == seq!["ESRI Shapefile"@, "GeoPackage"@, "GeoJSON"@, "KML"@],
    {
        let mut v: Vec<String> = Vec::new();
        v.push(String::from_str("ESRI Shapefile"));
        v.push(String::from_str("GeoPackage"));
        v.push(String::from_str("GeoJSON"));
        v.push(String::from_str("KML"));
        assert(strings_view(v@) =~= seq!["ESRI Shapefile"@, "GeoPackage"@, "GeoJSON"@, "KML"@]);
        v
    }

    /// The layers of a data set, from the name and feature count of each as
    /// read, or the message of the failure to open it.
    pub fn list_layers(opened: Result<Vec<(String, u64)>, String>) -> (r: Result<Vec<LayerInfo>, String>)
        ensures
            opened matches Err(e) ==> r matches Err(m) && m@ == "无法打开文件: "@ + e@,
            opened matches Ok(ls) ==> r matches Ok(infos) && infos@.len() == ls@.len() && forall|i: int|
                0 <= i < ls@.len() ==> (#[trigger] infos@[i]).name@ == ls@[i].0@ && infos@[i].feature_count
                    == ls@[i].1 as i64,
    {
        match opened {
            Err(e) => {
                let mut m = String::from_str("无法打开文件: ");
                m.append(e.as_str());
                Err(m)
            },
            Ok(ls) => {
                let mut infos: Vec<LayerInfo> = Vec::new();
                let mut i: usize = 0;
                while i < ls.len()
                    invariant
                        i <= ls@.len(),
                        infos@.len() == i,
                        forall|j: int| 0 <= j < i ==> (#[trigger] infos@[j]).name@ == ls@[j].0@
                            && infos@[j].feature_count == ls@[j].1 as i64,
                    decreases ls@.len() - i,
                {
                    infos.push(LayerInfo { name: ls[i].0.clone(), feature_count: ls[i].1 as i64 });
                    i = i + 1;
                }
                Ok(infos)
            },
        }
    }
}

/// The value of an optional text.
pub open spec fn opt_str_view(s: Option<&str>) -> Option<Seq<char>> {
    match s {
        Some(t) => Some(t@),
        None => None,
    }
}

/// `r` is what describing the file at `path` gives for the reading `source`.
pub open spec fn file_info_result(
    r: Result<FileInfo, String>,
    path: Seq<char>,
    stem: Option<Seq<char>>,
    ext: Option<Seq<char>>,
    source: SourceRead,
) -> bool {
    match source {
        SourceRead::OpenFailed(e) => r matches Err(m) && m@ == "无法打开文件: "@ + e@,
        SourceRead::LayerMissing { requested, error } => r matches Err(m) && m@ == "找不到图层 "@
            + requested@ + ": "@ + error@,
        SourceRead::NoLayer => r matches Err(m) && m@ == "没有找到图层"@,
        SourceRead::SrsFailed { error } => r matches Err(m) && m@ == "获取坐标系统失败: "@ + error@,
        SourceRead::Read { layer, srs } => r matches Ok(info) && describes(info, path, stem, ext, layer, srs),
    }
}

} // verus!