use spatial_import_tool::gdal::{
    field_type_name, geometry_type_name, FieldDef, GdalHandler, LayerRead, SourceRead, SrsRead,
};

fn layer() -> LayerRead {
    LayerRead {
        name: "roads".into(),
        feature_count: 12,
        fields: vec![
            FieldDef { name: "name".into(), type_code: 4 },
            FieldDef { name: "len".into(), type_code: 2 },
            FieldDef { name: "odd".into(), type_code: 77 },
        ],
        geometry_type: Some(5),
    }
}

#[test]
fn type_names() {
    assert_eq!(field_type_name(0), "Integer");
    assert_eq!(field_type_name(4), "String");
    assert_eq!(field_type_name(12), "Integer64");
    assert_eq!(field_type_name(13), "Integer64List");
    assert_eq!(field_type_name(14), "Unknown(14)");
    assert_eq!(geometry_type_name(0), "Unknown");
    assert_eq!(geometry_type_name(3), "Polygon");
    assert_eq!(geometry_type_name(17), "Triangle");
    assert_eq!(geometry_type_name(100), "None");
    assert_eq!(geometry_type_name(1003), "Unknown(1003)");
}

#[test]
fn formats_from_extensions() {
    assert_eq!(GdalHandler::detect_format("/data/a.shp"), "Shapefile");
    assert_eq!(GdalHandler::detect_format("b.gpkg"), "GeoPackage");
    assert_eq!(GdalHandler::detect_format("c.geojson"), "GeoJSON");
    assert_eq!(GdalHandler::detect_format("d.kml"), "KML");
    assert_eq!(GdalHandler::detect_format("e.SHP"), "Unknown");
    assert_eq!(GdalHandler::detect_format("noext"), "Unknown");
    assert_eq!(GdalHandler::format_of_extension(Some("kml")), "KML");
    assert_eq!(GdalHandler::format_of_extension(None), "Unknown");
}

#[test]
fn file_description() {
    let info = GdalHandler::get_file_info(
        "/data/roads.shp",
        SourceRead::Read { layer: layer(), srs: SrsRead { epsg: Some(4326), proj4: None, wkt: None } },
    )
    .unwrap();
    assert_eq!(info.path, "/data/roads.shp");
    assert_eq!(info.name, "roads");
    assert_eq!(info.format, "Shapefile");
    assert_eq!(info.layer_name, "roads");
    assert_eq!(info.feature_count, 12);
    assert_eq!(info.geometry_type, "MultiLineString");
    let f: Vec<(String, String)> = info.fields.iter().map(|f| (f.name.clone(), f.field_type.clone())).collect();
    assert_eq!(
        f,
        vec![
            ("name".to_string(), "String".to_string()),
            ("len".to_string(), "Real".to_string()),
            ("odd".to_string(), "Unknown(77)".to_string())
        ]
    );
    let srs = info.srs.unwrap();
    assert_eq!(srs.epsg, 4326);
    assert!(srs.proj4.is_none() && srs.wkt.is_none());
}

#[test]
fn spatial_reference_presence() {
    let mut l = layer();
    l.geometry_type = None;
    let info = GdalHandler::file_info_from(
        "x",
        None,
        None,
        SourceRead::Read { layer: l, srs: SrsRead { epsg: None, proj4: None, wkt: None } },
    )
    .unwrap();
    assert!(info.srs.is_none());
    assert_eq!(info.name, "unknown");
    assert_eq!(info.geometry_type, "Unknown");
    let info = GdalHandler::file_info_from(
        "x",
        Some("x"),
        Some("gpkg"),
        SourceRead::Read { layer: layer(), srs: SrsRead { epsg: Some(0), proj4: Some("+proj=longlat".into()), wkt: None } },
    )
    .unwrap();
    let srs = info.srs.unwrap();
    assert_eq!(srs.epsg, 0);
    assert_eq!(srs.proj4.as_deref(), Some("+proj=longlat"));
    assert_eq!(info.format, "GeoPackage");
}

#[test]
fn file_description_failures() {
    let e = GdalHandler::get_file_info("a.shp", SourceRead::OpenFailed("bad".into())).unwrap_err();
    assert_eq!(e, "无法打开文件: bad");
    let e = GdalHandler::get_file_info("a.shp", SourceRead::LayerMissing { requested: "L".into(), error: "nope".into() })
        .unwrap_err();
    assert_eq!(e, "找不到图层 L: nope");
    let e = GdalHandler::get_file_info("a.shp", SourceRead::NoLayer).unwrap_err();
    assert_eq!(e, "没有找到图层");
    let e = GdalHandler::get_file_info("a.shp", SourceRead::SrsFailed { error: "srs".into() }).unwrap_err();
    assert_eq!(e, "获取坐标系统失败: srs");
}

#[test]
fn layers_and_drivers() {
    let r = GdalHandler::list_layers(Ok(vec![("a".into(), 3), ("b".into(), u64::MAX)])).unwrap();
    assert_eq!(r.len(), 2);
    assert_eq!(r[0].name, "a");
    assert_eq!(r[0].feature_count, 3);
    assert_eq!(r[1].feature_count, -1);
    assert_eq!(GdalHandler::list_layers(Err("x".into())).unwrap_err(), "无法打开文件: x");
    assert_eq!(GdalHandler::get_supported_drivers(), vec!["ESRI Shapefile", "GeoPackage", "GeoJSON", "KML"]);
}

#[test]
fn formats_follow_the_file_name_extension() {
    assert_eq!(GdalHandler::detect_format("data.v2/roads"), "Unknown");
    assert_eq!(GdalHandler::detect_format("dir/.kml"), "Unknown");
    assert_eq!(GdalHandler::detect_format("a.b.kml"), "KML");
    assert_eq!(GdalHandler::detect_format("x/y/z.geojson"), "GeoJSON");
}
