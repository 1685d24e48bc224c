use spatial_import_tool::commands::import_commands::{
    batch_size_for, clean_text, field_to_read, get_import_progress, reprojection_target, import_type_name, resolve_srs, ImportAction, ImportEvent,
    ImportMachine, ImportStep,
};
use spatial_import_tool::gdal::FieldDef;
use spatial_import_tool::models::{DbConfig, DbType, ImportConfig, ImportMode, ImportResult};

fn config(db: DbType, mode: ImportMode, srs: Option<&str>) -> ImportConfig {
    ImportConfig {
        db_config: DbConfig {
            db_type: db,
            host: "h".into(),
            port: 1,
            database: "d".into(),
            username: "u".into(),
            password: "p".into(),
        },
        file_path: "/x/roads.shp".into(),
        layer_name: None,
        table_name: "roads".into(),
        srs: srs.map(|s| s.to_string()),
        import_mode: mode,
        field_mapping: None,
    }
}

fn layer(count: u64) -> ImportEvent {
    ImportEvent::LayerOpened {
        fields: vec![FieldDef { name: "name".into(), type_code: 4 }, FieldDef { name: "w".into(), type_code: 8 }],
        srs_code: Some(3857),
        feature_count: count,
    }
}

fn step(m: &mut ImportMachine, e: ImportEvent) -> ImportStep {
    assert!(m.can_take(&e));
    m.step(e, 5)
}

fn finished(s: &ImportStep) -> &ImportResult {
    match &s.action {
        ImportAction::Finish(r) => r,
        _ => panic!("not finished"),
    }
}

#[test]
fn small_decisions() {
    assert_eq!(import_type_name(4), "String");
    assert_eq!(import_type_name(0), "Integer");
    assert_eq!(import_type_name(12), "Integer64");
    assert_eq!(import_type_name(2), "Real");
    assert_eq!(import_type_name(9), "Date");
    assert_eq!(import_type_name(10), "Time");
    assert_eq!(import_type_name(11), "DateTime");
    assert_eq!(import_type_name(8), "String");
    assert_eq!(batch_size_for(0), 10);
    assert_eq!(batch_size_for(500), 10);
    assert_eq!(batch_size_for(501), 100);
    assert_eq!(batch_size_for(10000), 100);
    assert_eq!(batch_size_for(10001), 300);
    assert_eq!(resolve_srs(Some("EPSG:4490"), Some(3857)), 4490);
    assert_eq!(resolve_srs(Some("EPSG:abc"), Some(3857)), 4326);
    assert_eq!(resolve_srs(Some("4490"), Some(3857)), 4326);
    assert_eq!(resolve_srs(None, Some(3857)), 3857);
    assert_eq!(resolve_srs(None, None), 4326);
    assert_eq!(clean_text("a\r\nb\0c\n"), "a bc ");
    assert_eq!(clean_text("中文"), "中文");
    assert_eq!(field_to_read(Some(3)), Some(3));
    assert_eq!(field_to_read(Some(999)), Some(999));
    assert_eq!(field_to_read(Some(1000)), None);
    assert_eq!(field_to_read(None), None);
    let p = get_import_progress();
    assert_eq!((p.current, p.total, p.status.as_str(), p.message.as_str()), (0, 0, "idle", ""));
}

#[test]
fn postgres_create_new_import() {
    let mut m = ImportMachine::new(&config(DbType::PostgreSQL, ImportMode::CreateNew, None));
    let s = step(&mut m, ImportEvent::Begin);
    assert!(matches!(s.action, ImportAction::OpenSource));
    let s = step(&mut m, layer(25));
    let p = s.progress.unwrap();
    assert_eq!((p.current, p.total, p.status.as_str(), p.message.as_str()), (0, 100, "importing", "正在读取数据..."));
    assert!(matches!(s.action, ImportAction::Connect));
    let s = step(&mut m, ImportEvent::Connected);
    match s.action {
        ImportAction::CheckTable(sql) => assert_eq!(sql, "SELECT COUNT(*) FROM information_schema.tables WHERE table_name = $1"),
        _ => panic!("expected a table check"),
    }
    let s = step(&mut m, ImportEvent::TableCount(Ok(0)));
    match s.action {
        ImportAction::Execute(sql) => assert_eq!(
            sql,
            "CREATE TABLE IF NOT EXISTS \"roads\" (gid SERIAL PRIMARY KEY, geom GEOMETRY, \"name\" VARCHAR(255), \"w\" VARCHAR(255))"
        ),
        _ => panic!("expected CREATE TABLE"),
    }
    let s = step(&mut m, ImportEvent::StatementDone);
    assert_eq!(s.progress.unwrap().message, "共 25 条记录，开始导入...");
    assert!(matches!(s.action, ImportAction::BeginTransaction));
    let s = step(&mut m, ImportEvent::TxStarted);
    assert!(matches!(s.action, ImportAction::NextFeature { .. }));
    // ten features fill a batch
    for _ in 0..9 {
        let s = step(&mut m, ImportEvent::FeatureQueued);
        assert!(matches!(s.action, ImportAction::NextFeature { .. }));
    }
    let s = step(&mut m, ImportEvent::FeatureQueued);
    assert!(matches!(s.action, ImportAction::InsertBatch { srs: 3857, last: false }));
    let s = step(&mut m, ImportEvent::BatchInserted { sent: 10, stored: 10 });
    assert_eq!(s.progress.unwrap().message, "导入中... 10/25");
    let s = step(&mut m, ImportEvent::FeatureSkipped);
    assert!(matches!(s.action, ImportAction::NextFeature { .. }));
    step(&mut m, ImportEvent::FeatureQueued);
    let s = step(&mut m, ImportEvent::FeaturesExhausted);
    assert!(matches!(s.action, ImportAction::InsertBatch { srs: 3857, last: true }));
    let s = step(&mut m, ImportEvent::BatchInserted { sent: 1, stored: 1 });
    assert!(s.progress.is_none());
    assert!(matches!(s.action, ImportAction::Commit));
    let s = step(&mut m, ImportEvent::Committed);
    let p = s.progress.as_ref().unwrap();
    assert_eq!((p.current, p.total, p.message.as_str()), (25, 25, "导入完成！共导入 11 条"));
    let r = finished(&s);
    assert!(!r.success);
    assert_eq!((r.imported_count, r.error_count, r.duration_ms), (11, 1, 5));
    assert!(r.errors.is_empty());
    // finished stays finished
    let s = step(&mut m, ImportEvent::TxStarted);
    assert_eq!(finished(&s).imported_count, 11);
}

#[test]
fn successful_import_with_srs_setting_and_replace() {
    let mut m = ImportMachine::new(&config(DbType::Dameng, ImportMode::Replace, Some("EPSG:4490")));
    step(&mut m, ImportEvent::Begin);
    step(&mut m, layer(2));
    let s = step(&mut m, ImportEvent::Connected);
    match s.action {
        ImportAction::Execute(sql) => assert_eq!(sql, "DROP TABLE IF EXISTS \"roads\""),
        _ => panic!("expected DROP TABLE"),
    }
    // Dameng goes on after a failed drop
    let s = step(&mut m, ImportEvent::StatementFailed("no table".into()));
    assert!(matches!(s.action, ImportAction::Execute(_)));
    step(&mut m, ImportEvent::StatementDone);
    step(&mut m, ImportEvent::TxStarted);
    step(&mut m, ImportEvent::FeatureQueued);
    step(&mut m, ImportEvent::FeatureQueued);
    let s = step(&mut m, ImportEvent::FeaturesExhausted);
    assert!(matches!(s.action, ImportAction::InsertBatch { srs: 4490, last: true }));
    step(&mut m, ImportEvent::BatchInserted { sent: 2, stored: 2 });
    let s = step(&mut m, ImportEvent::Committed);
    let r = finished(&s);
    assert!(r.success);
    assert_eq!((r.imported_count, r.error_count), (2, 0));
}

#[test]
fn postgres_drop_failure_stops() {
    let mut m = ImportMachine::new(&config(DbType::PostgreSQL, ImportMode::Replace, None));
    step(&mut m, ImportEvent::Begin);
    step(&mut m, layer(2));
    step(&mut m, ImportEvent::Connected);
    let s = step(&mut m, ImportEvent::StatementFailed("denied".into()));
    let r = finished(&s);
    assert_eq!(r.errors, vec!["删除表失败: denied"]);
    assert_eq!((r.success, r.imported_count, r.error_count), (false, 0, 1));
}

#[test]
fn empty_layer_finishes_at_once() {
    let mut m = ImportMachine::new(&config(DbType::PostgreSQL, ImportMode::CreateNew, None));
    step(&mut m, ImportEvent::Begin);
    step(&mut m, layer(0));
    step(&mut m, ImportEvent::Connected);
    step(&mut m, ImportEvent::TableCount(Err("q".into())));
    let s = step(&mut m, ImportEvent::StatementDone);
    let p = s.progress.as_ref().unwrap();
    assert_eq!((p.current, p.total, p.message.as_str()), (0, 1, "没有数据可导入"));
    let r = finished(&s);
    assert!(r.success);
    assert_eq!((r.imported_count, r.error_count), (0, 0));
}

#[test]
fn postgres_append_inserts_into_the_existing_table() {
    let mut m = ImportMachine::new(&config(DbType::PostgreSQL, ImportMode::Append, None));
    step(&mut m, ImportEvent::Begin);
    step(&mut m, layer(3));
    let s = step(&mut m, ImportEvent::Connected);
    match s.action {
        ImportAction::CheckTable(sql) => assert_eq!(sql, "SELECT COUNT(*) FROM information_schema.tables WHERE table_name = $1"),
        _ => panic!("expected a table check"),
    }
    let s = step(&mut m, ImportEvent::TableCount(Ok(1)));
    match s.action {
        ImportAction::ListColumns(sql) => assert_eq!(sql, "SELECT column_name FROM information_schema.columns WHERE table_name = $1"),
        _ => panic!("expected a column listing"),
    }
    let s = step(&mut m, ImportEvent::Columns(Ok(vec!["gid".into(), "geom".into()])));
    assert_eq!(s.progress.unwrap().message, "共 3 条记录，开始导入...");
    assert!(matches!(s.action, ImportAction::BeginTransaction));
    step(&mut m, ImportEvent::TxStarted);
    step(&mut m, ImportEvent::FeatureQueued);
    let s = step(&mut m, ImportEvent::FeaturesExhausted);
    assert!(matches!(s.action, ImportAction::InsertBatch { srs: 3857, last: true }));
    step(&mut m, ImportEvent::BatchInserted { sent: 1, stored: 1 });
    let s = step(&mut m, ImportEvent::Committed);
    let r = finished(&s);
    assert!(r.success);
    assert_eq!(r.imported_count, 1);

    // the column must be called exactly `geom`
    let mut m = ImportMachine::new(&config(DbType::PostgreSQL, ImportMode::Append, None));
    step(&mut m, ImportEvent::Begin);
    step(&mut m, layer(3));
    step(&mut m, ImportEvent::Connected);
    step(&mut m, ImportEvent::TableCount(Ok(1)));
    let s = step(&mut m, ImportEvent::Columns(Ok(vec!["GEOM".into()])));
    assert_eq!(finished(&s).errors, vec!["表 roads 没有 geom 字段，无法追加数据"]);

    let mut m = ImportMachine::new(&config(DbType::PostgreSQL, ImportMode::Append, None));
    step(&mut m, ImportEvent::Begin);
    step(&mut m, layer(3));
    step(&mut m, ImportEvent::Connected);
    step(&mut m, ImportEvent::TableCount(Ok(1)));
    let s = step(&mut m, ImportEvent::Columns(Err("x".into())));
    assert_eq!(finished(&s).errors, vec!["表 roads 没有 geom 字段，无法追加数据"]);

    let mut m = ImportMachine::new(&config(DbType::PostgreSQL, ImportMode::Append, None));
    step(&mut m, ImportEvent::Begin);
    step(&mut m, layer(3));
    step(&mut m, ImportEvent::Connected);
    let s = step(&mut m, ImportEvent::TableCount(Err("q".into())));
    assert_eq!(finished(&s).errors, vec!["表 roads 不存在，请使用 CreateNew 模式创建表"]);
}

#[test]
fn create_new_refuses_an_existing_table() {
    let mut m = ImportMachine::new(&config(DbType::PostgreSQL, ImportMode::CreateNew, None));
    step(&mut m, ImportEvent::Begin);
    step(&mut m, layer(3));
    step(&mut m, ImportEvent::Connected);
    let s = step(&mut m, ImportEvent::TableCount(Ok(1)));
    let r = finished(&s);
    assert_eq!(r.errors, vec!["表 roads 已存在，请使用 Replace 模式删除并重建表"]);
    assert_eq!((r.success, r.imported_count, r.error_count), (false, 0, 1));

    let mut m = ImportMachine::new(&config(DbType::Dameng, ImportMode::CreateNew, None));
    step(&mut m, ImportEvent::Begin);
    step(&mut m, layer(3));
    let s = step(&mut m, ImportEvent::Connected);
    match s.action {
        ImportAction::CheckTable(sql) => assert_eq!(sql, "SELECT COUNT(*) FROM USER_TABLES WHERE TABLE_NAME = 'roads'"),
        _ => panic!("expected a table check"),
    }
    let s = step(&mut m, ImportEvent::TableStatus(Ok(true)));
    assert_eq!(finished(&s).errors, vec!["表 roads 已存在，请使用 Replace 模式删除并重建表"]);

    let mut m = ImportMachine::new(&config(DbType::Dameng, ImportMode::CreateNew, None));
    step(&mut m, ImportEvent::Begin);
    step(&mut m, layer(3));
    step(&mut m, ImportEvent::Connected);
    let s = step(&mut m, ImportEvent::TableStatus(Ok(false)));
    match s.action {
        ImportAction::Execute(sql) => assert!(sql.starts_with("CREATE TABLE IF NOT EXISTS \"roads\"")),
        _ => panic!("expected CREATE TABLE"),
    }
}

#[test]
fn dameng_append_checks_geom_column_ignoring_case() {
    let mut m = ImportMachine::new(&config(DbType::Dameng, ImportMode::Append, None));
    step(&mut m, ImportEvent::Begin);
    step(&mut m, layer(3));
    let s = step(&mut m, ImportEvent::Connected);
    match s.action {
        ImportAction::CheckTable(sql) => assert_eq!(sql, "SELECT COUNT(*) FROM USER_TABLES WHERE TABLE_NAME = 'roads'"),
        _ => panic!("expected a table check"),
    }
    let s = step(&mut m, ImportEvent::TableStatus(Ok(true)));
    match s.action {
        ImportAction::ListColumns(sql) => assert_eq!(
            sql,
            "SELECT COLUMN_NAME FROM USER_TAB_COLUMNS WHERE TABLE_NAME = 'roads' ORDER BY COLUMN_ID"
        ),
        _ => panic!("expected a column listing"),
    }
    let s = step(&mut m, ImportEvent::Columns(Ok(vec!["GID".into(), "GEOM".into()])));
    assert!(matches!(s.action, ImportAction::BeginTransaction));

    let mut m = ImportMachine::new(&config(DbType::Dameng, ImportMode::Append, None));
    step(&mut m, ImportEvent::Begin);
    step(&mut m, layer(3));
    step(&mut m, ImportEvent::Connected);
    let s = step(&mut m, ImportEvent::TableStatus(Err("odbc".into())));
    assert_eq!(finished(&s).errors, vec!["检查表是否存在失败: odbc"]);
}

#[test]
fn early_failures() {
    let mut m = ImportMachine::new(&config(DbType::PostgreSQL, ImportMode::CreateNew, None));
    step(&mut m, ImportEvent::Begin);
    let s = step(&mut m, ImportEvent::OpenFailed("missing".into()));
    let r = finished(&s);
    assert_eq!(r.errors, vec!["打开文件失败: missing"]);
    assert_eq!((r.success, r.imported_count, r.error_count, r.duration_ms), (false, 0, 1, 5));

    let mut m = ImportMachine::new(&config(DbType::PostgreSQL, ImportMode::CreateNew, None));
    step(&mut m, ImportEvent::Begin);
    let s = step(&mut m, ImportEvent::LayerMissing { requested: "L".into(), error: "e".into() });
    assert_eq!(finished(&s).errors, vec!["找不到图层 L: e"]);

    let mut m = ImportMachine::new(&config(DbType::Dameng, ImportMode::CreateNew, None));
    step(&mut m, ImportEvent::Begin);
    step(&mut m, layer(1));
    let s = step(&mut m, ImportEvent::ConnectFailed("x".into()));
    assert_eq!(finished(&s).errors, vec!["连接达梦数据库失败: x"]);

    let mut m = ImportMachine::new(&config(DbType::PostgreSQL, ImportMode::CreateNew, None));
    step(&mut m, ImportEvent::Begin);
    step(&mut m, layer(1));
    let s = step(&mut m, ImportEvent::ConnectFailed("连接数据库失败: y".into()));
    assert_eq!(finished(&s).errors, vec!["连接数据库失败: y"]);
}

#[test]
fn cancel_keeps_counts() {
    let mut m = ImportMachine::new(&config(DbType::PostgreSQL, ImportMode::CreateNew, None));
    step(&mut m, ImportEvent::Begin);
    step(&mut m, layer(100));
    step(&mut m, ImportEvent::Connected);
    step(&mut m, ImportEvent::TableCount(Ok(0)));
    step(&mut m, ImportEvent::StatementDone);
    step(&mut m, ImportEvent::TxStarted);
    step(&mut m, ImportEvent::FeatureSkipped);
    let s = step(&mut m, ImportEvent::Cancelled);
    let p = s.progress.as_ref().unwrap();
    assert_eq!((p.current, p.total, p.status.as_str(), p.message.as_str()), (0, 100, "cancelled", "导入已取消"));
    let r = finished(&s);
    assert_eq!((r.success, r.imported_count, r.error_count), (false, 0, 1));
    assert_eq!(r.errors, vec!["用户取消了导入"]);
}

#[test]
fn at_most_ten_batch_errors_are_kept() {
    let mut m = ImportMachine::new(&config(DbType::PostgreSQL, ImportMode::CreateNew, None));
    step(&mut m, ImportEvent::Begin);
    step(&mut m, layer(400));
    step(&mut m, ImportEvent::Connected);
    step(&mut m, ImportEvent::TableCount(Ok(0)));
    step(&mut m, ImportEvent::StatementDone);
    step(&mut m, ImportEvent::TxStarted);
    for _ in 0..12 {
        for _ in 0..10 {
            step(&mut m, ImportEvent::FeatureQueued);
        }
        let s = step(&mut m, ImportEvent::BatchFailed("boom".into()));
        assert!(matches!(s.action, ImportAction::NextFeature { .. }));
    }
    step(&mut m, ImportEvent::FeatureQueued);
    step(&mut m, ImportEvent::FeaturesExhausted);
    step(&mut m, ImportEvent::BatchFailed("last".into()));
    let s = step(&mut m, ImportEvent::CommitFailed("c".into()));
    let r = finished(&s);
    assert_eq!((r.success, r.imported_count, r.error_count), (false, 0, 121));
    assert_eq!(r.errors, vec!["提交事务失败: c"]);
}

#[test]
fn batch_error_messages() {
    let mut m = ImportMachine::new(&config(DbType::PostgreSQL, ImportMode::CreateNew, None));
    step(&mut m, ImportEvent::Begin);
    step(&mut m, layer(20));
    step(&mut m, ImportEvent::Connected);
    step(&mut m, ImportEvent::TableCount(Ok(0)));
    step(&mut m, ImportEvent::StatementDone);
    step(&mut m, ImportEvent::TxStarted);
    for _ in 0..10 {
        step(&mut m, ImportEvent::FeatureQueued);
    }
    step(&mut m, ImportEvent::BatchFailed("a".into()));
    step(&mut m, ImportEvent::FeatureQueued);
    step(&mut m, ImportEvent::FeaturesExhausted);
    step(&mut m, ImportEvent::BatchFailed("b".into()));
    let s = step(&mut m, ImportEvent::Committed);
    let r = finished(&s);
    assert_eq!((r.success, r.imported_count, r.error_count), (false, 0, 11));
    assert_eq!(r.errors, vec!["批次插入失败: a", "最后批次插入失败: b"]);
}

#[test]
fn unexpected_events_repeat_the_request() {
    let mut m = ImportMachine::new(&config(DbType::PostgreSQL, ImportMode::CreateNew, None));
    let s = step(&mut m, ImportEvent::Connected);
    assert!(matches!(s.action, ImportAction::OpenSource));
    step(&mut m, ImportEvent::Begin);
    step(&mut m, layer(5));
    let s = step(&mut m, ImportEvent::TableStatus(Ok(true)));
    assert!(matches!(s.action, ImportAction::Connect));
}

#[test]
fn reported_counts_never_go_down() {
    let mut m = ImportMachine::new(&config(DbType::Dameng, ImportMode::CreateNew, None));
    step(&mut m, ImportEvent::Begin);
    step(&mut m, layer(40));
    step(&mut m, ImportEvent::Connected);
    step(&mut m, ImportEvent::TableStatus(Ok(false)));
    step(&mut m, ImportEvent::StatementDone);
    step(&mut m, ImportEvent::TxStarted);
    let mut last_current = 0;
    let mut inserted_rounds = 0;
    for round in 0..4 {
        for _ in 0..9 {
            step(&mut m, ImportEvent::FeatureQueued);
        }
        step(&mut m, ImportEvent::FeatureSkipped);
        step(&mut m, ImportEvent::FeatureQueued);
        let e = if round == 2 { ImportEvent::BatchFailed("boom".into()) } else { ImportEvent::BatchInserted { sent: 10, stored: 10 } };
        let s = step(&mut m, e);
        if let Some(p) = s.progress {
            assert!(p.current >= last_current);
            last_current = p.current;
            inserted_rounds += 1;
        }
    }
    assert_eq!((last_current, inserted_rounds), (30, 3));
    step(&mut m, ImportEvent::FeaturesExhausted);
    let s = step(&mut m, ImportEvent::Committed);
    let r = finished(&s);
    assert_eq!((r.imported_count, r.error_count), (30, 14));
}

#[test]
fn rows_that_do_not_go_in_are_errors() {
    let mut m = ImportMachine::new(&config(DbType::Dameng, ImportMode::CreateNew, None));
    step(&mut m, ImportEvent::Begin);
    step(&mut m, layer(3));
    step(&mut m, ImportEvent::Connected);
    step(&mut m, ImportEvent::TableStatus(Ok(false)));
    step(&mut m, ImportEvent::StatementDone);
    step(&mut m, ImportEvent::TxStarted);
    for _ in 0..3 {
        step(&mut m, ImportEvent::FeatureQueued);
    }
    step(&mut m, ImportEvent::FeaturesExhausted);
    step(&mut m, ImportEvent::BatchInserted { sent: 3, stored: 2 });
    let s = step(&mut m, ImportEvent::Committed);
    let r = finished(&s);
    assert_eq!((r.success, r.imported_count, r.error_count), (false, 2, 1));
}

#[test]
fn features_are_converted_into_a_selected_other_system() {
    assert_eq!(reprojection_target(Some("EPSG:4490"), Some(3857)), Some(4490));
    assert_eq!(reprojection_target(Some("EPSG:3857"), Some(3857)), None);
    assert_eq!(reprojection_target(Some("EPSG:4490"), None), Some(4490));
    assert_eq!(reprojection_target(Some("bad"), Some(3857)), Some(4326));
    assert_eq!(reprojection_target(None, Some(3857)), None);

    let mut m = ImportMachine::new(&config(DbType::PostgreSQL, ImportMode::Replace, Some("EPSG:4490")));
    step(&mut m, ImportEvent::Begin);
    step(&mut m, layer(5));
    step(&mut m, ImportEvent::Connected);
    step(&mut m, ImportEvent::StatementDone);
    step(&mut m, ImportEvent::StatementDone);
    let s = step(&mut m, ImportEvent::TxStarted);
    assert!(matches!(s.action, ImportAction::NextFeature { convert_to: Some(4490) }));
    let s = step(&mut m, ImportEvent::FeaturesExhausted);
    assert!(matches!(s.action, ImportAction::Commit));

    let mut m = ImportMachine::new(&config(DbType::PostgreSQL, ImportMode::Replace, None));
    step(&mut m, ImportEvent::Begin);
    step(&mut m, layer(5));
    step(&mut m, ImportEvent::Connected);
    step(&mut m, ImportEvent::StatementDone);
    step(&mut m, ImportEvent::StatementDone);
    let s = step(&mut m, ImportEvent::TxStarted);
    assert!(matches!(s.action, ImportAction::NextFeature { convert_to: None }));
}

#[test]
fn rows_left_out_for_a_blank_geometry_count_nowhere() {
    let mut m = ImportMachine::new(&config(DbType::PostgreSQL, ImportMode::CreateNew, None));
    step(&mut m, ImportEvent::Begin);
    step(&mut m, layer(2));
    step(&mut m, ImportEvent::Connected);
    step(&mut m, ImportEvent::TableCount(Ok(0)));
    step(&mut m, ImportEvent::StatementDone);
    step(&mut m, ImportEvent::TxStarted);
    step(&mut m, ImportEvent::FeatureQueued);
    step(&mut m, ImportEvent::FeatureQueued);
    step(&mut m, ImportEvent::FeaturesExhausted);
    // one of the two rows had a blank geometry and was not sent
    step(&mut m, ImportEvent::BatchInserted { sent: 1, stored: 1 });
    let s = step(&mut m, ImportEvent::Committed);
    let r = finished(&s);
    assert_eq!((r.success, r.imported_count, r.error_count), (true, 1, 0));
}
