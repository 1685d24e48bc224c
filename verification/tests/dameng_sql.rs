use spatial_import_tool::commands::db_commands::check_dameng_driver;
use spatial_import_tool::database::dameng::{
    build_connection_string, check_driver_installed, column_names, dameng_batch_plan, escape_sql_string,
    table_columns_query, table_count_positive, table_exists_query, test_connection, DamengConnectOutcome,
};
use spatial_import_tool::database::postgres::postgres_batch_plan;
use spatial_import_tool::models::{DbConfig, DbType};

#[test]
fn dameng_connection_string() {
    let c = DbConfig {
        db_type: DbType::Dameng,
        host: "10.0.0.1".into(),
        port: 5236,
        database: "ignored".into(),
        username: "SYSDBA".into(),
        password: "pw".into(),
    };
    assert_eq!(build_connection_string(&c), "Driver={DM8 ODBC DRIVER};Server=10.0.0.1;Port=5236;UID=SYSDBA;PWD=pw");
}

#[test]
fn escaping_doubles_quotes_then_backslashes() {
    assert_eq!(escape_sql_string("it's"), "it''s");
    assert_eq!(escape_sql_string("a\\b"), "a\\\\b");
    assert_eq!(escape_sql_string("\\'"), "\\\\''");
    assert_eq!(escape_sql_string("plain"), "plain");
}

#[test]
fn dameng_connection_test_report() {
    let r = test_connection(DamengConnectOutcome::Connected);
    assert!(r.success);
    assert_eq!(r.message, "连接成功");
    assert_eq!(r.server_version.as_deref(), Some("达梦数据库 (DM8)"));
    let r = test_connection(DamengConnectOutcome::ConnectFailed("E1".into()));
    assert!(!r.success);
    assert_eq!(r.message, "连接失败: E1");
    let r = test_connection(DamengConnectOutcome::EnvironmentFailed("E2".into()));
    assert_eq!(r.message, "创建 ODBC 环境失败: E2");
    assert!(r.server_version.is_none());
}

#[test]
fn catalogue_queries_use_the_name_as_created() {
    assert_eq!(table_exists_query("roads"), "SELECT COUNT(*) FROM USER_TABLES WHERE TABLE_NAME = 'roads'");
    assert_eq!(table_exists_query("o'k"), "SELECT COUNT(*) FROM USER_TABLES WHERE TABLE_NAME = 'o''k'");
    assert_eq!(
        table_columns_query("Roads"),
        "SELECT COLUMN_NAME FROM USER_TAB_COLUMNS WHERE TABLE_NAME = 'Roads' ORDER BY COLUMN_ID"
    );
}

#[test]
fn count_cell() {
    assert!(table_count_positive(Some(b"1")));
    assert!(table_count_positive(Some(b" 3 \n")));
    assert!(!table_count_positive(Some(b"0")));
    assert!(!table_count_positive(Some(b"-2")));
    assert!(!table_count_positive(Some(b"abc")));
    assert!(!table_count_positive(Some(&[0xff, b'1'])));
    assert!(!table_count_positive(None));
}

#[test]
fn dameng_batch_plan_skips_blank_geometries() {
    let wkts = vec!["POINT (0 0)".to_string(), "  \t".to_string(), "".to_string(), "POINT (1 1)".to_string()];
    let plan = dameng_batch_plan("t", &["id".to_string()], &wkts).unwrap();
    assert_eq!(plan.rows, vec![0, 3]);
    assert_eq!(plan.sql, "INSERT INTO \"t\" (geom, \"id\") VALUES (dmgeo2.ST_GeomFromText(?, ?), ?)");
    let plan = dameng_batch_plan("t", &[], &vec!["POINT (2 2)".to_string()]).unwrap();
    assert_eq!(plan.sql, "INSERT INTO \"t\" (geom) VALUES (dmgeo2.ST_GeomFromText(?, ?))");
    assert!(dameng_batch_plan("t", &[], &vec![]).is_none());
    assert!(dameng_batch_plan("t", &[], &vec![" ".to_string()]).is_none());
}

#[test]
fn postgres_batch_plan_skips_blank_geometries() {
    let wkts = vec!["POINT (0 0)".to_string(), " ".to_string(), "POINT (1 1)".to_string()];
    let plan = postgres_batch_plan("t", &["a".to_string()], &wkts).unwrap();
    assert_eq!(plan.rows, vec![0, 2]);
    assert_eq!(
        plan.sql,
        "INSERT INTO \"t\" (geom, \"a\") VALUES (ST_GeomFromText($1, $2), $3), (ST_GeomFromText($4, $5), $6)"
    );
    assert!(postgres_batch_plan("t", &[], &vec!["".to_string(), "\n".to_string()]).is_none());
    assert!(postgres_batch_plan("t", &[], &vec![]).is_none());
}

#[test]
fn driver_detection() {
    assert!(check_driver_installed(&vec!["PostgreSQL".into(), "DM8 ODBC DRIVER".into()]));
    assert!(check_driver_installed(&vec!["Dameng ODBC".into()]));
    assert!(!check_driver_installed(&vec!["dm8".into(), "MySQL".into()]));
    assert!(!check_driver_installed(&vec![]));
}

#[test]
fn driver_report() {
    let s = check_dameng_driver(true);
    assert!(s.installed);
    assert_eq!(s.message, "DM8 ODBC 驱动已安装");
    let s = check_dameng_driver(false);
    assert!(!s.installed);
    assert_eq!(s.message, "未检测到 DM8 ODBC 驱动，请先安装驱动");
}

#[test]
fn column_cells() {
    let cells = vec![Some(b"GID".to_vec()), None, Some(b"geom".to_vec()), Some(vec![0x61, 0xff])];
    assert_eq!(column_names(&cells), vec!["GID".to_string(), "geom".to_string(), "a\u{FFFD}".to_string()]);
    assert!(column_names(&vec![]).is_empty());
}
