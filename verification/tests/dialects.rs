use spatial_import_tool::database::dialects::dameng::DamengDialect;
use spatial_import_tool::database::dialects::postgres::PostgresDialect;
use spatial_import_tool::database::{create_dialect, Dialect, SqlDialect, SqlStatements};
use spatial_import_tool::models::DbType;

fn names(v: &[&str]) -> Vec<String> {
    v.iter().map(|s| s.to_string()).collect()
}

#[test]
fn postgres_fixed_texts() {
    let d = PostgresDialect;
    assert_eq!(d.db_type(), DbType::PostgreSQL);
    assert_eq!(d.geometry_type_name(), "GEOMETRY");
    assert_eq!(d.auto_increment_pk(), "SERIAL PRIMARY KEY");
    assert_eq!(d.create_table_prefix(), "CREATE TABLE IF NOT EXISTS");
    assert_eq!(d.table_exists_sql(), "SELECT COUNT(*) FROM information_schema.tables WHERE table_name = $1");
    assert_eq!(d.get_table_columns_sql(), "SELECT column_name FROM information_schema.columns WHERE table_name = $1");
    assert_eq!(d.version_sql(), "SELECT version()");
    assert_eq!(d.geom_from_wkt("$1", "$2"), "ST_GeomFromText($1, $2)");
    assert_eq!(d.param_placeholder(7), "$7");
    assert_eq!(d.param_placeholder(1234), "$1234");
}

#[test]
fn dameng_fixed_texts() {
    let d = DamengDialect;
    assert_eq!(d.db_type(), DbType::Dameng);
    assert_eq!(d.geometry_type_name(), "DMI_GEOMETRY");
    assert_eq!(d.auto_increment_pk(), "INT IDENTITY(1,1) PRIMARY KEY");
    assert_eq!(d.create_table_prefix(), "CREATE TABLE IF NOT EXISTS");
    assert_eq!(d.table_exists_sql(), "SELECT COUNT(*) FROM USER_TABLES WHERE TABLE_NAME = ?");
    assert_eq!(d.get_table_columns_sql(), "SELECT COLUMN_NAME FROM USER_TAB_COLUMNS WHERE TABLE_NAME = ?");
    assert_eq!(d.version_sql(), "SELECT * FROM V$VERSION");
    assert_eq!(d.geom_from_wkt("?", "?"), "dmgeo2.ST_GeomFromText(?, ?)");
    assert_eq!(d.param_placeholder(7), "?");
}

#[test]
fn field_type_mapping_is_case_insensitive() {
    let pg = PostgresDialect;
    let dm = DamengDialect;
    assert_eq!(pg.map_field_type("int8"), "BIGINT");
    assert_eq!(pg.map_field_type("Integer"), "INTEGER");
    assert_eq!(pg.map_field_type("real"), "REAL");
    assert_eq!(pg.map_field_type("Float8"), "DOUBLE PRECISION");
    assert_eq!(pg.map_field_type("varchar"), "VARCHAR(255)");
    assert_eq!(pg.map_field_type("DateTime"), "TIMESTAMP");
    assert_eq!(pg.map_field_type("Binary"), "TEXT");
    assert_eq!(dm.map_field_type("real"), "FLOAT");
    assert_eq!(dm.map_field_type("double"), "DOUBLE");
    assert_eq!(dm.map_field_type("timestamp"), "DATETIME");
    assert_eq!(dm.map_field_type("date"), "DATE");
    assert_eq!(dm.map_field_type("time"), "TIME");
    assert_eq!(dm.map_field_type("IntegerList"), "TEXT");
}

#[test]
fn column_type_for_upper_case_names() {
    assert_eq!(PostgresDialect::column_type_for("INT4"), "INTEGER");
    assert_eq!(PostgresDialect::column_type_for("int4"), "TEXT");
    assert_eq!(PostgresDialect::column_type_for("CHAR"), "VARCHAR(255)");
    assert_eq!(DamengDialect::column_type_for("FLOAT4"), "FLOAT");
    assert_eq!(DamengDialect::column_type_for("DATETIME"), "DATETIME");
    assert_eq!(DamengDialect::column_type_for(""), "TEXT");
}

#[test]
fn identifiers_are_quoted_with_inner_quotes_doubled() {
    assert_eq!(PostgresDialect.quote_identifier("roads"), "\"roads\"");
    assert_eq!(PostgresDialect.quote_identifier("a\"b"), "\"a\"\"b\"");
    assert_eq!(DamengDialect.quote_identifier("\""), "\"\"\"\"");
    assert_eq!(DamengDialect.quote_identifier(""), "\"\"");
}

#[test]
fn create_table_statement() {
    let sql = PostgresDialect.create_table_sql("roads", &names(&["name", "len"]), &names(&["String", "Real"]));
    assert_eq!(
        sql,
        "CREATE TABLE IF NOT EXISTS \"roads\" (gid SERIAL PRIMARY KEY, geom GEOMETRY, \"name\" VARCHAR(255), \"len\" REAL)"
    );
    let sql = DamengDialect.create_table_sql("T", &names(&["id"]), &names(&["Integer64"]));
    assert_eq!(
        sql,
        "CREATE TABLE IF NOT EXISTS \"T\" (gid INT IDENTITY(1,1) PRIMARY KEY, geom DMI_GEOMETRY, \"id\" BIGINT)"
    );
    let sql = PostgresDialect.create_table_sql("e", &[], &[]);
    assert_eq!(sql, "CREATE TABLE IF NOT EXISTS \"e\" (gid SERIAL PRIMARY KEY, geom GEOMETRY)");
}

#[test]
fn batch_insert_statement() {
    let sql = PostgresDialect.batch_insert_sql("t", &names(&["a", "b"]), 2);
    assert_eq!(
        sql,
        "INSERT INTO \"t\" (geom, \"a\", \"b\") VALUES (ST_GeomFromText($1, $2), $3, $4), (ST_GeomFromText($5, $6), $7, $8)"
    );
    let sql = DamengDialect.batch_insert_sql("t", &names(&["a"]), 2);
    assert_eq!(
        sql,
        "INSERT INTO \"t\" (geom, \"a\") VALUES (dmgeo2.ST_GeomFromText(?, ?), ?), (dmgeo2.ST_GeomFromText(?, ?), ?)"
    );
    let sql = PostgresDialect.batch_insert_sql("t", &[], 1);
    assert_eq!(sql, "INSERT INTO \"t\" (geom) VALUES (ST_GeomFromText($1, $2))");
    let sql = PostgresDialect.batch_insert_sql("t", &names(&["a"]), 0);
    assert_eq!(sql, "INSERT INTO \"t\" (geom, \"a\") VALUES ");
}

#[test]
fn drop_table_statement() {
    assert_eq!(PostgresDialect.drop_table_sql("x\"y"), "DROP TABLE IF EXISTS \"x\"\"y\"");
    assert_eq!(DamengDialect.drop_table_sql("t"), "DROP TABLE IF EXISTS \"t\"");
}

#[test]
fn create_dialect_gives_the_dialect_of_the_kind() {
    let d = create_dialect(&DbType::PostgreSQL);
    assert!(matches!(d, Dialect::Postgres(_)));
    assert_eq!(d.db_type(), DbType::PostgreSQL);
    assert_eq!(d.param_placeholder(3), "$3");
    let d = create_dialect(&DbType::Dameng);
    assert!(matches!(d, Dialect::Dameng(_)));
    assert_eq!(d.db_type(), DbType::Dameng);
    assert_eq!(d.param_placeholder(3), "?");
    assert_eq!(d.create_table_sql("t", &[], &[]), "CREATE TABLE IF NOT EXISTS \"t\" (gid INT IDENTITY(1,1) PRIMARY KEY, geom DMI_GEOMETRY)");
}

#[test]
fn postgres_placeholders_are_distinct() {
    let d = PostgresDialect;
    let all: Vec<String> = (0..200).map(|i| d.param_placeholder(i)).collect();
    for i in 0..all.len() {
        for j in 0..all.len() {
            if i != j {
                assert_ne!(all[i], all[j]);
            }
        }
    }
}

#[test]
fn type_maps_of_the_two_dialects() {
    let pg = PostgresDialect;
    let dm = DamengDialect;
    for g in ["integer", "INT4", "Integer64", "int8", "string", "char", "varchar", "date", "time", "blob", ""] {
        assert_eq!(pg.map_field_type(g), dm.map_field_type(g), "{:?}", g);
        assert_eq!(pg.map_field_type(g), pg.map_field_type(&g.to_uppercase()));
    }
    assert_eq!((pg.map_field_type("float4"), dm.map_field_type("float4")), ("REAL", "FLOAT"));
    assert_eq!((pg.map_field_type("Float8"), dm.map_field_type("Float8")), ("DOUBLE PRECISION", "DOUBLE"));
    assert_eq!((pg.map_field_type("timestamp"), dm.map_field_type("timestamp")), ("TIMESTAMP", "DATETIME"));
}
