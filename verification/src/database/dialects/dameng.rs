//! The DM8 (Dameng) dialect, with the DMGEO spatial extension.
use crate::database::traits::SqlDialect;
use crate::models::DbType;
use crate::database::dialects::postgres::{known_type_name, PostgresDialect};
use crate::text::{double_quoted, is_ascii_text, law_upper_text_idempotent, push_char, quote_double, str_eq, to_upper, upper_text};
use vstd::prelude::*;

verus! {

/// The Dameng DM8 database.
pub struct DamengDialect;

/// The Dameng column type for an upper-cased GDAL field type name.
pub open spec fn dm_column_type(upper: Seq<char>) -> Seq<char> {
    if upper == "INTEGER"@ || upper == "INT4"@ {
        "INTEGER"@
    } else if upper == "INTEGER64"@ || upper == "INT8"@ {
        "BIGINT"@
    } else if upper == "REAL"@ || upper == "FLOAT4"@ {
        "FLOAT"@
    } else if upper == "DOUBLE"@ || upper == "FLOAT8"@ {
        "DOUBLE"@
    } else if upper == "STRING"@ || upper == "CHAR"@ || upper == "VARCHAR"@ {
        "VARCHAR(255)"@
    } else if upper == "DATE"@ {
        "DATE"@
    } else if upper == "TIME"@ {
        "TIME"@
    } else if upper == "DATETIME"@ || upper == "TIMESTAMP"@ {
        "DATETIME"@
    } else {
        "TEXT"@
    }
}

impl DamengDialect {
    /// The column type for a GDAL field type name that is already upper case.
    pub fn column_type_for(upper: &str) -> (r: &'static str)
        ensures
            r@ == dm_column_type(upper@),
    {
        if str_eq(upper, "INTEGER") || str_eq(upper, "INT4") {
            "INTEGER"
        } else if str_eq(upper, "INTEGER64") || str_eq(upper, "INT8") {
            "BIGINT"
        } else if str_eq(upper, "REAL") || str_eq(upper, "FLOAT4") {
            "FLOAT"
        } else if str_eq(upper, "DOUBLE") || str_eq(upper, "FLOAT8") {
            "DOUBLE"
        } else if str_eq(upper, "STRING") || str_eq(upper, "CHAR") || str_eq(upper, "VARCHAR") {
            "VARCHAR(255)"
        } else if str_eq(upper, "DATE") {
            "DATE"
        } else if str_eq(upper, "TIME") {
            "TIME"
        } else if str_eq(upper, "DATETIME") || str_eq(upper, "TIMESTAMP") {
            "DATETIME"
        } else {
            "TEXT"
        }
    }
}

/// The Dameng column types a GDAL type name can map to; `TEXT` exactly for
/// the names the map does not know.
pub proof fn law_dm_column_type_range(u: Seq<char>)
    ensures
        ({
            let t = dm_column_type(u);
            t == "INTEGER"@ || t == "BIGINT"@ || t == "FLOAT"@ || t == "DOUBLE"@ || t == "VARCHAR(255)"@ || t
                == "DATE"@ || t == "TIME"@ || t == "DATETIME"@ || t == "TEXT"@
        }),
        known_type_name(u) ==> dm_column_type(u) != "TEXT"@,
        !known_type_name(u) ==> dm_column_type(u) == "TEXT"@,
{
    reveal_strlit("TEXT");
    assert("INTEGER"@ != "TEXT"@) by {
        reveal_strlit("INTEGER");
        reveal_strlit("TEXT");
        assert("INTEGER"@.len() != "TEXT"@.len());
    }
    assert("BIGINT"@ != "TEXT"@) by {
        reveal_strlit("BIGINT");
        reveal_strlit("TEXT");
        assert("BIGINT"@.len() != "TEXT"@.len());
    }
    assert("FLOAT"@ != "TEXT"@) by {
        reveal_strlit("FLOAT");
        reveal_strlit("TEXT");
        assert("FLOAT"@.len() != "TEXT"@.len());
    }
    assert("DOUBLE"@ != "TEXT"@) by {
        reveal_strlit("DOUBLE");
        reveal_strlit("TEXT");
        assert("DOUBLE"@.len() != "TEXT"@.len());
    }
    assert("VARCHAR(255)"@ != "TEXT"@) by {
        reveal_strlit("VARCHAR(255)");
        reveal_strlit("TEXT");
        assert("VARCHAR(255)"@.len() != "TEXT"@.len());
    }
    assert("DATE"@ != "TEXT"@) by {
        reveal_strlit("DATE");
        reveal_strlit("TEXT");
        assert("DATE"@[0] != "TEXT"@[0] || "DATE"@[1] != "TEXT"@[1]);
    }
    assert("TIME"@ != "TEXT"@) by {
        reveal_strlit("TIME");
        reveal_strlit("TEXT");
        assert("TIME"@[0] != "TEXT"@[0] || "TIME"@[1] != "TEXT"@[1]);
    }
    assert("DATETIME"@ != "TEXT"@) by {
        reveal_strlit("DATETIME");
        reveal_strlit("TEXT");
        assert("DATETIME"@.len() != "TEXT"@.len());
    }
}

/// Mapping the upper-cased form of an ASCII type name gives the same column
/// type as mapping the name itself.
pub proof fn law_dm_map_of_upper(g: Seq<char>)
    requires
        is_ascii_text(g),
    ensures
        DamengDialect.spec_map_field_type(upper_text(g)) == DamengDialect.spec_map_field_type(g),
{
    law_upper_text_idempotent(g);
}

/// The two dialects map type names alike, except for floating-point and
/// date-time names: Dameng's `FLOAT`, `DOUBLE` and `DATETIME` where
/// PostgreSQL has `REAL`, `DOUBLE PRECISION` and `TIMESTAMP`.
pub proof fn law_dialect_type_maps(g: Seq<char>)
    ensures
        ({
            let u = upper_text(g);
            let dm = DamengDialect.spec_map_field_type(g);
            let pg = PostgresDialect.spec_map_field_type(g);
            &&& (u == "REAL"@ || u == "FLOAT4"@) ==> dm == "FLOAT"@ && pg == "REAL"@
            &&& (u == "DOUBLE"@ || u == "FLOAT8"@) ==> dm == "DOUBLE"@ && pg == "DOUBLE PRECISION"@
            &&& (u == "DATETIME"@ || u == "TIMESTAMP"@) ==> dm == "DATETIME"@ && pg == "TIMESTAMP"@
            &&& !(u == "REAL"@ || u == "FLOAT4"@ || u == "DOUBLE"@ || u == "FLOAT8"@ || u == "DATETIME"@ || u
                == "TIMESTAMP"@) ==> dm == pg
        }),
{
    reveal_strlit("INTEGER");
    reveal_strlit("INT4");
    reveal_strlit("INTEGER64");
    reveal_strlit("INT8");
    reveal_strlit("REAL");
    reveal_strlit("FLOAT4");
    reveal_strlit("DOUBLE");
    reveal_strlit("FLOAT8");
    reveal_strlit("STRING");
    reveal_strlit("CHAR");
    reveal_strlit("VARCHAR");
    reveal_strlit("DATE");
    reveal_strlit("TIME");
    reveal_strlit("DATETIME");
    reveal_strlit("TIMESTAMP");
    // Each of the six names that the maps treat apart differs from every other
    // known name, in length or in some character.
    assert("REAL"@.len() != "INTEGER"@.len());
    assert("REAL"@[0] != "INT4"@[0]);
    assert("REAL"@.len() != "INTEGER64"@.len());
    assert("REAL"@[0] != "INT8"@[0]);
    assert("REAL"@.len() != "FLOAT4"@.len());
    assert("REAL"@.len() != "DOUBLE"@.len());
    assert("REAL"@.len() != "FLOAT8"@.len());
    assert("REAL"@.len() != "STRING"@.len());
    assert("REAL"@[0] != "CHAR"@[0]);
    assert("REAL"@.len() != "VARCHAR"@.len());
    assert("REAL"@[0] != "DATE"@[0]);
    assert("REAL"@[0] != "TIME"@[0]);
    assert("REAL"@.len() != "DATETIME"@.len());
    assert("REAL"@.len() != "TIMESTAMP"@.len());
    assert("FLOAT4"@.len() != "INTEGER"@.len());
    assert("FLOAT4"@.len() != "INT4"@.len());
    assert("FLOAT4"@.len() != "INTEGER64"@.len());
    assert("FLOAT4"@.len() != "INT8"@.len());
    assert("FLOAT4"@.len() != "REAL"@.len());
    assert("FLOAT4"@[0] != "DOUBLE"@[0]);
    assert("FLOAT4"@[5] != "FLOAT8"@[5]);
    assert("FLOAT4"@[0] != "STRING"@[0]);
    assert("FLOAT4"@.len() != "CHAR"@.len());
    assert("FLOAT4"@.len() != "VARCHAR"@.len());
    assert("FLOAT4"@.len() != "DATE"@.len());
    assert("FLOAT4"@.len() != "TIME"@.len());
    assert("FLOAT4"@.len() != "DATETIME"@.len());
    assert("FLOAT4"@.len() != "TIMESTAMP"@.len());
    assert("DOUBLE"@.len() != "INTEGER"@.len());
    assert("DOUBLE"@.len() != "INT4"@.len());
    assert("DOUBLE"@.len() != "INTEGER64"@.len());
    assert("DOUBLE"@.len() != "INT8"@.len());
    assert("DOUBLE"@.len() != "REAL"@.len());
    assert("DOUBLE"@[0] != "FLOAT4"@[0]);
    assert("DOUBLE"@[0] != "FLOAT8"@[0]);
    assert("DOUBLE"@[0] != "STRING"@[0]);
    assert("DOUBLE"@.len() != "CHAR"@.len());
    assert("DOUBLE"@.len() != "VARCHAR"@.len());
    assert("DOUBLE"@.len() != "DATE"@.len());
    assert("DOUBLE"@.len() != "TIME"@.len());
    assert("DOUBLE"@.len() != "DATETIME"@.len());
    assert("DOUBLE"@.len() != "TIMESTAMP"@.len());
    assert("FLOAT8"@.len() != "INTEGER"@.len());
    assert("FLOAT8"@.len() != "INT4"@.len());
    assert("FLOAT8"@.len() != "INTEGER64"@.len());
    assert("FLOAT8"@.len() != "INT8"@.len());
    assert("FLOAT8"@.len() != "REAL"@.len());
    assert("FLOAT8"@[5] != "FLOAT4"@[5]);
    assert("FLOAT8"@[0] != "DOUBLE"@[0]);
    assert("FLOAT8"@[0] != "STRING"@[0]);
    assert("FLOAT8"@.len() != "CHAR"@.len());
    assert("FLOAT8"@.len() != "VARCHAR"@.len());
    assert("FLOAT8"@.len() != "DATE"@.len());
    assert("FLOAT8"@.len() != "TIME"@.len());
    assert("FLOAT8"@.len() != "DATETIME"@.len());
    assert("FLOAT8"@.len() != "TIMESTAMP"@.len());
    assert("DATETIME"@.len() != "INTEGER"@.len());
    assert("DATETIME"@.len() != "INT4"@.len());
    assert("DATETIME"@.len() != "INTEGER64"@.len());
    assert("DATETIME"@.len() != "INT8"@.len());
    assert("DATETIME"@.len() != "REAL"@.len());
    assert("DATETIME"@.len() != "FLOAT4"@.len());
    assert("DATETIME"@.len() != "DOUBLE"@.len());
    assert("DATETIME"@.len() != "FLOAT8"@.len());
    assert("DATETIME"@.len() != "STRING"@.len());
    assert("DATETIME"@.len() != "CHAR"@.len());
    assert("DATETIME"@.len() != "VARCHAR"@.len());
    assert("DATETIME"@.len() != "DATE"@.len());
    assert("DATETIME"@.len() != "TIME"@.len());
    assert("DATETIME"@.len() != "TIMESTAMP"@.len());
    assert("TIMESTAMP"@.len() != "INTEGER"@.len());
    assert("TIMESTAMP"@.len() != "INT4"@.len());
    assert("TIMESTAMP"@[0] != "INTEGER64"@[0]);
    assert("TIMESTAMP"@.len() != "INT8"@.len());
    assert("TIMESTAMP"@.len() != "REAL"@.len());
    assert("TIMESTAMP"@.len() != "FLOAT4"@.len());
    assert("TIMESTAMP"@.len() != "DOUBLE"@.len());
    assert("TIMESTAMP"@.len() != "FLOAT8"@.len());
    assert("TIMESTAMP"@.len() != "STRING"@.len());
    assert("TIMESTAMP"@.len() != "CHAR"@.len());
    assert("TIMESTAMP"@.len() != "VARCHAR"@.len());
    assert("TIMESTAMP"@.len() != "DATE"@.len());
    assert("TIMESTAMP"@.len() != "TIME"@.len());
    assert("TIMESTAMP"@.len() != "DATETIME"@.len());
}

impl SqlDialect for DamengDialect {
    open spec fn spec_db_type(&self) -> DbType {
        DbType::Dameng
    }

    open spec fn spec_geometry_type_name(&self) -> Seq<char> {
        "DMI_GEOMETRY"@
    }

    open spec fn spec_auto_increment_pk(&self) -> Seq<char> {
        "INT IDENTITY(1,1) PRIMARY KEY"@
    }

    open spec fn spec_geom_from_wkt(&self, wkt_param: Seq<char>, srid_param: Seq<char>) -> Seq<char> {
        "dmgeo2.ST_GeomFromText("@ + wkt_param + ", "@ + srid_param + seq![')']
    }

    open spec fn spec_map_field_type(&self, gdal_type: Seq<char>) -> Seq<char> {
        dm_column_type(upper_text(gdal_type))
    }

    open spec fn spec_quote_identifier(&self, name: Seq<char>) -> Seq<char> {
        double_quoted(name)
    }

    open spec fn spec_param_placeholder(&self, idx: nat) -> Seq<char> {
        seq!['?']
    }

    open spec fn spec_create_table_prefix(&self) -> Seq<char> {
        "CREATE TABLE IF NOT EXISTS"@
    }

    open spec fn spec_table_exists_sql(&self) -> Seq<char> {
        "SELECT COUNT(*) FROM USER_TABLES WHERE TABLE_NAME = ?"@
    }

    open spec fn spec_get_table_columns_sql(&self) -> Seq<char> {
        "SELECT COLUMN_NAME FROM USER_TAB_COLUMNS WHERE TABLE_NAME = ?"@
    }

    open spec fn spec_version_sql(&self) -> Seq<char> {
        "SELECT * FROM V$VERSION"@
    }

    fn db_type(&self) -> (r: DbType) {
        DbType::Dameng
    }

    fn geometry_type_name(&self) -> (r: &str) {
        "DMI_GEOMETRY"
    }

    fn auto_increment_pk(&self) -> (r: &str) {
        "INT IDENTITY(1,1) PRIMARY KEY"
    }

    fn geom_from_wkt(&self, wkt_param: &str, srid_param: &str) -> (r: String) {
        let mut s = String::new();
        s.append("dmgeo2.ST_GeomFromText(");
        s.append(wkt_param);
        s.append(", ");
        s.append(srid_param);
        push_char(&mut s, ')');
        s
    }

    fn map_field_type(&self, gdal_type: &str) -> (r: &str) {
        let upper = to_upper(gdal_type);
        DamengDialect::column_type_for(upper.as_str())
    }

    fn quote_identifier(&self, name: &str) -> (r: String) {
        quote_double(name)
    }

    fn param_placeholder(&self, idx: usize) -> (r: String) {
        let mut s = String::new();
        push_char(&mut s, '?');
        s
    }

    fn create_table_prefix(&self) -> (r: &str) {
        "CREATE TABLE IF NOT EXISTS"
    }

    fn table_exists_sql(&self) -> (r: &str) {
        "SELECT COUNT(*) FROM USER_TABLES WHERE TABLE_NAME = ?"
    }

    fn get_table_columns_sql(&self) -> (r: &str) {
        "SELECT COLUMN_NAME FROM USER_TAB_COLUMNS WHERE TABLE_NAME = ?"
    }

    fn version_sql(&self) -> (r: &str) {
        "SELECT * FROM V$VERSION"
    }
}

} // verus!
