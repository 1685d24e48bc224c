//! The PostgreSQL/PostGIS dialect.
use crate::database::traits::SqlDialect;
use crate::models::DbType;
use crate::text::{
    digits_of, double_quoted, is_ascii_text, law_upper_text_idempotent, push_char, quote_double, str_eq, to_upper,
    u64_to_decimal, upper_text,
};
use vstd::prelude::*;

verus! {

/// PostgreSQL with the PostGIS extension.
pub struct PostgresDialect;

/// Whether an upper-cased GDAL type name is one the column-type maps know.
pub open spec fn known_type_name(u: Seq<char>) -> bool {
    u == "INTEGER"@ || u == "INT4"@ || u == "INTEGER64"@ || u == "INT8"@ || u == "REAL"@ || u == "FLOAT4"@
        || u == "DOUBLE"@ || u == "FLOAT8"@ || u == "STRING"@ || u == "CHAR"@ || u == "VARCHAR"@ || u
        == "DATE"@ || u == "TIME"@ || u == "DATETIME"@ || u == "TIMESTAMP"@
}

/// The PostgreSQL column type for an upper-cased GDAL field type name.
pub open spec fn pg_column_type(upper: Seq<char>) -> Seq<char> {
    if upper == "INTEGER"@ || upper == "INT4"@ {
        "INTEGER"@
    } else if upper == "INTEGER64"@ || upper == "INT8"@ {
        "BIGINT"@
    } else if upper == "REAL"@ || upper == "FLOAT4"@ {
        "REAL"@
    } else if upper == "DOUBLE"@ || upper == "FLOAT8"@ {
        "DOUBLE PRECISION"@
    } else if upper == "STRING"@ || upper == "CHAR"@ || upper == "VARCHAR"@ {
        "VARCHAR(255)"@
    } else if upper == "DATE"@ {
        "DATE"@
    } else if upper == "TIME"@ {
        "TIME"@
    } else if upper == "DATETIME"@ || upper == "TIMESTAMP"@ {
        "TIMESTAMP"@
    } else {
        "TEXT"@
    }
}

impl PostgresDialect {
    /// The column type for a GDAL field type name that is already upper case.
    pub fn column_type_for(upper: &str) -> (r: &'static str)
        ensures
            r@ == pg_column_type(upper@),
    {
        if str_eq(upper, "INTEGER") || str_eq(upper, "INT4") {
            "INTEGER"
        } else if str_eq(upper, "INTEGER64") || str_eq(upper, "INT8") {
            "BIGINT"
        } else if str_eq(upper, "REAL") || str_eq(upper, "FLOAT4") {
            "REAL"
        } else if str_eq(upper, "DOUBLE") || str_eq(upper, "FLOAT8") {
            "DOUBLE PRECISION"
        } else if str_eq(upper, "STRING") || str_eq(upper, "CHAR") || str_eq(upper, "VARCHAR") {
            "VARCHAR(255)"
        } else if str_eq(upper, "DATE") {
            "DATE"
        } else if str_eq(upper, "TIME") {
            "TIME"
        } else if str_eq(upper, "DATETIME") || str_eq(upper, "TIMESTAMP") {
            "TIMESTAMP"
        } else {
            "TEXT"
        }
    }
}

/// PostgreSQL placeholders name distinct parameters: different numbers give
/// different placeholders.
pub proof fn law_placeholders_distinct(i: nat, j: nat)
    requires
        i != j,
    ensures
        PostgresDialect.spec_param_placeholder(i) != PostgresDialect.spec_param_placeholder(j),
{
    crate::text::lemma_decimal_injective(i as int, j as int);
    let a = seq!['$'] + digits_of(i);
    let b = seq!['$'] + digits_of(j);
    if a == b {
        assert(digits_of(i) =~= a.skip(1));
        assert(digits_of(j) =~= b.skip(1));
    }
}

/// The PostgreSQL column types a GDAL type name can map to; `TEXT` exactly for
/// the names the map does not know.
pub proof fn law_pg_column_type_range(u: Seq<char>)
    ensures
        ({
            let t = pg_column_type(u);
            t == "INTEGER"@ || t == "BIGINT"@ || t == "REAL"@ || t == "DOUBLE PRECISION"@ || t == "VARCHAR(255)"@
                || t == "DATE"@ || t == "TIME"@ || t == "TIMESTAMP"@ || t == "TEXT"@
        }),
        known_type_name(u) ==> pg_column_type(u) != "TEXT"@,
        !known_type_name(u) ==> pg_column_type(u) == "TEXT"@,
{
    reveal_strlit("TEXT");
    assert("INTEGER"@ != "TEXT"@) by {
        reveal_strlit("INTEGER");
        reveal_strlit("TEXT");
        assert("INTEGER"@.len() != "TEXT"@.len());
    }
    assert("BIGINT"@ != "TEXT"@) by {
        reveal_strlit("BIGINT");
        reveal_strlit("TEXT");
        assert("BIGINT"@.len() != "TEXT"@.len());
    }
    assert("REAL"@ != "TEXT"@) by {
        reveal_strlit("REAL");
        reveal_strlit("TEXT");
        assert("REAL"@[0] != "TEXT"@[0] || "REAL"@[1] != "TEXT"@[1]);
    }
    assert("DOUBLE PRECISION"@ != "TEXT"@) by {
        reveal_strlit("DOUBLE PRECISION");
        reveal_strlit("TEXT");
        assert("DOUBLE PRECISION"@.len() != "TEXT"@.len());
    }
    assert("VARCHAR(255)"@ != "TEXT"@) by {
        reveal_strlit("VARCHAR(255)");
        reveal_strlit("TEXT");
        assert("VARCHAR(255)"@.len() != "TEXT"@.len());
    }
    assert("DATE"@ != "TEXT"@) by {
        reveal_strlit("DATE");
        reveal_strlit("TEXT");
        assert("DATE"@[0] != "TEXT"@[0] || "DATE"@[1] != "TEXT"@[1]);
    }
    assert("TIME"@ != "TEXT"@) by {
        reveal_strlit("TIME");
        reveal_strlit("TEXT");
        assert("TIME"@[0] != "TEXT"@[0] || "TIME"@[1] != "TEXT"@[1]);
    }
    assert("TIMESTAMP"@ != "TEXT"@) by {
        reveal_strlit("TIMESTAMP");
        reveal_strlit("TEXT");
        assert("TIMESTAMP"@.len() != "TEXT"@.len());
    }
}

/// Mapping the upper-cased form of an ASCII type name gives the same column
/// type as mapping the name itself.
pub proof fn law_pg_map_of_upper(g: Seq<char>)
    requires
        is_ascii_text(g),
    ensures
        PostgresDialect.spec_map_field_type(upper_text(g)) == PostgresDialect.spec_map_field_type(g),
{
    law_upper_text_idempotent(g);
}

impl SqlDialect for PostgresDialect {
    open spec fn spec_db_type(&self) -> DbType {
        DbType::PostgreSQL
    }

    open spec fn spec_geometry_type_name(&self) -> Seq<char> {
        "GEOMETRY"@
    }

    open spec fn spec_auto_increment_pk(&self) -> Seq<char> {
        "SERIAL PRIMARY KEY"@
    }

    open spec fn spec_geom_from_wkt(&self, wkt_param: Seq<char>, srid_param: Seq<char>) -> Seq<char> {
        "ST_GeomFromText("@ + wkt_param + ", "@ + srid_param + seq![')']
    }

    open spec fn spec_map_field_type(&self, gdal_type: Seq<char>) -> Seq<char> {
        pg_column_type(upper_text(gdal_type))
    }

    open spec fn spec_quote_identifier(&self, name: Seq<char>) -> Seq<char> {
        double_quoted(name)
    }

    open spec fn spec_param_placeholder(&self, idx: nat) -> Seq<char> {
        seq!['$'] + digits_of(idx)
    }

    open spec fn spec_create_table_prefix(&self) -> Seq<char> {
        "CREATE TABLE IF NOT EXISTS"@
    }

    open spec fn spec_table_exists_sql(&self) -> Seq<char> {
        "SELECT COUNT(*) FROM information_schema.tables WHERE table_name = $1"@
    }

    open spec fn spec_get_table_columns_sql(&self) -> Seq<char> {
        "SELECT column_name FROM information_schema.columns WHERE table_name = $1"@
    }

    open spec fn spec_version_sql(&self) -> Seq<char> {
        "SELECT version()"@
    }

    fn db_type(&self) -> (r: DbType) {
        DbType::PostgreSQL
    }

    fn geometry_type_name(&self) -> (r: &str) {
        "GEOMETRY"
    }

    fn auto_increment_pk(&self) -> (r: &str) {
        "SERIAL PRIMARY KEY"
    }

    fn geom_from_wkt(&self, wkt_param: &str, srid_param: &str) -> (r: String) {
        let mut s = String::new();
        s.append("ST_GeomFromText(");
        s.append(wkt_param);
        s.append(", ");
        s.append(srid_param);
        push_char(&mut s, ')');
        s
    }

    fn map_field_type(&self, gdal_type: &str) -> (r: &str) {
        let upper = to_upper(gdal_type);
        PostgresDialect::column_type_for(upper.as_str())
    }

    fn quote_identifier(&self, name: &str) -> (r: String) {
        quote_double(name)
    }

    fn param_placeholder(&self, idx: usize) -> (r: String) {
        let mut s = String::new();
        push_char(&mut s, '$');
        let d = u64_to_decimal(idx as u64);
        s.append(d.as_str());
        s
    }

    fn create_table_prefix(&self) -> (r: &str) {
        "CREATE TABLE IF NOT EXISTS"
    }

    fn table_exists_sql(&self) -> (r: &str) {
        "SELECT COUNT(*) FROM information_schema.tables WHERE table_name = $1"
    }

    fn get_table_columns_sql(&self) -> (r: &str) {
        "SELECT column_name FROM information_schema.columns WHERE table_name = $1"
    }

    fn version_sql(&self) -> (r: &str) {
        "SELECT version()"
    }
}

} // verus!
