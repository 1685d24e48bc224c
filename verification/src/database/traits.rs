//! The SQL dialect abstraction: the texts in which databases differ, and the
//! statements built from them.
use crate::database::dialects::dameng::DamengDialect;
use crate::database::dialects::postgres::PostgresDialect;
use crate::models::{strings_view, DbType};
use crate::text::{double_quoted, push_char, upper_text};
use vstd::prelude::*;

verus! {

/// The syntax in which one kind of database differs from another.
///
/// Each method is tied to a spec function of the same name that says exactly
/// what text it gives; the statements built from them (`create_table_sql`,
/// `batch_insert_sql`, `drop_table_sql`) are specified over those.
pub trait SqlDialect: Send + Sync {
    /// The database kind this dialect speaks to.
    spec fn spec_db_type(&self) -> DbType;

    /// Name of the column type that holds geometries.
    spec fn spec_geometry_type_name(&self) -> Seq<char>;

    /// Column definition of an auto-incrementing primary key.
    spec fn spec_auto_increment_pk(&self) -> Seq<char>;

    /// The expression that turns WKT text and an SRID into a geometry.
    spec fn spec_geom_from_wkt(&self, wkt_param: Seq<char>, srid_param: Seq<char>) -> Seq<char>;

    /// The column type used for a GDAL field type name.
    spec fn spec_map_field_type(&self, gdal_type: Seq<char>) -> Seq<char>;

    /// An identifier quoted for this database.
    spec fn spec_quote_identifier(&self, name: Seq<char>) -> Seq<char>;

    /// The placeholder of the statement parameter numbered `idx` (from 1).
    spec fn spec_param_placeholder(&self, idx: nat) -> Seq<char>;

    /// The words that begin a CREATE TABLE statement.
    spec fn spec_create_table_prefix(&self) -> Seq<char>;

    /// Query counting the tables of a given name (one parameter).
    spec fn spec_table_exists_sql(&self) -> Seq<char>;

    /// Query listing the columns of a given table (one parameter).
    spec fn spec_get_table_columns_sql(&self) -> Seq<char>;

    /// Query giving the server version.
    spec fn spec_version_sql(&self) -> Seq<char>;

    /// Which database kind this is.
    fn db_type(&self) -> (r: DbType)
        ensures
            r == self.spec_db_type(),
    ;

    /// Column type name of geometries.
    fn geometry_type_name(&self) -> (r: &str)
        ensures
            r@ == self.spec_geometry_type_name(),
    ;

    /// Primary-key column definition.
    fn auto_increment_pk(&self) -> (r: &str)
        ensures
            r@ == self.spec_auto_increment_pk(),
    ;

    /// Geometry-from-WKT expression over two parameter texts.
    fn geom_from_wkt(&self, wkt_param: &str, srid_param: &str) -> (r: String)
        ensures
            r@ == self.spec_geom_from_wkt(wkt_param@, srid_param@),
    ;

    /// Column type for a GDAL field type name.
    fn map_field_type(&self, gdal_type: &str) -> (r: &str)
        ensures
            r@ == self.spec_map_field_type(gdal_type@),
    ;

    /// Quoted identifier.
    fn quote_identifier(&self, name: &str) -> (r: String)
        ensures
            r@ == self.spec_quote_identifier(name@),
    ;

    /// Placeholder of parameter `idx`.
    fn param_placeholder(&self, idx: usize) -> (r: String)
        ensures
            r@ == self.spec_param_placeholder(idx as nat),
    ;

    /// Start of a CREATE TABLE statement.
    fn create_table_prefix(&self) -> (r: &str)
        ensures
            r@ == self.spec_create_table_prefix(),
    ;

    /// Table-existence query.
    fn table_exists_sql(&self) -> (r: &str)
        ensures
            r@ == self.spec_table_exists_sql(),
    ;

    /// Column-listing query.
    fn get_table_columns_sql(&self) -> (r: &str)
        ensures
            r@ == self.spec_get_table_columns_sql(),
    ;

    /// Version query.
    fn version_sql(&self) -> (r: &str)
        ensures
            r@ == self.spec_version_sql(),
    ;
}

/// The statements every dialect builds from its texts: the provided part of
/// the dialect interface, available on every `SqlDialect`.
pub trait SqlStatements: SqlDialect {
    /// The CREATE TABLE statement for a table with a `gid` key, a `geom`
    /// geometry column and one column per field.
    fn create_table_sql(&self, table_name: &str, field_names: &[String], field_types: &[String]) -> (r: String)
        requires
            field_names@.len() <= field_types@.len(),
        ensures
            r@ == create_table_text(
                self,
                table_name@,
                strings_view(field_names@),
                strings_view(field_types@),
            ),
    {
        let quoted_table = self.quote_identifier(table_name);
        let mut sql = String::new();
        sql.append(self.create_table_prefix());
        push_char(&mut sql, ' ');
        sql.append(quoted_table.as_str());
        sql.append(" (gid ");
        sql.append(self.auto_increment_pk());
        sql.append(", geom ");
        sql.append(self.geometry_type_name());
        let ghost names = strings_view(field_names@);
        let ghost types = strings_view(field_types@);
        let ghost head = create_table_head(self, table_name@);
        assert(sql@ == head + column_defs(self, names, types, 0));
        let mut i: usize = 0;
        while i < field_names.len()
            invariant
                i <= field_names@.len() <= field_types@.len(),
                names == strings_view(field_names@),
                types == strings_view(field_types@),
                sql@ == head + column_defs(self, names, types, i as nat),
            decreases field_names@.len() - i,
        {
            let quoted_field = self.quote_identifier(field_names[i].as_str());
            let field_type = self.map_field_type(field_types[i].as_str());
            let ghost before = sql@;
            sql.append(", ");
            sql.append(quoted_field.as_str());
            push_char(&mut sql, ' ');
            sql.append(field_type);
            assert(sql@ == before + (", "@ + self.spec_quote_identifier(names[i as int]) + seq![' '] + self.spec_map_field_type(types[i as int])));
            i = i + 1;
        }
        push_char(&mut sql, ')');
        sql
    }

    /// A multi-row INSERT of `batch_size` rows, each giving a geometry from
    /// two parameters (WKT, SRID) followed by one parameter per field;
    /// parameters are numbered from 1 in order.
    fn batch_insert_sql(&self, table_name: &str, field_names: &[String], batch_size: usize) -> (r: String)
        requires
            (batch_size as int) * (field_names@.len() + 2) < usize::MAX,
        ensures
            r@ == batch_insert_text(self, table_name@, strings_view(field_names@), batch_size as nat),
    {
        let quoted_table = self.quote_identifier(table_name);
        let field_count = field_names.len();
        let ghost names = strings_view(field_names@);
        let mut sql = String::new();
        sql.append("INSERT INTO ");
        sql.append(quoted_table.as_str());
        sql.append(" (geom");
        let mut i: usize = 0;
        while i < field_count
            invariant
                i <= field_count == field_names@.len(),
                names == strings_view(field_names@),
                sql@ == "INSERT INTO "@ + self.spec_quote_identifier(table_name@) + " (geom"@
                    + quoted_list(self, names, i as nat),
            decreases field_count - i,
        {
            sql.append(", ");
            let q = self.quote_identifier(field_names[i].as_str());
            sql.append(q.as_str());
            i = i + 1;
        }
        sql.append(") VALUES ");
        let ghost head = sql@;
        let mut row: usize = 0;
        let mut param_idx: usize = 1;
        while row < batch_size
            invariant
                row <= batch_size,
                field_count == field_names@.len(),
                (batch_size as int) * (field_count + 2) < usize::MAX,
                param_idx as int == 1 + (row as int) * (field_count + 2),
                sql@ == head + value_rows(self, field_count as nat, row as nat),
            decreases batch_size - row,
        {
            proof {
                assert((row as int + 1) * (field_count + 2) <= (batch_size as int) * (field_count + 2))
                    by (nonlinear_arith)
                    requires row < batch_size;
                assert((row as int + 1) * (field_count + 2) == (row as int) * (field_count + 2) + field_count + 2)
                    by (nonlinear_arith);
            }
            if row > 0 {
                sql.append(", ");
            }
            let row_base = param_idx;
            let wkt_ph = self.param_placeholder(param_idx);
            let srid_ph = self.param_placeholder(param_idx + 1);
            let geom_expr = self.geom_from_wkt(wkt_ph.as_str(), srid_ph.as_str());
            param_idx = param_idx + 2;
            let ghost before_row = sql@;
            push_char(&mut sql, '(');
            sql.append(geom_expr.as_str());
            let mut j: usize = 0;
            while j < field_count
                invariant
                    j <= field_count,
                    param_idx as int == row_base + 2 + j,
                    (row_base + 2 + field_count) as int <= usize::MAX,
                    sql@ == before_row + seq!['('] + self.spec_geom_from_wkt(
                        self.spec_param_placeholder(row_base as nat),
                        self.spec_param_placeholder((row_base + 1) as nat),
                    ) + param_list(self, (row_base + 2) as nat, j as nat),
                decreases field_count - j,
            {
                let ph = self.param_placeholder(param_idx);
                sql.append(", ");
                sql.append(ph.as_str());
                param_idx = param_idx + 1;
                j = j + 1;
            }
            push_char(&mut sql, ')');
            row = row + 1;
        }
        sql
    }

    /// `DROP TABLE IF EXISTS` and the quoted table name.
    fn drop_table_sql(&self, table_name: &str) -> (r: String)
        ensures
            r@ == "DROP TABLE IF EXISTS "@ + self.spec_quote_identifier(table_name@),
    {
        let mut sql = String::new();
        sql.append("DROP TABLE IF EXISTS ");
        let q = self.quote_identifier(table_name);
        sql.append(q.as_str());
        sql
    }
}

impl<D: SqlDialect + ?Sized> SqlStatements for D {
}

/// The part of a CREATE TABLE statement before the field columns.
pub open spec fn create_table_head<D: SqlDialect + ?Sized>(d: &D, table: Seq<char>) -> Seq<char> {
    d.spec_create_table_prefix() + seq![' '] + d.spec_quote_identifier(table) + " (gid "@
        + d.spec_auto_increment_pk() + ", geom "@ + d.spec_geometry_type_name()
}

/// `, <quoted name> <column type>` for each of the first `k` fields.
pub open spec fn column_defs<D: SqlDialect + ?Sized>(
    d: &D,
    names: Seq<Seq<char>>,
    types: Seq<Seq<char>>,
    k: nat,
) -> Seq<char>
    decreases k,
{
    if k == 0 {
        Seq::empty()
    } else {
        column_defs(d, names, types, (k - 1) as nat) + (", "@ + d.spec_quote_identifier(names[k - 1])
            + seq![' '] + d.spec_map_field_type(types[k - 1]))
    }
}

/// The whole CREATE TABLE statement.
pub open spec fn create_table_text<D: SqlDialect + ?Sized>(
    d: &D,
    table: Seq<char>,
    names: Seq<Seq<char>>,
    types: Seq<Seq<char>>,
) -> Seq<char> {
    create_table_head(d, table) + column_defs(d, names, types, names.len()) + seq![')']
}

/// `, <quoted name>` for each of the first `k` field names.
pub open spec fn quoted_list<D: SqlDialect + ?Sized>(d: &D, names: Seq<Seq<char>>, k: nat) -> Seq<char>
    decreases k,
{
    if k == 0 {
        Seq::empty()
    } else {
        quoted_list(d, names, (k - 1) as nat) + (", "@ + d.spec_quote_identifier(names[k - 1]))
    }
}

/// `, <placeholder>` for `k` consecutive parameters starting at `start`.
pub open spec fn param_list<D: SqlDialect + ?Sized>(d: &D, start: nat, k: nat) -> Seq<char>
    decreases k,
{
    if k == 0 {
        Seq::empty()
    } else {
        param_list(d, start, (k - 1) as nat) + (", "@ + d.spec_param_placeholder((start + k - 1) as nat))
    }
}

/// One row of values whose parameters start at `base`.
pub open spec fn value_row<D: SqlDialect + ?Sized>(d: &D, field_count: nat, base: nat) -> Seq<char> {
    seq!['('] + d.spec_geom_from_wkt(d.spec_param_placeholder(base), d.spec_param_placeholder(base + 1))
        + param_list(d, base + 2, field_count) + seq![')']
}

/// The first `k` value rows, joined by `, `.
pub open spec fn value_rows<D: SqlDialect + ?Sized>(d: &D, field_count: nat, k: nat) -> Seq<char>
    decreases k,
{
    if k == 0 {
        Seq::empty()
    } else if k == 1 {
        value_row(d, field_count, 1)
    } else {
        value_rows(d, field_count, (k - 1) as nat) + ", "@ + value_row(
            d,
            field_count,
            (1 + (k - 1) * (field_count + 2)) as nat,
        )
    }
}

/// The whole multi-row INSERT statement.
pub open spec fn batch_insert_text<D: SqlDialect + ?Sized>(
    d: &D,
    table: Seq<char>,
    names: Seq<Seq<char>>,
    batch_size: nat,
) -> Seq<char> {
    "INSERT INTO "@ + d.spec_quote_identifier(table) + " (geom"@ + quoted_list(d, names, names.len())
        + ") VALUES "@ + value_rows(d, names.len(), batch_size)
}

/// `, <placeholder>` for each parameter number of `nums`, in order.
pub open spec fn placeholders_text<D: SqlDialect + ?Sized>(d: &D, nums: Seq<nat>) -> Seq<char>
    decreases nums.len(),
{
    if nums.len() == 0 {
        Seq::empty()
    } else {
        placeholders_text(d, nums.drop_last()) + (", "@ + d.spec_param_placeholder(nums.last()))
    }
}

/// The parameter numbers of the value row starting at `base`, in order: the
/// WKT's, the SRID's, then one per field.
pub open spec fn row_numbers(field_count: nat, base: nat) -> Seq<nat> {
    Seq::new(field_count + 2, |j: int| (base + j) as nat)
}

/// The parameter numbers of the first `k` value rows, in order.
pub open spec fn rows_numbers(field_count: nat, k: nat) -> Seq<nat>
    decreases k,
{
    if k == 0 {
        Seq::empty()
    } else {
        rows_numbers(field_count, (k - 1) as nat) + row_numbers(
            field_count,
            (1 + (k - 1) * (field_count + 2)) as nat,
        )
    }
}

proof fn lemma_param_list_numbers<D: SqlDialect + ?Sized>(d: &D, start: nat, k: nat)
    ensures
        param_list(d, start, k) == placeholders_text(d, Seq::new(k, |j: int| (start + j) as nat)),
    decreases k,
{
    if k > 0 {
        lemma_param_list_numbers(d, start, (k - 1) as nat);
        let f = |j: int| (start + j) as nat;
        assert(Seq::new(k, f).drop_last() =~= Seq::new((k - 1) as nat, f));
        assert(Seq::new(k, f).last() == (start + k - 1) as nat);
    } else {
        assert(Seq::new(0, |j: int| (start + j) as nat) =~= Seq::<nat>::empty());
    }
}

proof fn lemma_rows_numbers(n: nat, k: nat)
    ensures
        rows_numbers(n, k) == Seq::new(k * (n + 2), |i: int| (i + 1) as nat),
    decreases k,
{
    if k == 0 {
        assert(rows_numbers(n, k) =~= Seq::new(k * (n + 2), |i: int| (i + 1) as nat));
    } else {
        lemma_rows_numbers(n, (k - 1) as nat);
        let m = (k - 1) * (n + 2);
        assert(k * (n + 2) == m + (n + 2)) by (nonlinear_arith)
            requires
                m == (k - 1) * (n + 2),
                k >= 1,
        ;
        assert(m >= 0) by (nonlinear_arith)
            requires
                m == (k - 1) * (n + 2),
                k >= 1,
        ;
        assert(rows_numbers(n, k) =~= Seq::new(k * (n + 2), |i: int| (i + 1) as nat));
    }
}

/// Parameter numbering of a multi-row INSERT: its value rows use the numbers
/// 1 to `k * (n + 2)`, each once and in order; row `r` starts at
/// `1 + r * (n + 2)` and is `(<geometry of the first two>, <one per field>)`.
pub proof fn law_insert_numbering<D: SqlDialect + ?Sized>(d: &D, n: nat, k: nat, r: nat)
    requires
        r < k,
    ensures
        rows_numbers(n, k) == Seq::new(k * (n + 2), |i: int| (i + 1) as nat),
        ({
            let b = (1 + r * (n + 2)) as nat;
            let nums = row_numbers(n, b);
            value_row(d, n, b) == seq!['('] + d.spec_geom_from_wkt(
                d.spec_param_placeholder(nums[0]),
                d.spec_param_placeholder(nums[1]),
            ) + placeholders_text(d, nums.skip(2)) + seq![')']
        }),
{
    lemma_rows_numbers(n, k);
    let b = (1 + r * (n + 2)) as nat;
    assert(r * (n + 2) >= 0) by (nonlinear_arith);
    lemma_param_list_numbers(d, b + 2, n);
    assert(row_numbers(n, b).skip(2) =~= Seq::new(n, |j: int| (b + 2 + j) as nat));
}

} // verus!

verus! {

/// The dialect of one of the supported database kinds, chosen at run time.
pub enum Dialect {
    Postgres(PostgresDialect),
    Dameng(DamengDialect),
}

/// The dialect `create_dialect` gives for a database kind.
pub open spec fn dialect_for(t: DbType) -> Dialect {
    match t {
        DbType::PostgreSQL => Dialect::Postgres(PostgresDialect),
        DbType::Dameng => Dialect::Dameng(DamengDialect),
    }
}

/// The dialect of a database kind.
pub fn create_dialect(db_type: &DbType) -> (r: Dialect)
    ensures
        r == dialect_for(*db_type),
        r.spec_db_type() == *db_type,
{
    match db_type {
        DbType::PostgreSQL => Dialect::Postgres(PostgresDialect),
        DbType::Dameng => Dialect::Dameng(DamengDialect),
    }
}

impl SqlDialect for Dialect {
    open spec fn spec_db_type(&self) -> DbType {
        match self {
            Dialect::Postgres(d) => d.spec_db_type(),
            Dialect::Dameng(d) => d.spec_db_type(),
        }
    }

    open spec fn spec_geometry_type_name(&self) -> Seq<char> {
        match self {
            Dialect::Postgres(d) => d.spec_geometry_type_name(),
            Dialect::Dameng(d) => d.spec_geometry_type_name(),
        }
    }

    open spec fn spec_auto_increment_pk(&self) -> Seq<char> {
        match self {
            Dialect::Postgres(d) => d.spec_auto_increment_pk(),
            Dialect::Dameng(d) => d.spec_auto_increment_pk(),
        }
    }

    open spec fn spec_geom_from_wkt(&self, wkt_param: Seq<char>, srid_param: Seq<char>) -> Seq<char> {
        match self {
            Dialect::Postgres(d) => d.spec_geom_from_wkt(wkt_param, srid_param),
            Dialect::Dameng(d) => d.spec_geom_from_wkt(wkt_param, srid_param),
        }
    }

    open spec fn spec_map_field_type(&self, gdal_type: Seq<char>) -> Seq<char> {
        match self {
            Dialect::Postgres(d) => d.spec_map_field_type(gdal_type),
            Dialect::Dameng(d) => d.spec_map_field_type(gdal_type),
        }
    }

    open spec fn spec_quote_identifier(&self, name: Seq<char>) -> Seq<char> {
        match self {
            Dialect::Postgres(d) => d.spec_quote_identifier(name),
            Dialect::Dameng(d) => d.spec_quote_identifier(name),
        }
    }

    open spec fn spec_param_placeholder(&self, idx: nat) -> Seq<char> {
        match self {
            Dialect::Postgres(d) => d.spec_param_placeholder(idx),
            Dialect::Dameng(d) => d.spec_param_placeholder(idx),
        }
    }

    open spec fn spec_create_table_prefix(&self) -> Seq<char> {
        match self {
            Dialect::Postgres(d) => d.spec_create_table_prefix(),
            Dialect::Dameng(d) => d.spec_create_table_prefix(),
        }
    }

    open spec fn spec_table_exists_sql(&self) -> Seq<char> {
        match self {
            Dialect::Postgres(d) => d.spec_table_exists_sql(),
            Dialect::Dameng(d) => d.spec_table_exists_sql(),
        }
    }

    open spec fn spec_get_table_columns_sql(&self) -> Seq<char> {
        match self {
            Dialect::Postgres(d) => d.spec_get_table_columns_sql(),
            Dialect::Dameng(d) => d.spec_get_table_columns_sql(),
        }
    }

    open spec fn spec_version_sql(&self) -> Seq<char> {
        match self {
            Dialect::Postgres(d) => d.spec_version_sql(),
            Dialect::Dameng(d) => d.spec_version_sql(),
        }
    }

    fn db_type(&self) -> (r: DbType) {
        match self {
            Dialect::Postgres(d) => d.db_type(),
            Dialect::Dameng(d) => d.db_type(),
        }
    }

    fn geometry_type_name(&self) -> (r: &str) {
        match self {
            Dialect::Postgres(d) => d.geometry_type_name(),
            Dialect::Dameng(d) => d.geometry_type_name(),
        }
    }

    fn auto_increment_pk(&self) -> (r: &str) {
        match self {
            Dialect::Postgres(d) => d.auto_increment_pk(),
            Dialect::Dameng(d) => d.auto_increment_pk(),
        }
    }

    fn geom_from_wkt(&self, wkt_param: &str, srid_param: &str) -> (r: String) {
        match self {
            Dialect::Postgres(d) => d.geom_from_wkt(wkt_param, srid_param),
            Dialect::Dameng(d) => d.geom_from_wkt(wkt_param, srid_param),
        }
    }

    fn map_field_type(&self, gdal_type: &str) -> (r: &str) {
        match self {
            Dialect::Postgres(d) => d.map_field_type(gdal_type),
            Dialect::Dameng(d) => d.map_field_type(gdal_type),
        }
    }

    fn quote_identifier(&self, name: &str) -> (r: String) {
        match self {
            Dialect::Postgres(d) => d.quote_identifier(name),
            Dialect::Dameng(d) => d.quote_identifier(name),
        }
    }

    fn param_placeholder(&self, idx: usize) -> (r: String) {
        match self {
            Dialect::Postgres(d) => d.param_placeholder(idx),
            Dialect::Dameng(d) => d.param_placeholder(idx),
        }
    }

    fn create_table_prefix(&self) -> (r: &str) {
        match self {
            Dialect::Postgres(d) => d.create_table_prefix(),
            Dialect::Dameng(d) => d.create_table_prefix(),
        }
    }

    fn table_exists_sql(&self) -> (r: &str) {
        match self {
            Dialect::Postgres(d) => d.table_exists_sql(),
            Dialect::Dameng(d) => d.table_exists_sql(),
        }
    }

    fn get_table_columns_sql(&self) -> (r: &str) {
        match self {
            Dialect::Postgres(d) => d.get_table_columns_sql(),
            Dialect::Dameng(d) => d.get_table_columns_sql(),
        }
    }

    fn version_sql(&self) -> (r: &str) {
        match self {
            Dialect::Postgres(d) => d.version_sql(),
            Dialect::Dameng(d) => d.version_sql(),
        }
    }
}

} // verus!

verus! {

/// Two dialects that write the same identifiers and column types write the
/// same field column definitions.
proof fn lemma_column_defs_agree<D1: SqlDialect + ?Sized, D2: SqlDialect + ?Sized>(
    d1: &D1,
    d2: &D2,
    names: Seq<Seq<char>>,
    types: Seq<Seq<char>>,
    k: nat,
)
    requires
        forall|n: Seq<char>| #[trigger] d1.spec_quote_identifier(n) == d2.spec_quote_identifier(n),
        forall|g: Seq<char>| #[trigger] d1.spec_map_field_type(g) == d2.spec_map_field_type(g),
    ensures
        column_defs(d1, names, types, k) == column_defs(d2, names, types, k),
    decreases k,
{
    if k > 0 {
        lemma_column_defs_agree(d1, d2, names, types, (k - 1) as nat);
        assert(d1.spec_quote_identifier(names[k - 1]) == d2.spec_quote_identifier(names[k - 1]));
        assert(d1.spec_map_field_type(types[k - 1]) == d2.spec_map_field_type(types[k - 1]));
    }
}

proof fn lemma_quoted_list_agree<D1: SqlDialect + ?Sized, D2: SqlDialect + ?Sized>(
    d1: &D1,
    d2: &D2,
    names: Seq<Seq<char>>,
    k: nat,
)
    requires
        forall|n: Seq<char>| #[trigger] d1.spec_quote_identifier(n) == d2.spec_quote_identifier(n),
    ensures
        quoted_list(d1, names, k) == quoted_list(d2, names, k),
    decreases k,
{
    if k > 0 {
        lemma_quoted_list_agree(d1, d2, names, (k - 1) as nat);
        assert(d1.spec_quote_identifier(names[k - 1]) == d2.spec_quote_identifier(names[k - 1]));
    }
}

proof fn lemma_param_list_agree<D1: SqlDialect + ?Sized, D2: SqlDialect + ?Sized>(
    d1: &D1,
    d2: &D2,
    start: nat,
    k: nat,
)
    requires
        forall|i: nat| #[trigger] d1.spec_param_placeholder(i) == d2.spec_param_placeholder(i),
    ensures
        param_list(d1, start, k) == param_list(d2, start, k),
    decreases k,
{
    if k > 0 {
        lemma_param_list_agree(d1, d2, start, (k - 1) as nat);
        assert(d1.spec_param_placeholder((start + k - 1) as nat) == d2.spec_param_placeholder((start + k - 1) as nat));
    }
}

proof fn lemma_value_rows_agree<D1: SqlDialect + ?Sized, D2: SqlDialect + ?Sized>(
    d1: &D1,
    d2: &D2,
    n: nat,
    k: nat,
)
    requires
        forall|i: nat| #[trigger] d1.spec_param_placeholder(i) == d2.spec_param_placeholder(i),
        forall|w: Seq<char>, s: Seq<char>| #[trigger] d1.spec_geom_from_wkt(w, s) == d2.spec_geom_from_wkt(w, s),
    ensures
        value_rows(d1, n, k) == value_rows(d2, n, k),
    decreases k,
{
    if k > 0 {
        lemma_value_rows_agree(d1, d2, n, (k - 1) as nat);
        let base = if k == 1 { 1nat } else { (1 + (k - 1) * (n + 2)) as nat };
        lemma_param_list_agree(d1, d2, base + 2, n);
        assert(d1.spec_param_placeholder(base) == d2.spec_param_placeholder(base));
        assert(d1.spec_param_placeholder(base + 1) == d2.spec_param_placeholder(base + 1));
        let w = d1.spec_param_placeholder(base);
        let s = d1.spec_param_placeholder(base + 1);
        assert(d1.spec_geom_from_wkt(w, s) == d2.spec_geom_from_wkt(w, s));
        assert(value_row(d1, n, base) == value_row(d2, n, base));
    }
}

/// The dialect chosen at run time for Dameng writes what the Dameng dialect
/// writes: its geometry expression is `dmgeo2.ST_GeomFromText(<wkt>, <srid>)`,
/// its key `INT IDENTITY(1,1) PRIMARY KEY`, its geometry column
/// `DMI_GEOMETRY`, its placeholders `?`, and its column types those of the
/// Dameng map (`FLOAT` for REAL/FLOAT4, `DOUBLE` for DOUBLE/FLOAT8, `DATETIME`
/// for DATETIME/TIMESTAMP); so its CREATE TABLE and batch INSERT statements
/// are the Dameng dialect's.
pub proof fn law_runtime_dameng_dialect(
    table: Seq<char>,
    names: Seq<Seq<char>>,
    types: Seq<Seq<char>>,
    rows: nat,
    w: Seq<char>,
    s: Seq<char>,
    g: Seq<char>,
    i: nat,
)
    ensures
        dialect_for(DbType::Dameng).spec_db_type() == DbType::Dameng,
        dialect_for(DbType::Dameng).spec_geom_from_wkt(w, s) == "dmgeo2.ST_GeomFromText("@ + w + ", "@ + s + seq![')'],
        dialect_for(DbType::Dameng).spec_auto_increment_pk() == "INT IDENTITY(1,1) PRIMARY KEY"@,
        dialect_for(DbType::Dameng).spec_geometry_type_name() == "DMI_GEOMETRY"@,
        dialect_for(DbType::Dameng).spec_param_placeholder(i) == seq!['?'],
        dialect_for(DbType::Dameng).spec_map_field_type(g) == DamengDialect.spec_map_field_type(g),
        (upper_text(g) == "REAL"@ || upper_text(g) == "FLOAT4"@) ==> dialect_for(DbType::Dameng).spec_map_field_type(g)
            == "FLOAT"@,
        (upper_text(g) == "DOUBLE"@ || upper_text(g) == "FLOAT8"@) ==> dialect_for(DbType::Dameng).spec_map_field_type(
            g,
        ) == "DOUBLE"@,
        (upper_text(g) == "DATETIME"@ || upper_text(g) == "TIMESTAMP"@) ==> dialect_for(DbType::Dameng).spec_map_field_type(
            g,
        ) == "DATETIME"@,
        create_table_text(&dialect_for(DbType::Dameng), table, names, types) == create_table_text(
            &DamengDialect,
            table,
            names,
            types,
        ),
        batch_insert_text(&dialect_for(DbType::Dameng), table, names, rows) == batch_insert_text(
            &DamengDialect,
            table,
            names,
            rows,
        ),
{
    let d = dialect_for(DbType::Dameng);
    crate::database::dialects::dameng::law_dialect_type_maps(g);
    lemma_column_defs_agree(&d, &DamengDialect, names, types, names.len());
    lemma_quoted_list_agree(&d, &DamengDialect, names, names.len());
    lemma_value_rows_agree(&d, &DamengDialect, names.len(), rows);
}

/// The dialect chosen at run time for PostgreSQL writes what the PostgreSQL
/// dialect writes: `ST_GeomFromText(<wkt>, <srid>)`, `SERIAL PRIMARY KEY`,
/// `GEOMETRY`, placeholders `$<n>`, and the PostgreSQL column types (`REAL`,
/// `DOUBLE PRECISION`, `TIMESTAMP` where Dameng has `FLOAT`, `DOUBLE`,
/// `DATETIME`); so its CREATE TABLE and batch INSERT statements are the
/// PostgreSQL dialect's.
pub proof fn law_runtime_postgres_dialect(
    table: Seq<char>,
    names: Seq<Seq<char>>,
    types: Seq<Seq<char>>,
    rows: nat,
    w: Seq<char>,
    s: Seq<char>,
    g: Seq<char>,
    i: nat,
)
    ensures
        dialect_for(DbType::PostgreSQL).spec_db_type() == DbType::PostgreSQL,
        dialect_for(DbType::PostgreSQL).spec_geom_from_wkt(w, s) == "ST_GeomFromText("@ + w + ", "@ + s + seq![')'],
        dialect_for(DbType::PostgreSQL).spec_auto_increment_pk() == "SERIAL PRIMARY KEY"@,
        dialect_for(DbType::PostgreSQL).spec_geometry_type_name() == "GEOMETRY"@,
        dialect_for(DbType::PostgreSQL).spec_param_placeholder(i) == seq!['$'] + crate::text::digits_of(i),
        dialect_for(DbType::PostgreSQL).spec_map_field_type(g) == PostgresDialect.spec_map_field_type(g),
        (upper_text(g) == "REAL"@ || upper_text(g) == "FLOAT4"@) ==> dialect_for(DbType::PostgreSQL).spec_map_field_type(
            g,
        ) == "REAL"@,
        (upper_text(g) == "DOUBLE"@ || upper_text(g) == "FLOAT8"@) ==> dialect_for(DbType::PostgreSQL).spec_map_field_type(
            g,
        ) == "DOUBLE PRECISION"@,
        (upper_text(g) == "DATETIME"@ || upper_text(g) == "TIMESTAMP"@) ==> dialect_for(
            DbType::PostgreSQL,
        ).spec_map_field_type(g) == "TIMESTAMP"@,
        create_table_text(&dialect_for(DbType::PostgreSQL), table, names, types) == create_table_text(
            &PostgresDialect,
            table,
            names,
            types,
        ),
        batch_insert_text(&dialect_for(DbType::PostgreSQL), table, names, rows) == batch_insert_text(
            &PostgresDialect,
            table,
            names,
            rows,
        ),
{
    let d = dialect_for(DbType::PostgreSQL);
    crate::database::dialects::dameng::law_dialect_type_maps(g);
    lemma_column_defs_agree(&d, &PostgresDialect, names, types, names.len());
    lemma_quoted_list_agree(&d, &PostgresDialect, names, names.len());
    lemma_value_rows_agree(&d, &PostgresDialect, names.len(), rows);
}

/// The two database kinds create tables differently: the key column of a
/// Dameng table is `INT IDENTITY(1,1) PRIMARY KEY` and never PostgreSQL's
/// `SERIAL PRIMARY KEY`, so no CREATE TABLE of one kind is the other's.
pub proof fn law_create_table_heads_differ(table: Seq<char>)
    ensures
        create_table_head(&dialect_for(DbType::Dameng), table) != create_table_head(
            &dialect_for(DbType::PostgreSQL),
            table,
        ),
{
    let dm = create_table_head(&dialect_for(DbType::Dameng), table);
    let pg = create_table_head(&dialect_for(DbType::PostgreSQL), table);
    let pre = "CREATE TABLE IF NOT EXISTS"@ + seq![' '] + double_quoted(table) + " (gid "@;
    reveal_strlit("CREATE TABLE IF NOT EXISTS");
    reveal_strlit(" (gid ");
    reveal_strlit("INT IDENTITY(1,1) PRIMARY KEY");
    reveal_strlit("SERIAL PRIMARY KEY");
    assert(dm == pre + "INT IDENTITY(1,1) PRIMARY KEY"@ + ", geom "@ + "DMI_GEOMETRY"@);
    assert(pg == pre + "SERIAL PRIMARY KEY"@ + ", geom "@ + "GEOMETRY"@);
    assert(dm[pre.len() as int] == 'I');
    assert(pg[pre.len() as int] == 'S');
}

} // verus!
