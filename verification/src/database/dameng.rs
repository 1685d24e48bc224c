//! Dameng (DM8) connections over ODBC: connection strings, catalogue queries,
//! prepared row inserts, and the driver check.
use crate::database::dialects::dameng::DamengDialect;
use crate::database::postgres::{non_blank_positions, non_blank_rows};
use crate::database::traits::{batch_insert_text, SqlStatements};
use crate::models::{strings_view, ConnectionTestResult, DbConfig, DbConfigModel};
use crate::text::{
    contains_str, decode_lossy, digits_of, has_substring, lower_text, parse_i64, parse_in_range, push_char,
    replace_char, sql_escaped, to_lower, trim, trimmed, u64_to_decimal, utf8_lossy,
};
use vstd::prelude::*;

verus! {

/// The ODBC connection string for the settings.
pub open spec fn dm_connection_text(c: DbConfigModel) -> Seq<char> {
    "Driver={DM8 ODBC DRIVER};Server="@ + c.host + ";Port="@ + digits_of(c.port as nat) + ";UID="@
        + c.username + ";PWD="@ + c.password
}

/// Builds the ODBC connection string for the DM8 driver.
pub fn build_connection_string(config: &DbConfig) -> (r: String)
    ensures
        r@ == dm_connection_text(config@),
{
    let mut s = String::new();
    s.append("Driver={DM8 ODBC DRIVER};Server=");
    s.append(config.host.as_str());
    s.append(";Port=");
    let p = u64_to_decimal(config.port as u64);
    s.append(p.as_str());
    s.append(";UID=");
    s.append(config.username.as_str());
    s.append(";PWD=");
    s.append(config.password.as_str());
    s
}

/// Escapes text for the inside of a quoted SQL string: `'` is doubled, then
/// `\` is doubled.
pub fn escape_sql_string(s: &str) -> (r: String)
    ensures
        r@ == sql_escaped(s@),
{
    let once = replace_char(s, '\'', "''");
    proof {
        reveal_strlit("''");
        assert("''"@ == seq!['\'', '\'']);
    }
    let twice = replace_char(once.as_str(), '\\', "\\\\");
    proof {
        reveal_strlit("\\\\");
        assert("\\\\"@ == seq!['\\', '\\']);
    }
    twice
}

/// How an attempt to reach the database over ODBC ended; the texts are the
/// debug renderings of the ODBC errors.
pub enum DamengConnectOutcome {
    EnvironmentFailed(String),
    Connected,
    ConnectFailed(String),
}

/// The report of a connection test, from how the attempt ended.
pub fn test_connection(outcome: DamengConnectOutcome) -> (r: ConnectionTestResult)
    ensures
        outcome matches DamengConnectOutcome::EnvironmentFailed(e) ==> !r.success && r@.message
            == "创建 ODBC 环境失败: "@ + e@ && r.server_version is None,
        outcome matches DamengConnectOutcome::Connected ==> r.success && r@.message == "连接成功"@
            && r@.server_version == Some("达梦数据库 (DM8)"@),
        outcome matches DamengConnectOutcome::ConnectFailed(e) ==> !r.success && r@.message == "连接失败: "@
            + e@ && r.server_version is None,
{
    match outcome {
        DamengConnectOutcome::EnvironmentFailed(e) => {
            let mut m = String::from_str("创建 ODBC 环境失败: ");
            m.append(e.as_str());
            ConnectionTestResult { success: false, message: m, server_version: None }
        },
        DamengConnectOutcome::Connected => ConnectionTestResult {
            success: true,
            message: String::from_str("连接成功"),
            server_version: Some(String::from_str("达梦数据库 (DM8)")),
        },
        DamengConnectOutcome::ConnectFailed(e) => {
            let mut m = String::from_str("连接失败: ");
            m.append(e.as_str());
            ConnectionTestResult { success: false, message: m, server_version: None }
        },
    }
}

/// `SELECT COUNT(*)` over `USER_TABLES` for the table name as it was created
/// (tables are created with quoted names, which keep their case).
pub open spec fn table_exists_text(table: Seq<char>) -> Seq<char> {
    "SELECT COUNT(*) FROM USER_TABLES WHERE TABLE_NAME = '"@ + sql_escaped(table) + seq!['\'']
}

/// The query that counts the tables of that exact name.
pub fn table_exists_query(table_name: &str) -> (r: String)
    ensures
        r@ == table_exists_text(table_name@),
{
    let esc = escape_sql_string(table_name);
    let mut s = String::from_str("SELECT COUNT(*) FROM USER_TABLES WHERE TABLE_NAME = '");
    s.append(esc.as_str());
    push_char(&mut s, '\'');
    s
}

/// Column names of the table of that exact name, in column order.
pub open spec fn table_columns_text(table: Seq<char>) -> Seq<char> {
    "SELECT COLUMN_NAME FROM USER_TAB_COLUMNS WHERE TABLE_NAME = '"@ + sql_escaped(table)
        + "' ORDER BY COLUMN_ID"@
}

/// The query that lists the columns of the table of that exact name.
pub fn table_columns_query(table_name: &str) -> (r: String)
    ensures
        r@ == table_columns_text(table_name@),
{
    let esc = escape_sql_string(table_name);
    let mut s = String::from_str("SELECT COLUMN_NAME FROM USER_TAB_COLUMNS WHERE TABLE_NAME = '");
    s.append(esc.as_str());
    s.append("' ORDER BY COLUMN_ID");
    s
}

/// Whether the count cell of the table-existence query says the table exists:
/// its text, decoded leniently and trimmed, reads as a positive integer.
pub open spec fn count_cell_positive(cell: Option<Seq<u8>>) -> bool {
    match cell {
        Some(b) => match parse_in_range(trimmed(utf8_lossy(b)), i64::MIN as int, i64::MAX as int) {
            Some(v) => v > 0,
            None => false,
        },
        None => false,
    }
}

/// Reads the count cell (`None` when the cell is NULL or there is no row).
pub fn table_count_positive(cell: Option<&[u8]>) -> (r: bool)
    ensures
        r == count_cell_positive(match cell { Some(b) => Some(b@), None => None }),
{
    match cell {
        Some(b) => {
            let text = decode_lossy(b);
            let t = trim(text.as_str());
            let count: i64 = match parse_i64(t) {
                Some(v) => v,
                None => 0,
            };
            count > 0
        },
        None => false,
    }
}

/// The names in the first `k` cells of the column-listing query: cells that
/// hold no text are skipped, the others decoded leniently.
pub open spec fn cell_names(cells: Seq<Option<Vec<u8>>>, k: nat) -> Seq<Seq<char>>
    decreases k,
{
    if k == 0 {
        Seq::empty()
    } else {
        match cells[k - 1] {
            Some(b) => cell_names(cells, (k - 1) as nat).push(utf8_lossy(b@)),
            None => cell_names(cells, (k - 1) as nat),
        }
    }
}

/// The column names read by the column-listing query, in order, from its
/// cells (`None` for a NULL cell or one that could not be read).
pub fn column_names(cells: &Vec<Option<Vec<u8>>>) -> (r: Vec<String>)
    ensures
        strings_view(r@) == cell_names(cells@, cells@.len()),
{
    let mut out: Vec<String> = Vec::new();
    let mut i: usize = 0;
    while i < cells.len()
        invariant
            i <= cells@.len(),
            strings_view(out@) == cell_names(cells@, i as nat),
        decreases cells@.len() - i,
    {
        let ghost before = strings_view(out@);
        match &cells[i] {
            Some(b) => {
                let name = decode_lossy(b.as_slice());
                out.push(name);
                assert(strings_view(out@) =~= before.push(utf8_lossy(cells@[i as int]->0@)));
            },
            None => {},
        }
        i = i + 1;
    }
    out
}

/// What inserting a batch into Dameng runs: one parameterised INSERT of a
/// single row, prepared once and executed for each row it lists (by
/// position in the batch, in order), binding the row's WKT and the SRID and
/// then its field values.
pub struct DamengBatch {
    pub sql: String,
    pub rows: Vec<usize>,
}

/// The statement and rows for inserting a batch into Dameng, given the
/// batch's geometry texts; `None` when no row has a geometry (nothing is run
/// and nothing is inserted). Rows whose WKT is blank are left out.
pub fn dameng_batch_plan(table_name: &str, field_names: &[String], wkts: &Vec<String>) -> (r: Option<DamengBatch>)
    requires
        field_names@.len() + 2 < usize::MAX,
    ensures
        ({
            let rows = non_blank_positions(strings_view(wkts@), wkts@.len());
            &&& r is None <==> rows.len() == 0
            &&& r matches Some(b) ==> {
                &&& b.rows@.map_values(|i: usize| i as int) == rows
                &&& b.sql@ == batch_insert_text(&DamengDialect, table_name@, strings_view(field_names@), 1)
            }
        }),
{
    let rows = non_blank_rows(wkts);
    if rows.len() == 0 {
        return None;
    }
    let sql = DamengDialect.batch_insert_sql(table_name, field_names, 1);
    Some(DamengBatch { sql, rows })
}

/// Whether a driver description names the DM8 driver: it contains `DM8`, or
/// its lower-cased form contains `dameng`.
pub open spec fn names_dameng_driver(desc: Seq<char>) -> bool {
    has_substring(desc, "DM8"@) || has_substring(lower_text(desc), "dameng"@)
}

/// Whether one of the installed ODBC drivers (given by their descriptions)
/// is the DM8 driver.
pub fn check_driver_installed(descriptions: &Vec<String>) -> (r: bool)
    ensures
        r == exists|i: int| 0 <= i < descriptions@.len() && names_dameng_driver(#[trigger] descriptions@[i]@),
{
    let mut i: usize = 0;
    while i < descriptions.len()
        invariant
            i <= descriptions@.len(),
            forall|j: int| 0 <= j < i ==> !names_dameng_driver(#[trigger] descriptions@[j]@),
        decreases descriptions@.len() - i,
    {
        let d = descriptions[i].as_str();
        if contains_str(d, "DM8") {
            return true;
        }
        let lower = to_lower(d);
        if contains_str(lower.as_str(), "dameng") {
            return true;
        }
        i = i + 1;
    }
    false
}

} // verus!
