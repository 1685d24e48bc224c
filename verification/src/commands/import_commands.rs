//! The import procedure: reading a layer, preparing the target table and
//! inserting the features in batches inside one transaction.
//!
//! The procedure alternates outside work (reading the file, talking to the
//! database, reporting progress) with decisions. The decisions are made here,
//! by `ImportMachine::step`, from the machine's state and the outcome of the
//! last piece of outside work; the caller performs the action it is given and
//! reports back what happened.
use crate::database::dameng::{table_columns_text, table_exists_text};
use crate::database::dialects::postgres::PostgresDialect;
use crate::database::dialects::dameng::DamengDialect;
use crate::database::traits::{
    create_table_text, dialect_for, law_runtime_dameng_dialect, law_runtime_postgres_dialect, SqlDialect,
    SqlStatements,
};
use crate::gdal::FieldDef;
use crate::models::{
    strings_view, DbType, ImportConfig, ImportMode, ImportProgress, ImportProgressModel, ImportResult,
    ImportResultModel,
};
use crate::text::{decimal, double_quoted, lower_text, parse_in_range, without_prefix};
use vstd::prelude::*;

verus! {

// ---------------------------------------------------------------------------
// Small decisions
// ---------------------------------------------------------------------------

/// The field type name used when creating the table, for an OGR field type
/// code: String, Integer, Integer64, Real, Date, Time and DateTime keep their
/// names, every other type is stored as String.
pub open spec fn import_type_text(code: u32) -> Seq<char> {
    if code == 4 {
        "String"@
    } else if code == 0 {
        "Integer"@
    } else if code == 12 {
        "Integer64"@
    } else if code == 2 {
        "Real"@
    } else if code == 9 {
        "Date"@
    } else if code == 10 {
        "Time"@
    } else if code == 11 {
        "DateTime"@
    } else {
        "String"@
    }
}

/// How many features go into one batch, by the number of features.
pub open spec fn batch_size_for_total(total: i64) -> usize {
    if total <= 500 {
        10
    } else if total <= 10000 {
        100
    } else {
        300
    }
}

/// The SRID used for the imported geometries: from a setting `EPSG:<code>`
/// when one is given (4326 when the setting does not read so), otherwise the
/// authority code of the layer's spatial reference, or 4326.
pub open spec fn resolved_srs(setting: Option<Seq<char>>, layer_code: Option<i32>) -> i32 {
    match setting {
        Some(s) => match without_prefix(s, "EPSG:"@) {
            Some(rest) => match parse_in_range(rest, i32::MIN as int, i32::MAX as int) {
                Some(v) => v as i32,
                None => 4326,
            },
            None => 4326,
        },
        None => match layer_code {
            Some(c) => c,
            None => 4326,
        },
    }
}

/// The SRID the features are converted into before they are stored: the one
/// a setting selects (see `resolved_srs`), when it is not already the layer's
/// own code; `None` when no setting is given or the layer is in that system
/// already, and the geometries are stored as read.
pub open spec fn reprojection_to(setting: Option<Seq<char>>, layer_code: Option<i32>) -> Option<i32> {
    match setting {
        Some(s) => {
            let target = resolved_srs(Some(s), layer_code);
            if layer_code == Some(target) {
                None
            } else {
                Some(target)
            }
        },
        None => None,
    }
}

/// A text field value made fit for a single-line column: NUL and carriage
/// return removed, line feeds turned into spaces.
pub open spec fn cleaned(s: Seq<char>) -> Seq<char>
    decreases s.len(),
{
    if s.len() == 0 {
        s
    } else {
        let rest = cleaned(s.drop_last());
        let c = s.last();
        if c == '\0' || c == '\r' {
            rest
        } else if c == '\n' {
            rest.push(' ')
        } else {
            rest.push(c)
        }
    }
}

// ---------------------------------------------------------------------------
// The state machine, as mathematics
// ---------------------------------------------------------------------------

/// Where an import stands.
#[derive(Clone, Copy, Debug, PartialEq, Eq, Structural)]
pub enum ImportPhase {
    /// Nothing done yet.
    Start,
    /// Waiting for the data set and layer to be read.
    Opening,
    /// Waiting for the database connection.
    Connecting,
    /// Waiting for the old table to be dropped.
    Dropping,
    /// Waiting for the table to be created.
    Creating,
    /// Waiting to learn whether the table exists.
    CheckingTable,
    /// Waiting for the table's columns.
    ListingColumns,
    /// Waiting for the transaction to start.
    StartingTx,
    /// Waiting for the next feature.
    Reading,
    /// Waiting for a batch to be inserted; `last` when it is the final one.
    Inserting { last: bool },
    /// Waiting for the commit.
    Committing,
    /// Finished; the result is kept.
    Done,
}

/// The value of an `ImportMachine`.
#[verifier::ext_equal]
pub struct MachineModel {
    pub db_type: DbType,
    pub mode: ImportMode,
    pub table: Seq<char>,
    pub srs_setting: Option<Seq<char>>,
    pub phase: ImportPhase,
    pub field_names: Seq<Seq<char>>,
    pub field_types: Seq<Seq<char>>,
    pub srs_code: Option<i32>,
    pub total: i64,
    pub srs: i32,
    pub batch_size: usize,
    pub pending: usize,
    pub imported: i64,
    pub error_count: i64,
    pub errors: Seq<Seq<char>>,
    pub result: Option<ImportResultModel>,
}

/// The value of an `ImportAction`.
pub enum ActionModel {
    OpenSource,
    Connect,
    Execute(Seq<char>),
    CheckTable(Seq<char>),
    ListColumns(Seq<char>),
    BeginTransaction,
    NextFeature { convert_to: Option<i32> },
    InsertBatch { srs: i32, last: bool },
    Commit,
    Finish(ImportResultModel),
}

/// What one step gives: the new state, a progress report to send (if any),
/// and the next action.
#[verifier::ext_equal]
pub struct StepModel {
    pub machine: MachineModel,
    pub progress: Option<ImportProgressModel>,
    pub action: ActionModel,
}

/// The CREATE TABLE statement for the layer's fields.
pub open spec fn create_sql(m: MachineModel) -> Seq<char> {
    create_table_text(&dialect_for(m.db_type), m.table, m.field_names, m.field_types)
}

/// The DROP TABLE statement for the target table.
pub open spec fn drop_sql(m: MachineModel) -> Seq<char> {
    "DROP TABLE IF EXISTS "@ + double_quoted(m.table)
}

/// The query that tells whether the target table exists: PostgreSQL's takes
/// the table name as parameter `$1`, Dameng's holds it.
pub open spec fn check_sql(m: MachineModel) -> Seq<char> {
    match m.db_type {
        DbType::PostgreSQL => "SELECT COUNT(*) FROM information_schema.tables WHERE table_name = $1"@,
        DbType::Dameng => table_exists_text(m.table),
    }
}

/// The query that lists the target table's columns (as for `check_sql`).
pub open spec fn columns_sql(m: MachineModel) -> Seq<char> {
    match m.db_type {
        DbType::PostgreSQL => "SELECT column_name FROM information_schema.columns WHERE table_name = $1"@,
        DbType::Dameng => table_columns_text(m.table),
    }
}

/// The action the machine waits on in its phase.
pub open spec fn awaited(m: MachineModel) -> ActionModel {
    match m.phase {
        ImportPhase::Start => ActionModel::OpenSource,
        ImportPhase::Opening => ActionModel::OpenSource,
        ImportPhase::Connecting => ActionModel::Connect,
        ImportPhase::Dropping => ActionModel::Execute(drop_sql(m)),
        ImportPhase::Creating => ActionModel::Execute(create_sql(m)),
        ImportPhase::CheckingTable => ActionModel::CheckTable(check_sql(m)),
        ImportPhase::ListingColumns => ActionModel::ListColumns(columns_sql(m)),
        ImportPhase::StartingTx => ActionModel::BeginTransaction,
        ImportPhase::Reading => ActionModel::NextFeature {
            convert_to: reprojection_to(m.srs_setting, m.srs_code),
        },
        ImportPhase::Inserting { last } => ActionModel::InsertBatch { srs: m.srs, last },
        ImportPhase::Committing => ActionModel::Commit,
        ImportPhase::Done => match m.result {
            Some(r) => ActionModel::Finish(r),
            None => ActionModel::Commit,
        },
    }
}

/// A progress report.
pub open spec fn progress_of(current: i64, total: i64, status: Seq<char>, message: Seq<char>) -> ImportProgressModel {
    ImportProgressModel { current, total, status, message }
}

/// A progress report of a running import.
pub open spec fn importing(current: i64, total: i64, message: Seq<char>) -> Option<ImportProgressModel> {
    Some(progress_of(current, total, "importing"@, message))
}

/// The result of an import that failed before inserting anything.
pub open spec fn failed(message: Seq<char>, elapsed: u64) -> ImportResultModel {
    ImportResultModel {
        success: false,
        imported_count: 0,
        error_count: 1,
        errors: seq![message],
        duration_ms: elapsed,
    }
}

/// No event the phase waits for: nothing changes and the awaited action is
/// asked again.
pub open spec fn stay(m: MachineModel) -> StepModel {
    StepModel { machine: m, progress: None, action: awaited(m) }
}

/// Moving to `phase` (with the state `m`), reporting `progress`.
pub open spec fn go(m: MachineModel, phase: ImportPhase, progress: Option<ImportProgressModel>) -> StepModel {
    let next = MachineModel { phase, ..m };
    StepModel { machine: next, progress, action: awaited(next) }
}

/// Finishing with the result `r`, reporting `progress`.
pub open spec fn finish(m: MachineModel, r: ImportResultModel, progress: Option<ImportProgressModel>) -> StepModel {
    StepModel {
        machine: MachineModel { phase: ImportPhase::Done, result: Some(r), ..m },
        progress,
        action: ActionModel::Finish(r),
    }
}

/// The message for a target table that does not exist.
pub open spec fn missing_table_message(table: Seq<char>) -> Seq<char> {
    "表 "@ + table + " 不存在，请使用 CreateNew 模式创建表"@
}

/// The message for a target table that exists when a new one is to be created.
pub open spec fn existing_table_message(table: Seq<char>) -> Seq<char> {
    "表 "@ + table + " 已存在，请使用 Replace 模式删除并重建表"@
}

/// What follows the check of whether the target table exists: a table to
/// append to must exist (its columns are checked next); a new table must
/// not exist yet (it is created next).
pub open spec fn table_found(m: MachineModel, found: bool, elapsed: u64) -> StepModel {
    if m.mode == ImportMode::Append {
        if found {
            go(m, ImportPhase::ListingColumns, None)
        } else {
            finish(m, failed(missing_table_message(m.table), elapsed), None)
        }
    } else if found {
        finish(m, failed(existing_table_message(m.table), elapsed), None)
    } else {
        go(m, ImportPhase::Creating, None)
    }
}

/// The message for a target table without a `geom` column.
pub open spec fn no_geom_message(table: Seq<char>) -> Seq<char> {
    "表 "@ + table + " 没有 geom 字段，无法追加数据"@
}

/// The table is ready: the SRID and batch size are fixed; with no features the
/// import is finished, otherwise a transaction is started.
pub open spec fn ready(m: MachineModel, elapsed: u64) -> StepModel {
    let m2 = MachineModel {
        srs: resolved_srs(m.srs_setting, m.srs_code),
        batch_size: batch_size_for_total(m.total),
        ..m
    };
    if m.total == 0 {
        finish(
            m2,
            ImportResultModel { success: true, imported_count: 0, error_count: 0, errors: seq![], duration_ms: elapsed },
            importing(0, 1, "没有数据可导入"@),
        )
    } else {
        go(m2, ImportPhase::StartingTx, importing(0, m.total, "共 "@ + decimal(m.total as int) + " 条记录，开始导入..."@))
    }
}

/// The state after a layer was read.
pub open spec fn with_layer(m: MachineModel, fields: Seq<FieldDef>, srs_code: Option<i32>, feature_count: u64) -> MachineModel {
    MachineModel {
        field_names: fields.map_values(|f: FieldDef| f.name@),
        field_types: fields.map_values(|f: FieldDef| import_type_text(f.type_code)),
        srs_code,
        total: feature_count as i64,
        ..m
    }
}

/// Whether some column name, lower-cased, is `geom`.
pub open spec fn has_geom_column_lower(cols: Seq<Seq<char>>) -> bool {
    exists|i: int| 0 <= i < cols.len() && lower_text(#[trigger] cols[i]) == "geom"@
}

/// One step of the import: the new state, progress report and next action
/// after the event `e`, at `elapsed` milliseconds since the import began.
pub open spec fn step_spec(m: MachineModel, e: ImportEvent, elapsed: u64) -> StepModel {
    match m.phase {
        ImportPhase::Start => match e {
            ImportEvent::Begin => go(m, ImportPhase::Opening, None),
            _ => stay(m),
        },
        ImportPhase::Opening => match e {
            ImportEvent::OpenFailed(err) => finish(m, failed("打开文件失败: "@ + err@, elapsed), None),
            ImportEvent::LayerMissing { requested, error } => finish(
                m,
                failed("找不到图层 "@ + requested@ + ": "@ + error@, elapsed),
                None,
            ),
            ImportEvent::NoLayer => finish(m, failed("没有找到图层"@, elapsed), None),
            ImportEvent::LayerOpened { fields, srs_code, feature_count } => go(
                with_layer(m, fields@, srs_code, feature_count),
                ImportPhase::Connecting,
                importing(0, 100, "正在读取数据..."@),
            ),
            _ => stay(m),
        },
        ImportPhase::Connecting => match e {
            ImportEvent::ConnectFailed(err) => finish(
                m,
                failed(
                    match m.db_type {
                        DbType::PostgreSQL => err@,
                        DbType::Dameng => "连接达梦数据库失败: "@ + err@,
                    },
                    elapsed,
                ),
                None,
            ),
            ImportEvent::Connected => match m.mode {
                ImportMode::CreateNew => go(m, ImportPhase::CheckingTable, None),
                ImportMode::Replace => go(m, ImportPhase::Dropping, None),
                ImportMode::Append => go(m, ImportPhase::CheckingTable, None),
            },
            _ => stay(m),
        },
        ImportPhase::Dropping => match e {
            ImportEvent::StatementDone => go(m, ImportPhase::Creating, None),
            ImportEvent::StatementFailed(err) => match m.db_type {
                DbType::PostgreSQL => finish(m, failed("删除表失败: "@ + err@, elapsed), None),
                DbType::Dameng => go(m, ImportPhase::Creating, None),
            },
            _ => stay(m),
        },
        ImportPhase::Creating => match e {
            ImportEvent::StatementDone => ready(m, elapsed),
            ImportEvent::StatementFailed(err) => finish(m, failed("创建表失败: "@ + err@, elapsed), None),
            _ => stay(m),
        },
        ImportPhase::CheckingTable => match e {
            ImportEvent::TableCount(res) => if m.db_type == DbType::PostgreSQL {
                let n: i64 = match res {
                    Ok(n) => n,
                    Err(_) => 0,
                };
                table_found(m, n != 0, elapsed)
            } else {
                stay(m)
            },
            ImportEvent::TableStatus(res) => if m.db_type == DbType::Dameng {
                match res {
                    Ok(found) => table_found(m, found, elapsed),
                    Err(err) => finish(m, failed("检查表是否存在失败: "@ + err@, elapsed), None),
                }
            } else {
                stay(m)
            },
            _ => stay(m),
        },
        ImportPhase::ListingColumns => match e {
            ImportEvent::Columns(res) => match m.db_type {
                DbType::PostgreSQL => {
                    let cols = match res {
                        Ok(c) => strings_view(c@),
                        Err(_) => Seq::empty(),
                    };
                    if cols.contains("geom"@) {
                        ready(m, elapsed)
                    } else {
                        finish(m, failed(no_geom_message(m.table), elapsed), None)
                    }
                },
                DbType::Dameng => match res {
                    Ok(c) => if has_geom_column_lower(strings_view(c@)) {
                        ready(m, elapsed)
                    } else {
                        finish(m, failed(no_geom_message(m.table), elapsed), None)
                    },
                    Err(err) => finish(m, failed("获取表字段失败: "@ + err@, elapsed), None),
                },
            },
            _ => stay(m),
        },
        ImportPhase::StartingTx => match e {
            ImportEvent::TxStarted => go(m, ImportPhase::Reading, None),
            ImportEvent::TxFailed(err) => finish(m, failed("开始事务失败: "@ + err@, elapsed), None),
            _ => stay(m),
        },
        ImportPhase::Reading => match e {
            ImportEvent::Cancelled => finish(
                m,
                ImportResultModel {
                    success: false,
                    imported_count: m.imported,
                    error_count: m.error_count,
                    errors: seq!["用户取消了导入"@],
                    duration_ms: elapsed,
                },
                Some(progress_of(m.imported, m.total, "cancelled"@, "导入已取消"@)),
            ),
            ImportEvent::FeatureSkipped => go(
                MachineModel { error_count: (m.error_count + 1) as i64, ..m },
                ImportPhase::Reading,
                None,
            ),
            ImportEvent::FeatureQueued => {
                let m2 = MachineModel { pending: (m.pending + 1) as usize, ..m };
                if m2.pending >= m.batch_size {
                    go(m2, ImportPhase::Inserting { last: false }, None)
                } else {
                    go(m2, ImportPhase::Reading, None)
                }
            },
            ImportEvent::FeaturesExhausted => if m.pending > 0 {
                go(m, ImportPhase::Inserting { last: true }, None)
            } else {
                go(m, ImportPhase::Committing, None)
            },
            _ => stay(m),
        },
        ImportPhase::Inserting { last } => match e {
            ImportEvent::BatchInserted { sent, stored } => {
                let imported = (m.imported + (stored as i64)) as i64;
                let error_count = (m.error_count + shortfall(sent, stored)) as i64;
                let m2 = MachineModel { imported, error_count, pending: 0, ..m };
                if last {
                    go(m2, ImportPhase::Committing, None)
                } else {
                    go(
                        m2,
                        ImportPhase::Reading,
                        importing(
                            imported,
                            m.total,
                            "导入中... "@ + decimal(imported as int) + seq!['/'] + decimal(m.total as int),
                        ),
                    )
                }
            },
            ImportEvent::BatchFailed(err) => {
                let message = (if last { "最后批次插入失败: "@ } else { "批次插入失败: "@ }) + err@;
                let m2 = MachineModel {
                    error_count: (m.error_count + (m.pending as i64)) as i64,
                    pending: 0,
                    errors: if m.errors.len() < 10 { m.errors.push(message) } else { m.errors },
                    ..m
                };
                go(m2, if last { ImportPhase::Committing } else { ImportPhase::Reading }, None)
            },
            _ => stay(m),
        },
        ImportPhase::Committing => match e {
            ImportEvent::Committed => finish(
                m,
                ImportResultModel {
                    success: m.error_count == 0,
                    imported_count: m.imported,
                    error_count: m.error_count,
                    errors: m.errors,
                    duration_ms: elapsed,
                },
                importing(m.total, m.total, "导入完成！共导入 "@ + decimal(m.imported as int) + " 条"@),
            ),
            ImportEvent::CommitFailed(err) => finish(
                m,
                ImportResultModel {
                    success: false,
                    imported_count: m.imported,
                    error_count: m.error_count,
                    errors: seq!["提交事务失败: "@ + err@],
                    duration_ms: elapsed,
                },
                None,
            ),
            _ => stay(m),
        },
        ImportPhase::Done => stay(m),
    }
}

/// The rows handed to the database that did not go in: how far the count
/// stored falls short of the count sent. Rows left out of the statement (those
/// with a blank geometry) are not sent, and count in neither total.
pub open spec fn shortfall(sent: usize, stored: usize) -> nat {
    if stored < sent {
        (sent - stored) as nat
    } else {
        0
    }
}

/// Whether the machine can take the event without a counter leaving the
/// range of its type.
pub open spec fn admits(m: MachineModel, e: ImportEvent) -> bool {
    match m.phase {
        ImportPhase::Reading => match e {
            ImportEvent::FeatureSkipped => m.error_count < i64::MAX,
            ImportEvent::FeatureQueued => m.pending < usize::MAX,
            _ => true,
        },
        ImportPhase::Inserting { .. } => match e {
            ImportEvent::BatchInserted { sent, stored } => {
                &&& i64::MIN <= m.imported + (stored as i64) <= i64::MAX
                &&& shortfall(sent, stored) <= i64::MAX
                &&& m.error_count + shortfall(sent, stored) <= i64::MAX
            },
            ImportEvent::BatchFailed(_) => i64::MIN <= m.error_count + (m.pending as i64) <= i64::MAX,
            _ => true,
        },
        _ => true,
    }
}

// ---------------------------------------------------------------------------
// Events and actions
// ---------------------------------------------------------------------------

/// What happened when the caller performed the last action.
pub enum ImportEvent {
    /// Start the import.
    Begin,
    /// The data set could not be opened.
    OpenFailed(String),
    /// The layer asked for by name is not in the data set.
    LayerMissing { requested: String, error: String },
    /// No layer was named and the data set has none.
    NoLayer,
    /// The layer was read: its fields (name and OGR type code), the authority
    /// code of its spatial reference (if it has one with a code) and its
    /// feature count.
    LayerOpened { fields: Vec<FieldDef>, srs_code: Option<i32>, feature_count: u64 },
    /// The connection failed, with the error's text.
    ConnectFailed(String),
    /// The connection is open.
    Connected,
    /// The statement ran.
    StatementDone,
    /// The statement failed, with the error's text.
    StatementFailed(String),
    /// PostgreSQL: the count of tables with the target's name, or the error of the query.
    TableCount(Result<i64, String>),
    /// Dameng: whether the target table exists, or the error of the check.
    TableStatus(Result<bool, String>),
    /// The target table's column names, or the error of the query.
    Columns(Result<Vec<String>, String>),
    /// The transaction started.
    TxStarted,
    /// The transaction could not start.
    TxFailed(String),
    /// The user cancelled (seen before reading the next feature).
    Cancelled,
    /// The next feature had no geometry, or its WKT could not be produced.
    FeatureSkipped,
    /// The next feature's WKT and values were added to the caller's batch.
    FeatureQueued,
    /// The layer has no more features.
    FeaturesExhausted,
    /// The batch was inserted: `sent` rows were handed to the database (those
    /// with a non-blank geometry) and `stored` of them went in. Rows sent but
    /// not stored are counted as errors; rows not sent count in neither total.
    BatchInserted { sent: usize, stored: usize },
    /// The batch failed, with the error's text.
    BatchFailed(String),
    /// The transaction was committed.
    Committed,
    /// The commit failed, with the error's text.
    CommitFailed(String),
}

} // verus!

verus! {

/// The value of an optional progress report.
pub open spec fn opt_progress(p: Option<ImportProgress>) -> Option<ImportProgressModel> {
    match p {
        Some(x) => Some(x@),
        None => None,
    }
}

/// The value of an optional result.
pub open spec fn opt_result(r: Option<ImportResult>) -> Option<ImportResultModel> {
    match r {
        Some(x) => Some(x@),
        None => None,
    }
}

/// What the caller is to do next.
pub enum ImportAction {
    /// Open the data set and the configured layer (or the first one), and read
    /// its fields, spatial reference code and feature count.
    OpenSource,
    /// Connect to the database.
    Connect,
    /// Run this statement.
    Execute(String),
    /// Run this query to learn whether the target table exists (for
    /// PostgreSQL with the table name as parameter `$1`).
    CheckTable(String),
    /// Run this query to list the target table's columns (for PostgreSQL with
    /// the table name as parameter `$1`).
    ListColumns(String),
    /// Start a transaction.
    BeginTransaction,
    /// Read the next feature (checking for cancellation first) and add its WKT
    /// and values to the batch; with `convert_to`, its geometry is first
    /// converted from the layer's spatial reference into that SRID.
    NextFeature { convert_to: Option<i32> },
    /// Insert the pending batch with this SRID, then empty it; `last` when it
    /// holds the final features.
    InsertBatch { srs: i32, last: bool },
    /// Commit the transaction.
    Commit,
    /// The import is over, with this result.
    Finish(ImportResult),
}

impl View for ImportAction {
    type V = ActionModel;

    open spec fn view(&self) -> ActionModel {
        match self {
            ImportAction::OpenSource => ActionModel::OpenSource,
            ImportAction::Connect => ActionModel::Connect,
            ImportAction::Execute(s) => ActionModel::Execute(s@),
            ImportAction::CheckTable(s) => ActionModel::CheckTable(s@),
            ImportAction::ListColumns(s) => ActionModel::ListColumns(s@),
            ImportAction::BeginTransaction => ActionModel::BeginTransaction,
            ImportAction::NextFeature { convert_to } => ActionModel::NextFeature { convert_to: *convert_to },
            ImportAction::InsertBatch { srs, last } => ActionModel::InsertBatch { srs: *srs, last: *last },
            ImportAction::Commit => ActionModel::Commit,
            ImportAction::Finish(r) => ActionModel::Finish(r@),
        }
    }
}

/// One step's output: a progress report to send first (if any), then the
/// action to perform.
pub struct ImportStep {
    pub progress: Option<ImportProgress>,
    pub action: ImportAction,
}

/// The state of one import.
pub struct ImportMachine {
    db_type: DbType,
    mode: ImportMode,
    table_name: String,
    srs_setting: Option<String>,
    phase: ImportPhase,
    fields: Vec<FieldDef>,
    srs_code: Option<i32>,
    total: i64,
    srs: i32,
    batch_size: usize,
    pending: usize,
    imported: i64,
    error_count: i64,
    errors: Vec<String>,
    result: Option<ImportResult>,
}

impl View for ImportMachine {
    type V = MachineModel;

    closed spec fn view(&self) -> MachineModel {
        MachineModel {
            db_type: self.db_type,
            mode: self.mode,
            table: self.table_name@,
            srs_setting: match self.srs_setting {
                Some(s) => Some(s@),
                None => None,
            },
            phase: self.phase,
            field_names: self.fields@.map_values(|f: FieldDef| f.name@),
            field_types: self.fields@.map_values(|f: FieldDef| import_type_text(f.type_code)),
            srs_code: self.srs_code,
            total: self.total,
            srs: self.srs,
            batch_size: self.batch_size,
            pending: self.pending,
            imported: self.imported,
            error_count: self.error_count,
            errors: strings_view(self.errors@),
            result: opt_result(self.result),
        }
    }
}

/// The state of a new import, before anything is done.
pub open spec fn initial_machine(config: ImportConfig) -> MachineModel {
    MachineModel {
        db_type: config.db_config.db_type,
        mode: config.import_mode,
        table: config.table_name@,
        srs_setting: match config.srs {
            Some(s) => Some(s@),
            None => None,
        },
        phase: ImportPhase::Start,
        field_names: Seq::empty(),
        field_types: Seq::empty(),
        srs_code: None,
        total: 0,
        srs: 4326,
        batch_size: 10,
        pending: 0,
        imported: 0,
        error_count: 0,
        errors: Seq::empty(),
        result: None,
    }
}

/// The field type name used when creating the table, for an OGR field type code.
pub fn import_type_name(code: u32) -> (r: &'static str)
    ensures
        r@ == import_type_text(code),
{
    match code {
        4 => "String",
        0 => "Integer",
        12 => "Integer64",
        2 => "Real",
        9 => "Date",
        10 => "Time",
        11 => "DateTime",
        _ => "String",
    }
}

/// How many features go into one batch.
pub fn batch_size_for(total: i64) -> (r: usize)
    ensures
        r == batch_size_for_total(total),
{
    if total <= 500 {
        10
    } else if total <= 10000 {
        100
    } else {
        300
    }
}

/// The SRID for the imported geometries (see `resolved_srs`).
pub fn resolve_srs(setting: Option<&str>, layer_code: Option<i32>) -> (r: i32)
    ensures
        r == resolved_srs(match setting { Some(s) => Some(s@), None => None }, layer_code),
{
    match setting {
        Some(s) => match crate::text::strip_prefix(s, "EPSG:") {
            Some(rest) => match crate::text::parse_i32(rest) {
                Some(v) => v,
                None => 4326,
            },
            None => 4326,
        },
        None => match layer_code {
            Some(c) => c,
            None => 4326,
        },
    }
}

/// The SRID the features are to be converted into, if any (see
/// `reprojection_to`).
pub fn reprojection_target(setting: Option<&str>, layer_code: Option<i32>) -> (r: Option<i32>)
    ensures
        r == reprojection_to(match setting { Some(s) => Some(s@), None => None }, layer_code),
{
    match setting {
        Some(s) => {
            let target = resolve_srs(Some(s), layer_code);
            match layer_code {
                Some(c) => if c == target { None } else { Some(target) },
                None => Some(target),
            }
        },
        None => None,
    }
}

/// A text field value made fit for a single-line column (see `cleaned`).
pub fn clean_text(s: &str) -> (r: String)
    ensures
        r@ == cleaned(s@),
{
    let mut out = String::new();
    let ghost whole = s@;
    for ch in it: s.chars()
        invariant
            it.seq() == whole,
            out@ == cleaned(whole.take(it.index())),
    {
        assert(whole.take(it.index() + 1).drop_last() == whole.take(it.index()));
        if ch == '\0' || ch == '\r' {
        } else if ch == '\n' {
            crate::text::push_char(&mut out, ' ');
        } else {
            crate::text::push_char(&mut out, ch);
        }
    }
    assert(whole.take(whole.len() as int) == whole);
    out
}

/// The field index whose value a row takes: the index of the field in the
/// layer, when it was found and is below 1000; otherwise the row holds NULL.
pub fn field_to_read(index: Option<usize>) -> (r: Option<usize>)
    ensures
        r == (match index {
            Some(i) => if i < 1000 { Some(i) } else { None },
            None => None,
        }),
{
    match index {
        Some(i) => if i < 1000 { Some(i) } else { None },
        None => None,
    }
}

/// The progress reported when no import is running.
pub fn get_import_progress() -> (r: ImportProgress)
    ensures
        r@ == progress_of(0, 0, "idle"@, ""@),
{
    let r = ImportProgress { current: 0, total: 0, status: String::from_str("idle"), message: String::new() };
    proof {
        reveal_strlit("");
        assert(r@.message =~= ""@);
        assert(r@ =~= progress_of(0, 0, "idle"@, ""@));
    }
    r
}

} // verus!

verus! {

/// The value of a step's output, with `m` the machine's state after it.
pub open spec fn step_view(r: ImportStep, m: MachineModel) -> StepModel {
    StepModel { machine: m, progress: opt_progress(r.progress), action: r.action@ }
}

/// A progress report.
fn report(current: i64, total: i64, status: &str, message: String) -> (r: ImportProgress)
    ensures
        r@ == progress_of(current, total, status@, message@),
{
    ImportProgress { current, total, status: String::from_str(status), message }
}

/// A progress report of a running import.
fn importing_report(current: i64, total: i64, message: String) -> (r: Option<ImportProgress>)
    ensures
        opt_progress(r) == importing(current, total, message@),
{
    Some(report(current, total, "importing", message))
}

/// The result of an import that failed before inserting anything.
fn failed_result(message: String, elapsed: u64) -> (r: ImportResult)
    ensures
        r@ == failed(message@, elapsed),
{
    let r = ImportResult { success: false, imported_count: 0, error_count: 1, errors: vec![message], duration_ms: elapsed };
    assert(strings_view(r.errors@) =~= seq![message@]);
    r
}

impl ImportMachine {
    /// A new import of `config`, before anything is done.
    pub fn new(config: &ImportConfig) -> (r: ImportMachine)
        ensures
            r@ == initial_machine(*config),
    {
        let r = ImportMachine {
            db_type: config.db_config.db_type,
            mode: config.import_mode,
            table_name: config.table_name.clone(),
            srs_setting: match &config.srs {
                Some(s) => Some(s.clone()),
                None => None,
            },
            phase: ImportPhase::Start,
            fields: Vec::new(),
            srs_code: None,
            total: 0,
            srs: 4326,
            batch_size: 10,
            pending: 0,
            imported: 0,
            error_count: 0,
            errors: Vec::new(),
            result: None,
        };
        assert(r@ =~= initial_machine(*config));
        r
    }

    /// The column names and column type names of the layer's fields.
    fn field_columns(&self) -> (r: (Vec<String>, Vec<String>))
        ensures
            strings_view(r.0@) == self@.field_names,
            strings_view(r.1@) == self@.field_types,
            r.0@.len() == r.1@.len(),
    {
        let mut names: Vec<String> = Vec::new();
        let mut types: Vec<String> = Vec::new();
        let mut i: usize = 0;
        while i < self.fields.len()
            invariant
                i <= self.fields@.len(),
                names@.len() == i,
                types@.len() == i,
                forall|j: int| 0 <= j < i ==> (#[trigger] names@[j])@ == self.fields@[j].name@,
                forall|j: int| 0 <= j < i ==> (#[trigger] types@[j])@ == import_type_text(self.fields@[j].type_code),
            decreases self.fields@.len() - i,
        {
            names.push(self.fields[i].name.clone());
            types.push(String::from_str(import_type_name(self.fields[i].type_code)));
            i = i + 1;
        }
        assert(strings_view(names@) =~= self@.field_names);
        assert(strings_view(types@) =~= self@.field_types);
        (names, types)
    }

    /// The action the machine waits on.
    fn awaited_action(&self) -> (r: ImportAction)
        ensures
            r@ == awaited(self@),
    {
        match self.phase {
            ImportPhase::Start => ImportAction::OpenSource,
            ImportPhase::Opening => ImportAction::OpenSource,
            ImportPhase::Connecting => ImportAction::Connect,
            ImportPhase::Dropping => {
                let dialect = crate::database::traits::create_dialect(&self.db_type);
                ImportAction::Execute(dialect.drop_table_sql(self.table_name.as_str()))
            },
            ImportPhase::Creating => {
                let dialect = crate::database::traits::create_dialect(&self.db_type);
                let (names, types) = self.field_columns();
                let sql = dialect.create_table_sql(self.table_name.as_str(), names.as_slice(), types.as_slice());
                ImportAction::Execute(sql)
            },
            ImportPhase::CheckingTable => match self.db_type {
                DbType::PostgreSQL => ImportAction::CheckTable(String::from_str(PostgresDialect.table_exists_sql())),
                DbType::Dameng => ImportAction::CheckTable(
                    crate::database::dameng::table_exists_query(self.table_name.as_str()),
                ),
            },
            ImportPhase::ListingColumns => match self.db_type {
                DbType::PostgreSQL => ImportAction::ListColumns(String::from_str(PostgresDialect.get_table_columns_sql())),
                DbType::Dameng => ImportAction::ListColumns(
                    crate::database::dameng::table_columns_query(self.table_name.as_str()),
                ),
            },
            ImportPhase::StartingTx => ImportAction::BeginTransaction,
            ImportPhase::Reading => {
                let setting: Option<&str> = match &self.srs_setting {
                    Some(s) => Some(s.as_str()),
                    None => None,
                };
                ImportAction::NextFeature { convert_to: reprojection_target(setting, self.srs_code) }
            },
            ImportPhase::Inserting { last } => ImportAction::InsertBatch { srs: self.srs, last },
            ImportPhase::Committing => ImportAction::Commit,
            ImportPhase::Done => match &self.result {
                Some(r) => ImportAction::Finish(r.duplicate()),
                None => ImportAction::Commit,
            },
        }
    }

    /// No awaited event: nothing changes, the awaited action is asked again.
    fn stay(&self) -> (r: ImportStep)
        ensures
            step_view(r, self@) == stay(self@),
    {
        ImportStep { progress: None, action: self.awaited_action() }
    }

    /// Moves to `phase`, reporting `progress`.
    fn go(&mut self, phase: ImportPhase, progress: Option<ImportProgress>) -> (r: ImportStep)
        ensures
            step_view(r, final(self)@) == go(old(self)@, phase, opt_progress(progress)),
    {
        self.phase = phase;
        assert(self@ =~= MachineModel { phase, ..old(self)@ });
        ImportStep { progress, action: self.awaited_action() }
    }

    /// Finishes with `result`, reporting `progress`.
    fn finish(&mut self, result: ImportResult, progress: Option<ImportProgress>) -> (r: ImportStep)
        ensures
            step_view(r, final(self)@) == finish(old(self)@, result@, opt_progress(progress)),
    {
        self.result = Some(result.duplicate());
        self.phase = ImportPhase::Done;
        assert(self@ =~= MachineModel { phase: ImportPhase::Done, result: Some(result@), ..old(self)@ });
        ImportStep { progress, action: ImportAction::Finish(result) }
    }
}

} // verus!

verus! {

impl ImportMachine {
    /// The table is ready (see `ready`).
    fn on_ready(&mut self, elapsed: u64) -> (r: ImportStep)
        ensures
            step_view(r, final(self)@) == ready(old(self)@, elapsed),
    {
        let setting: Option<&str> = match &self.srs_setting {
            Some(s) => Some(s.as_str()),
            None => None,
        };
        self.srs = resolve_srs(setting, self.srs_code);
        self.batch_size = batch_size_for(self.total);
        if self.total == 0 {
            let result = ImportResult { success: true, imported_count: 0, error_count: 0, errors: Vec::new(), duration_ms: elapsed };
            assert(result@ =~= ImportResultModel { success: true, imported_count: 0, error_count: 0, errors: seq![], duration_ms: elapsed });
            let p = importing_report(0, 1, String::from_str("没有数据可导入"));
            self.finish(result, p)
        } else {
            let mut message = String::from_str("共 ");
            let t = crate::text::i64_to_decimal(self.total);
            message.append(t.as_str());
            message.append(" 条记录，开始导入...");
            let p = importing_report(0, self.total, message);
            self.go(ImportPhase::StartingTx, p)
        }
    }

    fn on_opening(&mut self, e: ImportEvent, elapsed: u64) -> (r: ImportStep)
        requires
            old(self)@.phase == ImportPhase::Opening,
        ensures
            step_view(r, final(self)@) == step_spec(old(self)@, e, elapsed),
    {
        match e {
            ImportEvent::OpenFailed(err) => {
                let m = crate::text::cat("打开文件失败: ", err.as_str());
                self.finish(failed_result(m, elapsed), None)
            },
            ImportEvent::LayerMissing { requested, error } => {
                let mut m = crate::text::cat("找不到图层 ", requested.as_str());
                m.append(": ");
                m.append(error.as_str());
                self.finish(failed_result(m, elapsed), None)
            },
            ImportEvent::NoLayer => self.finish(failed_result(String::from_str("没有找到图层"), elapsed), None),
            ImportEvent::LayerOpened { fields, srs_code, feature_count } => {
                let ghost fs = fields@;
                self.fields = fields;
                self.srs_code = srs_code;
                self.total = feature_count as i64;
                assert(self@ =~= with_layer(old(self)@, fs, srs_code, feature_count));
                let p = importing_report(0, 100, String::from_str("正在读取数据..."));
                self.go(ImportPhase::Connecting, p)
            },
            _ => self.stay(),
        }
    }

    fn on_connecting(&mut self, e: ImportEvent, elapsed: u64) -> (r: ImportStep)
        requires
            old(self)@.phase == ImportPhase::Connecting,
        ensures
            step_view(r, final(self)@) == step_spec(old(self)@, e, elapsed),
    {
        match e {
            ImportEvent::ConnectFailed(err) => {
                let m = match self.db_type {
                    DbType::PostgreSQL => err,
                    DbType::Dameng => crate::text::cat("连接达梦数据库失败: ", err.as_str()),
                };
                self.finish(failed_result(m, elapsed), None)
            },
            ImportEvent::Connected => match self.mode {
                ImportMode::CreateNew => self.go(ImportPhase::CheckingTable, None),
                ImportMode::Replace => self.go(ImportPhase::Dropping, None),
                ImportMode::Append => self.go(ImportPhase::CheckingTable, None),
            },
            _ => self.stay(),
        }
    }

    fn on_dropping(&mut self, e: ImportEvent, elapsed: u64) -> (r: ImportStep)
        requires
            old(self)@.phase == ImportPhase::Dropping,
        ensures
            step_view(r, final(self)@) == step_spec(old(self)@, e, elapsed),
    {
        match e {
            ImportEvent::StatementDone => self.go(ImportPhase::Creating, None),
            ImportEvent::StatementFailed(err) => match self.db_type {
                DbType::PostgreSQL => {
                    let m = crate::text::cat("删除表失败: ", err.as_str());
                    self.finish(failed_result(m, elapsed), None)
                },
                DbType::Dameng => self.go(ImportPhase::Creating, None),
            },
            _ => self.stay(),
        }
    }

    fn on_creating(&mut self, e: ImportEvent, elapsed: u64) -> (r: ImportStep)
        requires
            old(self)@.phase == ImportPhase::Creating,
        ensures
            step_view(r, final(self)@) == step_spec(old(self)@, e, elapsed),
    {
        match e {
            ImportEvent::StatementDone => self.on_ready(elapsed),
            ImportEvent::StatementFailed(err) => {
                let m = crate::text::cat("创建表失败: ", err.as_str());
                self.finish(failed_result(m, elapsed), None)
            },
            _ => self.stay(),
        }
    }

    /// `表 <table><suffix>`.
    fn table_message(&self, suffix: &str) -> (r: String)
        ensures
            r@ == "表 "@ + self@.table + suffix@,
    {
        let mut m = crate::text::cat("表 ", self.table_name.as_str());
        m.append(suffix);
        m
    }

    /// Whether the target table exists is known (see `table_found`).
    fn on_table_found(&mut self, found: bool, elapsed: u64) -> (r: ImportStep)
        ensures
            step_view(r, final(self)@) == table_found(old(self)@, found, elapsed),
    {
        if self.mode == ImportMode::Append {
            if found {
                self.go(ImportPhase::ListingColumns, None)
            } else {
                let m = self.table_message(" 不存在，请使用 CreateNew 模式创建表");
                self.finish(failed_result(m, elapsed), None)
            }
        } else if found {
            let m = self.table_message(" 已存在，请使用 Replace 模式删除并重建表");
            self.finish(failed_result(m, elapsed), None)
        } else {
            self.go(ImportPhase::Creating, None)
        }
    }

    fn on_checking_table(&mut self, e: ImportEvent, elapsed: u64) -> (r: ImportStep)
        requires
            old(self)@.phase == ImportPhase::CheckingTable,
        ensures
            step_view(r, final(self)@) == step_spec(old(self)@, e, elapsed),
    {
        match e {
            ImportEvent::TableCount(res) => if self.db_type == DbType::PostgreSQL {
                let n: i64 = match res {
                    Ok(n) => n,
                    Err(_) => 0,
                };
                self.on_table_found(n != 0, elapsed)
            } else {
                self.stay()
            },
            ImportEvent::TableStatus(res) => if self.db_type == DbType::Dameng {
                match res {
                    Ok(found) => self.on_table_found(found, elapsed),
                    Err(err) => {
                        let m = crate::text::cat("检查表是否存在失败: ", err.as_str());
                        self.finish(failed_result(m, elapsed), None)
                    },
                }
            } else {
                self.stay()
            },
            _ => self.stay(),
        }
    }

    fn on_listing_columns(&mut self, e: ImportEvent, elapsed: u64) -> (r: ImportStep)
        requires
            old(self)@.phase == ImportPhase::ListingColumns,
        ensures
            step_view(r, final(self)@) == step_spec(old(self)@, e, elapsed),
    {
        match e {
            ImportEvent::Columns(res) => match self.db_type {
                DbType::PostgreSQL => {
                    let cols: Vec<String> = match res {
                        Ok(c) => c,
                        Err(_) => Vec::new(),
                    };
                    if has_column_exactly(&cols, "geom") {
                        self.on_ready(elapsed)
                    } else {
                        let m = self.table_message(" 没有 geom 字段，无法追加数据");
                        self.finish(failed_result(m, elapsed), None)
                    }
                },
                DbType::Dameng => match res {
                    Ok(c) => if has_geom_column(&c) {
                        self.on_ready(elapsed)
                    } else {
                        let m = self.table_message(" 没有 geom 字段，无法追加数据");
                        self.finish(failed_result(m, elapsed), None)
                    },
                    Err(err) => {
                        let m = crate::text::cat("获取表字段失败: ", err.as_str());
                        self.finish(failed_result(m, elapsed), None)
                    },
                },
            },
            _ => self.stay(),
        }
    }

    fn on_starting_tx(&mut self, e: ImportEvent, elapsed: u64) -> (r: ImportStep)
        requires
            old(self)@.phase == ImportPhase::StartingTx,
        ensures
            step_view(r, final(self)@) == step_spec(old(self)@, e, elapsed),
    {
        match e {
            ImportEvent::TxStarted => self.go(ImportPhase::Reading, None),
            ImportEvent::TxFailed(err) => {
                let m = crate::text::cat("开始事务失败: ", err.as_str());
                self.finish(failed_result(m, elapsed), None)
            },
            _ => self.stay(),
        }
    }
}

/// Whether one of the column names is exactly `name`.
fn has_column_exactly(cols: &Vec<String>, name: &str) -> (r: bool)
    ensures
        r == strings_view(cols@).contains(name@),
{
    let mut i: usize = 0;
    while i < cols.len()
        invariant
            i <= cols@.len(),
            forall|j: int| 0 <= j < i ==> cols@[j]@ != name@,
        decreases cols@.len() - i,
    {
        if crate::text::str_eq(cols[i].as_str(), name) {
            assert(strings_view(cols@)[i as int] == name@);
            return true;
        }
        i = i + 1;
    }
    false
}

/// Whether one of the column names, lower-cased, is `geom`.
fn has_geom_column(cols: &Vec<String>) -> (r: bool)
    ensures
        r == has_geom_column_lower(strings_view(cols@)),
{
    let mut i: usize = 0;
    while i < cols.len()
        invariant
            i <= cols@.len(),
            forall|j: int| 0 <= j < i ==> lower_text(cols@[j]@) != "geom"@,
        decreases cols@.len() - i,
    {
        let lower = crate::text::to_lower(cols[i].as_str());
        if crate::text::str_eq(lower.as_str(), "geom") {
            assert(lower_text(strings_view(cols@)[i as int]) == "geom"@);
            return true;
        }
        i = i + 1;
    }
    proof {
        assert forall|j: int| 0 <= j < strings_view(cols@).len() implies lower_text(#[trigger] strings_view(cols@)[j]) != "geom"@ by {
            assert(strings_view(cols@)[j] == cols@[j]@);
        }
    }
    false
}

} // verus!

verus! {

impl ImportMachine {
    fn on_reading(&mut self, e: ImportEvent, elapsed: u64) -> (r: ImportStep)
        requires
            old(self)@.phase == ImportPhase::Reading,
            admits(old(self)@, e),
        ensures
            step_view(r, final(self)@) == step_spec(old(self)@, e, elapsed),
    {
        match e {
            ImportEvent::Cancelled => {
                let result = ImportResult {
                    success: false,
                    imported_count: self.imported,
                    error_count: self.error_count,
                    errors: vec![String::from_str("用户取消了导入")],
                    duration_ms: elapsed,
                };
                assert(strings_view(result.errors@) =~= seq!["用户取消了导入"@]);
                let p = report(self.imported, self.total, "cancelled", String::from_str("导入已取消"));
                self.finish(result, Some(p))
            },
            ImportEvent::FeatureSkipped => {
                self.error_count = self.error_count + 1;
                self.go(ImportPhase::Reading, None)
            },
            ImportEvent::FeatureQueued => {
                self.pending = self.pending + 1;
                if self.pending >= self.batch_size {
                    self.go(ImportPhase::Inserting { last: false }, None)
                } else {
                    self.go(ImportPhase::Reading, None)
                }
            },
            ImportEvent::FeaturesExhausted => if self.pending > 0 {
                self.go(ImportPhase::Inserting { last: true }, None)
            } else {
                self.go(ImportPhase::Committing, None)
            },
            _ => self.stay(),
        }
    }

    fn on_inserting(&mut self, last: bool, e: ImportEvent, elapsed: u64) -> (r: ImportStep)
        requires
            old(self)@.phase == (ImportPhase::Inserting { last }),
            admits(old(self)@, e),
        ensures
            step_view(r, final(self)@) == step_spec(old(self)@, e, elapsed),
    {
        match e {
            ImportEvent::BatchInserted { sent, stored } => {
                let short: usize = if stored < sent { sent - stored } else { 0 };
                self.imported = self.imported + (stored as i64);
                self.error_count = self.error_count + (short as i64);
                self.pending = 0;
                if last {
                    self.go(ImportPhase::Committing, None)
                } else {
                    let mut m = String::from_str("导入中... ");
                    let a = crate::text::i64_to_decimal(self.imported);
                    m.append(a.as_str());
                    crate::text::push_char(&mut m, '/');
                    let b = crate::text::i64_to_decimal(self.total);
                    m.append(b.as_str());
                    let p = importing_report(self.imported, self.total, m);
                    self.go(ImportPhase::Reading, p)
                }
            },
            ImportEvent::BatchFailed(err) => {
                let prefix = if last { "最后批次插入失败: " } else { "批次插入失败: " };
                let message = crate::text::cat(prefix, err.as_str());
                self.error_count = self.error_count + (self.pending as i64);
                self.pending = 0;
                if self.errors.len() < 10 {
                    self.errors.push(message);
                }
                if last {
                    self.go(ImportPhase::Committing, None)
                } else {
                    self.go(ImportPhase::Reading, None)
                }
            },
            _ => self.stay(),
        }
    }

    fn on_committing(&mut self, e: ImportEvent, elapsed: u64) -> (r: ImportStep)
        requires
            old(self)@.phase == ImportPhase::Committing,
        ensures
            step_view(r, final(self)@) == step_spec(old(self)@, e, elapsed),
    {
        match e {
            ImportEvent::Committed => {
                let result = ImportResult {
                    success: self.error_count == 0,
                    imported_count: self.imported,
                    error_count: self.error_count,
                    errors: crate::models::copy_strings(&self.errors),
                    duration_ms: elapsed,
                };
                let mut m = String::from_str("导入完成！共导入 ");
                let a = crate::text::i64_to_decimal(self.imported);
                m.append(a.as_str());
                m.append(" 条");
                let p = importing_report(self.total, self.total, m);
                self.finish(result, p)
            },
            ImportEvent::CommitFailed(err) => {
                let m = crate::text::cat("提交事务失败: ", err.as_str());
                let result = ImportResult {
                    success: false,
                    imported_count: self.imported,
                    error_count: self.error_count,
                    errors: vec![m],
                    duration_ms: elapsed,
                };
                assert(strings_view(result.errors@) =~= seq![m@]);
                self.finish(result, None)
            },
            _ => self.stay(),
        }
    }

    /// Whether the machine can take `e` (see `admits`); the caller stops with
    /// an overflow error when it cannot.
    pub fn can_take(&self, e: &ImportEvent) -> (r: bool)
        ensures
            r == admits(self@, *e),
    {
        match self.phase {
            ImportPhase::Reading => match e {
                ImportEvent::FeatureSkipped => self.error_count < i64::MAX,
                ImportEvent::FeatureQueued => self.pending < usize::MAX,
                _ => true,
            },
            ImportPhase::Inserting { .. } => match e {
                ImportEvent::BatchInserted { sent, stored } => {
                    let c = *stored as i64;
                    let imported_fits = if c >= 0 {
                        self.imported <= i64::MAX - c
                    } else {
                        self.imported >= i64::MIN - c
                    };
                    let short: usize = if *stored < *sent { *sent - *stored } else { 0 };
                    let short_fits = (short as u64) <= (i64::MAX as u64);
                    imported_fits && short_fits && self.error_count <= i64::MAX - (short as i64)
                },
                ImportEvent::BatchFailed(_) => {
                    let c = self.pending as i64;
                    if c >= 0 {
                        self.error_count <= i64::MAX - c
                    } else {
                        self.error_count >= i64::MIN - c
                    }
                },
                _ => true,
            },
            _ => true,
        }
    }

    /// Takes the outcome `e` of the last action, `elapsed_ms` milliseconds
    /// after the import began, and gives the progress report to send and the
    /// next action (see `step_spec`).
    pub fn step(&mut self, e: ImportEvent, elapsed_ms: u64) -> (r: ImportStep)
        requires
            admits(old(self)@, e),
        ensures
            step_view(r, final(self)@) == step_spec(old(self)@, e, elapsed_ms),
    {
        match self.phase {
            ImportPhase::Start => match e {
                ImportEvent::Begin => self.go(ImportPhase::Opening, None),
                _ => self.stay(),
            },
            ImportPhase::Opening => self.on_opening(e, elapsed_ms),
            ImportPhase::Connecting => self.on_connecting(e, elapsed_ms),
            ImportPhase::Dropping => self.on_dropping(e, elapsed_ms),
            ImportPhase::Creating => self.on_creating(e, elapsed_ms),
            ImportPhase::CheckingTable => self.on_checking_table(e, elapsed_ms),
            ImportPhase::ListingColumns => self.on_listing_columns(e, elapsed_ms),
            ImportPhase::StartingTx => self.on_starting_tx(e, elapsed_ms),
            ImportPhase::Reading => self.on_reading(e, elapsed_ms),
            ImportPhase::Inserting { last } => self.on_inserting(last, e, elapsed_ms),
            ImportPhase::Committing => self.on_committing(e, elapsed_ms),
            ImportPhase::Done => self.stay(),
        }
    }
}

} // verus!

verus! {

// ---------------------------------------------------------------------------
// Laws
// ---------------------------------------------------------------------------

/// The batch size is 10, 100 or 300, and never shrinks as the number of
/// features grows.
pub proof fn law_batch_size(t1: i64, t2: i64)
    ensures
        batch_size_for_total(t1) == 10 || batch_size_for_total(t1) == 100 || batch_size_for_total(t1) == 300,
        t1 <= t2 ==> batch_size_for_total(t1) <= batch_size_for_total(t2),
{
}

/// Features are converted exactly when a setting selects a system other than
/// the layer's: with `EPSG:<code>` and a layer in another (or an unknown)
/// system they are converted into `code`, with the layer's own code they are
/// stored as read.
pub proof fn law_reprojection(code: i32, layer_code: Option<i32>)
    ensures
        reprojection_to(Some("EPSG:"@ + decimal(code as int)), layer_code) == (if layer_code == Some(code) {
            None
        } else {
            Some(code)
        }),
        reprojection_to(None, layer_code) is None,
{
    law_epsg_setting(code, layer_code);
}

/// A setting `EPSG:<code>` selects exactly that code, whatever the layer says.
pub proof fn law_epsg_setting(code: i32, layer_code: Option<i32>)
    ensures
        resolved_srs(Some("EPSG:"@ + decimal(code as int)), layer_code) == code,
{
    let p = "EPSG:"@;
    let d = decimal(code as int);
    assert((p + d).take(p.len() as int) =~= p);
    assert((p + d).skip(p.len() as int) =~= d);
    crate::text::lemma_parse_decimal(code as int);
}

/// A cleaned text holds no NUL, carriage return or line feed, is no longer
/// than the original, and a text without those characters is left as it is.
pub proof fn law_cleaned(s: Seq<char>)
    ensures
        forall|i: int| 0 <= i < cleaned(s).len() ==> {
            let c = #[trigger] cleaned(s)[i];
            c != '\0' && c != '\r' && c != '\n'
        },
        cleaned(s).len() <= s.len(),
        (forall|i: int| 0 <= i < s.len() ==> {
            let c = #[trigger] s[i];
            c != '\0' && c != '\r' && c != '\n'
        }) ==> cleaned(s) == s,
    decreases s.len(),
{
    if s.len() > 0 {
        let rest = s.drop_last();
        law_cleaned(rest);
        let r = cleaned(rest);
        assert forall|i: int| 0 <= i < cleaned(s).len() implies {
            let c = #[trigger] cleaned(s)[i];
            c != '\0' && c != '\r' && c != '\n'
        } by {
            if i < r.len() {
                assert(cleaned(s)[i] == r[i]);
            }
        }
        if forall|i: int| 0 <= i < s.len() ==> {
            let c = #[trigger] s[i];
            c != '\0' && c != '\r' && c != '\n'
        } {
            assert forall|i: int| 0 <= i < rest.len() implies {
                let c = #[trigger] rest[i];
                c != '\0' && c != '\r' && c != '\n'
            } by {
                assert(rest[i] == s[i]);
            }
            assert(s.last() == s[s.len() - 1]);
            assert(s =~= rest.push(s.last()));
        }
    }
}

/// The machine's invariant: the batch size is one of the three sizes; the
/// pending batch never exceeds it (and is below it while reading); a batch
/// being inserted is not empty; only reading, inserting or a finished import
/// can leave rows pending; at most ten error messages are kept, and no more
/// than the count of errors; the result exists exactly when the import is
/// done, and a successful result carries no errors.
pub open spec fn wf(m: MachineModel) -> bool {
    &&& m.batch_size == 10 || m.batch_size == 100 || m.batch_size == 300
    &&& m.pending <= m.batch_size
    &&& (m.phase == ImportPhase::Reading ==> m.pending < m.batch_size)
    &&& (m.phase is Inserting ==> m.pending >= 1)
    &&& (m.pending > 0 ==> (m.phase == ImportPhase::Reading || m.phase is Inserting || m.phase
        == ImportPhase::Done))
    &&& m.error_count >= 0
    &&& m.errors.len() <= 10
    &&& m.errors.len() <= m.error_count
    &&& (m.phase == ImportPhase::Done <==> m.result is Some)
    &&& (m.result matches Some(r) ==> (r.success ==> r.error_count == 0 && r.errors.len() == 0))
}

/// A new import satisfies the invariant.
pub proof fn law_initial_wf(config: ImportConfig)
    ensures
        wf(initial_machine(config)),
{
}

/// Every step keeps the invariant.
pub proof fn law_step_keeps_wf(m: MachineModel, e: ImportEvent, elapsed: u64)
    requires
        wf(m),
        admits(m, e),
    ensures
        wf(step_spec(m, e, elapsed).machine),
{
    let s = step_spec(m, e, elapsed);
    assert(seq!["用户取消了导入"@].len() == 1);
    match m.phase {
        ImportPhase::Inserting { last } => {
            match e {
                ImportEvent::BatchFailed(err) => {
                    assert(m.pending as i64 == m.pending);
                },
                _ => {},
            }
        },
        _ => {},
    }
}

/// An import that finishes reported as successful carries no error.
pub proof fn law_success_has_no_errors(m: MachineModel, e: ImportEvent, elapsed: u64)
    requires
        wf(m),
        admits(m, e),
    ensures
        step_spec(m, e, elapsed).action matches ActionModel::Finish(r) ==> (r.success ==> r.error_count == 0
            && r.errors.len() == 0),
{
    law_step_keeps_wf(m, e, elapsed);
}

/// While an import runs, the counts of imported rows and of errors never go
/// down (for a database that reports at most `i64::MAX` inserted rows).
pub proof fn law_counts_never_decrease(m: MachineModel, e: ImportEvent, elapsed: u64)
    requires
        wf(m),
        admits(m, e),
        e matches ImportEvent::BatchInserted { stored, .. } ==> stored <= i64::MAX,
    ensures
        step_spec(m, e, elapsed).machine.imported >= m.imported,
        step_spec(m, e, elapsed).machine.error_count >= m.error_count,
{
}

/// Rows left out of a batch statement (not sent) count in neither total: when
/// every row sent went in, the imported count grows by exactly the rows
/// stored and the error count stays as it was.
pub proof fn law_unsent_rows_count_nowhere(m: MachineModel, sent: usize, stored: usize, elapsed: u64)
    requires
        m.phase is Inserting,
        admits(m, ImportEvent::BatchInserted { sent, stored }),
        stored == sent,
        stored <= i64::MAX,
    ensures
        step_spec(m, ImportEvent::BatchInserted { sent, stored }, elapsed).machine.imported == m.imported + stored,
        step_spec(m, ImportEvent::BatchInserted { sent, stored }, elapsed).machine.error_count == m.error_count,
{
}

/// The table of an import is created with the dialect of the configured
/// database kind: a Dameng import creates it with the Dameng dialect's
/// statement (`INT IDENTITY(1,1)` key, `DMI_GEOMETRY`, Dameng column types),
/// a PostgreSQL import with the PostgreSQL dialect's, from the layer's field
/// names and type names.
pub proof fn law_create_uses_database_dialect(m: MachineModel)
    requires
        m.phase == ImportPhase::Creating,
    ensures
        m.db_type == DbType::Dameng ==> awaited(m) == ActionModel::Execute(
            create_table_text(&DamengDialect, m.table, m.field_names, m.field_types),
        ),
        m.db_type == DbType::PostgreSQL ==> awaited(m) == ActionModel::Execute(
            create_table_text(&PostgresDialect, m.table, m.field_names, m.field_types),
        ),
{
    law_runtime_dameng_dialect(m.table, m.field_names, m.field_types, 0, seq![], seq![], seq![], 0);
    law_runtime_postgres_dialect(m.table, m.field_names, m.field_types, 0, seq![], seq![], seq![], 0);
}

/// When a new table is to be created and none of that name exists, the next
/// action is that database kind's CREATE TABLE for the layer's fields.
pub proof fn law_create_new_creates_with_database_dialect(m: MachineModel, e: ImportEvent, elapsed: u64)
    requires
        m.phase == ImportPhase::CheckingTable,
        m.mode == ImportMode::CreateNew,
        m.db_type == DbType::PostgreSQL ==> e == ImportEvent::TableCount(Ok(0)),
        m.db_type == DbType::Dameng ==> e == ImportEvent::TableStatus(Ok(false)),
    ensures
        m.db_type == DbType::Dameng ==> step_spec(m, e, elapsed).action == ActionModel::Execute(
            create_table_text(&DamengDialect, m.table, m.field_names, m.field_types),
        ),
        m.db_type == DbType::PostgreSQL ==> step_spec(m, e, elapsed).action == ActionModel::Execute(
            create_table_text(&PostgresDialect, m.table, m.field_names, m.field_types),
        ),
{
    let next = MachineModel { phase: ImportPhase::Creating, ..m };
    law_create_uses_database_dialect(next);
}

/// A finished import stays finished: every later event leaves the state as
/// it is and gives the same result again.
pub proof fn law_done_is_final(m: MachineModel, e: ImportEvent, elapsed: u64)
    requires
        wf(m),
        m.phase == ImportPhase::Done,
    ensures
        step_spec(m, e, elapsed).machine == m,
        step_spec(m, e, elapsed).progress is None,
        step_spec(m, e, elapsed).action == ActionModel::Finish(m.result->0),
{
}

/// The table is kept as it is by an append (never dropped or created), and
/// a new import never drops one.
pub open spec fn keeps_existing_table(m: MachineModel) -> bool {
    &&& m.mode == ImportMode::Append ==> m.phase != ImportPhase::Dropping && m.phase != ImportPhase::Creating
    &&& m.mode == ImportMode::CreateNew ==> m.phase != ImportPhase::Dropping
}

/// A new import satisfies `keeps_existing_table`.
pub proof fn law_initial_keeps_table(config: ImportConfig)
    ensures
        keeps_existing_table(initial_machine(config)),
{
}

/// Every step keeps `keeps_existing_table`: appending never drops or creates
/// the target table, and creating a new table never drops one.
pub proof fn law_step_keeps_table(m: MachineModel, e: ImportEvent, elapsed: u64)
    requires
        keeps_existing_table(m),
    ensures
        keeps_existing_table(step_spec(m, e, elapsed).machine),
{
}

/// Creating a new table fails, with nothing imported, when a table of that
/// name exists already.
pub proof fn law_create_new_refuses_existing(m: MachineModel, e: ImportEvent, elapsed: u64)
    requires
        m.phase == ImportPhase::CheckingTable,
        m.mode == ImportMode::CreateNew,
        m.db_type == DbType::PostgreSQL ==> (e matches ImportEvent::TableCount(Ok(n)) && n != 0),
        m.db_type == DbType::Dameng ==> e == ImportEvent::TableStatus(Ok(true)),
    ensures
        step_spec(m, e, elapsed).action == ActionModel::Finish(failed(existing_table_message(m.table), elapsed)),
{
}

/// Appending to a table that does not exist fails, with nothing imported.
pub proof fn law_append_needs_table(m: MachineModel, e: ImportEvent, elapsed: u64)
    requires
        m.phase == ImportPhase::CheckingTable,
        m.mode == ImportMode::Append,
        m.db_type == DbType::PostgreSQL ==> (e matches ImportEvent::TableCount(Ok(n)) && n == 0),
        m.db_type == DbType::Dameng ==> e == ImportEvent::TableStatus(Ok(false)),
    ensures
        step_spec(m, e, elapsed).action == ActionModel::Finish(failed(missing_table_message(m.table), elapsed)),
{
}

/// Appending to an existing table with a `geom` column goes on to insert the
/// features into it (after starting a transaction), when there are any. The
/// column is found by its exact name for PostgreSQL and by its lower-cased
/// name for Dameng.
pub proof fn law_append_inserts(m: MachineModel, cols: Vec<String>, elapsed: u64)
    requires
        m.phase == ImportPhase::ListingColumns,
        m.mode == ImportMode::Append,
        m.db_type == DbType::PostgreSQL ==> strings_view(cols@).contains("geom"@),
        m.db_type == DbType::Dameng ==> has_geom_column_lower(strings_view(cols@)),
        m.total != 0,
    ensures
        step_spec(m, ImportEvent::Columns(Ok(cols)), elapsed).action == ActionModel::BeginTransaction,
{
}

} // verus!
