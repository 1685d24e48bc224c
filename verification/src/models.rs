//! The data that crosses the library's boundary: database settings, file
//! descriptions, import settings, progress and results, each with the
//! mathematical value (`@`) that contracts speak of.
use std::collections::HashMap;
use vstd::prelude::*;

verus! {

/// The kind of database that data is imported into.
#[derive(Clone, Copy, Debug, PartialEq, Eq, Structural)]
pub enum DbType {
    PostgreSQL,
    Dameng,
}

/// How to reach a database.
#[derive(Clone, Debug)]
pub struct DbConfig {
    pub db_type: DbType,
    pub host: String,
    pub port: u16,
    pub database: String,
    pub username: String,
    pub password: String,
}

/// The value of a `DbConfig`.
#[verifier::ext_equal]
pub struct DbConfigModel {
    pub db_type: DbType,
    pub host: Seq<char>,
    pub port: u16,
    pub database: Seq<char>,
    pub username: Seq<char>,
    pub password: Seq<char>,
}

impl View for DbConfig {
    type V = DbConfigModel;

    open spec fn view(&self) -> DbConfigModel {
        DbConfigModel {
            db_type: self.db_type,
            host: self.host@,
            port: self.port,
            database: self.database@,
            username: self.username@,
            password: self.password@,
        }
    }
}

impl DbConfig {
    /// A copy of these settings.
    pub fn duplicate(&self) -> (r: DbConfig)
        ensures
            r@ == self@,
    {
        DbConfig {
            db_type: self.db_type,
            host: self.host.clone(),
            port: self.port,
            database: self.database.clone(),
            username: self.username.clone(),
            password: self.password.clone(),
        }
    }
}

/// Database settings saved under a name.
#[derive(Clone, Debug)]
pub struct NamedDbConfig {
    pub name: String,
    pub config: DbConfig,
}

/// The value of a `NamedDbConfig`.
#[verifier::ext_equal]
pub struct NamedDbConfigModel {
    pub name: Seq<char>,
    pub config: DbConfigModel,
}

impl View for NamedDbConfig {
    type V = NamedDbConfigModel;

    open spec fn view(&self) -> NamedDbConfigModel {
        NamedDbConfigModel { name: self.name@, config: self.config@ }
    }
}

impl NamedDbConfig {
    /// A copy of this entry.
    pub fn duplicate(&self) -> (r: NamedDbConfig)
        ensures
            r@ == self@,
    {
        NamedDbConfig { name: self.name.clone(), config: self.config.duplicate() }
    }
}

/// All saved database settings, and the name of the one in use.
#[derive(Clone, Debug)]
pub struct DbConfigList {
    pub configs: Vec<NamedDbConfig>,
    pub active_config: Option<String>,
}

/// The value of a `DbConfigList`.
#[verifier::ext_equal]
pub struct DbConfigListModel {
    pub configs: Seq<NamedDbConfigModel>,
    pub active_config: Option<Seq<char>>,
}

/// The value of an optional string.
pub open spec fn opt_view(s: Option<String>) -> Option<Seq<char>> {
    match s {
        Some(t) => Some(t@),
        None => None,
    }
}

/// The values of a vector of strings.
pub open spec fn strings_view(v: Seq<String>) -> Seq<Seq<char>> {
    v.map_values(|s: String| s@)
}

impl View for DbConfigList {
    type V = DbConfigListModel;

    open spec fn view(&self) -> DbConfigListModel {
        DbConfigListModel {
            configs: self.configs@.map_values(|c: NamedDbConfig| c@),
            active_config: opt_view(self.active_config),
        }
    }
}

/// A file of spatial data as the import screen shows it.
#[derive(Clone, Debug)]
pub struct FileInfo {
    pub path: String,
    pub name: String,
    pub format: String,
    pub layer_name: String,
    pub feature_count: i64,
    pub geometry_type: String,
    pub fields: Vec<FieldInfo>,
    pub srs: Option<SpatialRefInfo>,
}

/// One attribute field of a layer.
#[derive(Clone, Debug)]
pub struct FieldInfo {
    pub name: String,
    pub field_type: String,
}

/// The coordinate reference system of a data set.
#[derive(Clone, Debug)]
pub struct SpatialRefInfo {
    pub epsg: i32,
    pub proj4: Option<String>,
    pub wkt: Option<String>,
}

/// How an import treats the target table.
#[derive(Clone, Copy, Debug, PartialEq, Eq, Structural)]
pub enum ImportMode {
    /// Create the table; the import fails when a table of that name exists.
    CreateNew,
    /// Insert into the existing table, which must have a `geom` column.
    Append,
    /// Drop the table and create it anew.
    Replace,
}

/// What the user asked to import, and where to.
#[derive(Clone, Debug)]
pub struct ImportConfig {
    pub db_config: DbConfig,
    pub file_path: String,
    pub layer_name: Option<String>,
    pub table_name: String,
    pub srs: Option<String>,
    pub import_mode: ImportMode,
    pub field_mapping: Option<HashMap<String, String>>,
}

/// A progress report sent while an import runs.
#[derive(Clone, Debug)]
pub struct ImportProgress {
    pub current: i64,
    pub total: i64,
    pub status: String,
    pub message: String,
}

/// The value of an `ImportProgress`.
#[verifier::ext_equal]
pub struct ImportProgressModel {
    pub current: i64,
    pub total: i64,
    pub status: Seq<char>,
    pub message: Seq<char>,
}

impl View for ImportProgress {
    type V = ImportProgressModel;

    open spec fn view(&self) -> ImportProgressModel {
        ImportProgressModel {
            current: self.current,
            total: self.total,
            status: self.status@,
            message: self.message@,
        }
    }
}

/// The outcome of an import.
#[derive(Clone, Debug)]
pub struct ImportResult {
    pub success: bool,
    pub imported_count: i64,
    pub error_count: i64,
    pub errors: Vec<String>,
    pub duration_ms: u64,
}

/// The value of an `ImportResult`.
#[verifier::ext_equal]
pub struct ImportResultModel {
    pub success: bool,
    pub imported_count: i64,
    pub error_count: i64,
    pub errors: Seq<Seq<char>>,
    pub duration_ms: u64,
}

impl View for ImportResult {
    type V = ImportResultModel;

    open spec fn view(&self) -> ImportResultModel {
        ImportResultModel {
            success: self.success,
            imported_count: self.imported_count,
            error_count: self.error_count,
            errors: strings_view(self.errors@),
            duration_ms: self.duration_ms,
        }
    }
}

impl ImportResult {
    /// A copy of this result.
    pub fn duplicate(&self) -> (r: ImportResult)
        ensures
            r@ == self@,
    {
        ImportResult {
            success: self.success,
            imported_count: self.imported_count,
            error_count: self.error_count,
            errors: copy_strings(&self.errors),
            duration_ms: self.duration_ms,
        }
    }
}

/// A copy of a vector of strings.
pub fn copy_strings(v: &Vec<String>) -> (r: Vec<String>)
    ensures
        strings_view(r@) == strings_view(v@),
{
    let mut r: Vec<String> = Vec::new();
    let mut i: usize = 0;
    while i < v.len()
        invariant
            i <= v@.len(),
            strings_view(r@) == strings_view(v@.take(i as int)),
        decreases v@.len() - i,
    {
        let ghost before = r@;
        let c = v[i].clone();
        assert(c@ == v@[i as int]@);
        r.push(c);
        assert(r@ == before.push(c));
        assert(v@.take(i + 1) == v@.take(i as int).push(v@[i as int]));
        assert(strings_view(r@) =~= strings_view(before).push(c@));
        assert(strings_view(v@.take(i + 1)) =~= strings_view(v@.take(i as int)).push(v@[i as int]@));
        i = i + 1;
    }
    assert(v@.take(v@.len() as int) == v@);
    r
}

/// The outcome of trying to connect to a database.
#[derive(Clone, Debug)]
pub struct ConnectionTestResult {
    pub success: bool,
    pub message: String,
    pub server_version: Option<String>,
}

/// The value of a `ConnectionTestResult`.
#[verifier::ext_equal]
pub struct ConnectionTestResultModel {
    pub success: bool,
    pub message: Seq<char>,
    pub server_version: Option<Seq<char>>,
}

impl View for ConnectionTestResult {
    type V = ConnectionTestResultModel;

    open spec fn view(&self) -> ConnectionTestResultModel {
        ConnectionTestResultModel {
            success: self.success,
            message: self.message@,
            server_version: opt_view(self.server_version),
        }
    }
}

/// Whether the DM8 ODBC driver is installed, with a message for the user.
#[derive(Clone, Debug)]
pub struct DamengDriverStatus {
    pub installed: bool,
    pub message: String,
}

} // verus!
