//! PostgreSQL connections, and the saved list of database settings that all
//! database kinds share.
use crate::database::dialects::postgres::PostgresDialect;
use crate::database::traits::{batch_insert_text, SqlStatements};
use crate::models::{
    strings_view, ConnectionTestResult, DbConfig, DbConfigList, DbConfigListModel,
    DbConfigModel, NamedDbConfig, NamedDbConfigModel,
};
use crate::text::{digits_of, str_eq, trim, trimmed, u64_to_decimal};
use vstd::prelude::*;

verus! {

// ---------------------------------------------------------------------------
// Saved database settings
// ---------------------------------------------------------------------------

/// `i` is the position of the first saved entry called `n`.
pub open spec fn is_first_named(cs: Seq<NamedDbConfigModel>, n: Seq<char>, i: int) -> bool {
    &&& 0 <= i < cs.len()
    &&& cs[i].name == n
    &&& forall|j: int| 0 <= j < i ==> cs[j].name != n
}

/// Some saved entry is called `n`.
pub open spec fn has_named(cs: Seq<NamedDbConfigModel>, n: Seq<char>) -> bool {
    exists|i: int| 0 <= i < cs.len() && cs[i].name == n
}

/// The position of the first saved entry called `n` (meaningful when there is one).
pub open spec fn first_named(cs: Seq<NamedDbConfigModel>, n: Seq<char>) -> int {
    choose|i: int| is_first_named(cs, n, i)
}

/// The list after saving `c` under the name `n`: the first entry of that name
/// takes the new settings, or a new entry is appended; `n` becomes active.
pub open spec fn saved_config(l: DbConfigListModel, c: DbConfigModel, n: Seq<char>) -> DbConfigListModel {
    DbConfigListModel {
        configs: if has_named(l.configs, n) {
            l.configs.update(first_named(l.configs, n), NamedDbConfigModel { name: n, config: c })
        } else {
            l.configs.push(NamedDbConfigModel { name: n, config: c })
        },
        active_config: Some(n),
    }
}

/// The entries not called `n`, in their order.
pub open spec fn without_named(cs: Seq<NamedDbConfigModel>, n: Seq<char>) -> Seq<NamedDbConfigModel>
    decreases cs.len(),
{
    if cs.len() == 0 {
        cs
    } else if cs.last().name == n {
        without_named(cs.drop_last(), n)
    } else {
        without_named(cs.drop_last(), n).push(cs.last())
    }
}

/// The list after deleting every entry called `n`; when `n` was active, the
/// first remaining entry (if any) becomes active.
pub open spec fn deleted_config(l: DbConfigListModel, n: Seq<char>) -> DbConfigListModel {
    let kept = without_named(l.configs, n);
    DbConfigListModel {
        configs: kept,
        active_config: if l.active_config == Some(n) {
            if kept.len() > 0 { Some(kept[0].name) } else { None }
        } else {
            l.active_config
        },
    }
}

/// The settings of the active entry: those of the first entry bearing the
/// active name, if there is an active name and such an entry.
pub open spec fn active_config_of(l: DbConfigListModel) -> Option<DbConfigModel> {
    match l.active_config {
        Some(a) => if has_named(l.configs, a) {
            Some(l.configs[first_named(l.configs, a)].config)
        } else {
            None
        },
        None => None,
    }
}

/// The value of an optional `DbConfig`.
pub open spec fn opt_config_view(c: Option<DbConfig>) -> Option<DbConfigModel> {
    match c {
        Some(x) => Some(x@),
        None => None,
    }
}

/// The list with no entries and nothing active.
pub open spec fn empty_config_list() -> DbConfigListModel {
    DbConfigListModel { configs: Seq::empty(), active_config: None }
}

proof fn lemma_first_named_unique(cs: Seq<NamedDbConfigModel>, n: Seq<char>, i: int, k: int)
    requires
        is_first_named(cs, n, i),
        is_first_named(cs, n, k),
    ensures
        i == k,
{
}

/// Finds the first entry called `name`.
fn find_named(configs: &Vec<NamedDbConfig>, name: &str) -> (r: Option<usize>)
    ensures
        r matches Some(i) ==> is_first_named(configs@.map_values(|c: NamedDbConfig| c@), name@, i as int),
        r is None ==> !has_named(configs@.map_values(|c: NamedDbConfig| c@), name@),
{
    let ghost cs = configs@.map_values(|c: NamedDbConfig| c@);
    let mut i: usize = 0;
    while i < configs.len()
        invariant
            i <= configs@.len(),
            cs == configs@.map_values(|c: NamedDbConfig| c@),
            forall|j: int| 0 <= j < i ==> cs[j].name != name@,
        decreases configs@.len() - i,
    {
        if str_eq(configs[i].name.as_str(), name) {
            return Some(i);
        }
        i = i + 1;
    }
    None
}

/// Saves `config` under `name` in the list: the first entry of that name takes
/// the new settings, or a new entry is appended; `name` becomes the active one.
pub fn save_config(list: DbConfigList, config: &DbConfig, name: &str) -> (r: DbConfigList)
    ensures
        r@ == saved_config(list@, config@, name@),
{
    let mut list = list;
    let ghost cs = list@.configs;
    match find_named(&list.configs, name) {
        Some(i) => {
            let entry = NamedDbConfig { name: list.configs[i].name.clone(), config: config.duplicate() };
            list.configs.set(i, entry);
            proof {
                assert(is_first_named(cs, name@, first_named(cs, name@)));
                lemma_first_named_unique(cs, name@, i as int, first_named(cs, name@));
                assert(list@.configs =~= cs.update(i as int, NamedDbConfigModel { name: name@, config: config@ }));
            }
        },
        None => {
            list.configs.push(NamedDbConfig { name: String::from_str(name), config: config.duplicate() });
            assert(list@.configs =~= cs.push(NamedDbConfigModel { name: name@, config: config@ }));
        },
    }
    list.active_config = Some(String::from_str(name));
    list
}

/// Deletes every entry called `name`; when it was the active one, the first
/// remaining entry (if any) becomes active.
pub fn delete_config(list: DbConfigList, name: &str) -> (r: DbConfigList)
    ensures
        r@ == deleted_config(list@, name@),
{
    let ghost cs = list@.configs;
    let mut kept: Vec<NamedDbConfig> = Vec::new();
    let mut i: usize = 0;
    while i < list.configs.len()
        invariant
            i <= list.configs@.len(),
            cs == list.configs@.map_values(|c: NamedDbConfig| c@),
            kept@.map_values(|c: NamedDbConfig| c@) == without_named(cs.take(i as int), name@),
        decreases list.configs@.len() - i,
    {
        let ghost before = kept@.map_values(|c: NamedDbConfig| c@);
        assert(cs.take(i + 1).drop_last() == cs.take(i as int));
        if !str_eq(list.configs[i].name.as_str(), name) {
            kept.push(list.configs[i].duplicate());
            assert(kept@.map_values(|c: NamedDbConfig| c@) =~= before.push(cs[i as int]));
        }
        i = i + 1;
    }
    assert(cs.take(cs.len() as int) == cs);
    let was_active = match &list.active_config {
        Some(a) => str_eq(a.as_str(), name),
        None => false,
    };
    let active = if was_active {
        if kept.len() > 0 {
            Some(kept[0].name.clone())
        } else {
            None
        }
    } else {
        list.active_config
    };
    DbConfigList { configs: kept, active_config: active }
}

/// What loading the saved list gives: the stored list when one could be read
/// and parsed, otherwise an empty list; the flag says that the empty list must
/// be written back to storage.
pub fn load_config(stored: Option<DbConfigList>) -> (r: (DbConfigList, bool))
    ensures
        stored matches Some(l) ==> r.0@ == l@ && !r.1,
        stored is None ==> r.0@ == empty_config_list() && r.1,
{
    match stored {
        Some(l) => (l, false),
        None => {
            let l = DbConfigList { configs: Vec::new(), active_config: None };
            assert(l@.configs =~= Seq::empty());
            (l, true)
        },
    }
}

/// The settings of the active entry, if any.
pub fn load_active_config(list: &DbConfigList) -> (r: Option<DbConfig>)
    ensures
        opt_config_view(r) == active_config_of(list@),
{
    let ghost cs = list@.configs;
    match &list.active_config {
        Some(active_name) => match find_named(&list.configs, active_name.as_str()) {
            Some(i) => {
                proof {
                    assert(is_first_named(cs, active_name@, first_named(cs, active_name@)));
                    lemma_first_named_unique(cs, active_name@, i as int, first_named(cs, active_name@));
                }
                Some(list.configs[i].config.duplicate())
            },
            None => None,
        },
        None => None,
    }
}

proof fn lemma_first_below(cs: Seq<NamedDbConfigModel>, n: Seq<char>, i: int)
    requires
        0 <= i < cs.len(),
        cs[i].name == n,
    ensures
        exists|k: int| is_first_named(cs, n, k),
    decreases i,
{
    if exists|j: int| 0 <= j < i && cs[j].name == n {
        let j = choose|j: int| 0 <= j < i && cs[j].name == n;
        lemma_first_below(cs, n, j);
    } else {
        assert(is_first_named(cs, n, i));
    }
}

/// When some entry bears the name `n`, `first_named` is the first of them.
pub proof fn lemma_first_named_exists(cs: Seq<NamedDbConfigModel>, n: Seq<char>)
    requires
        has_named(cs, n),
    ensures
        is_first_named(cs, n, first_named(cs, n)),
{
    let i = choose|i: int| 0 <= i < cs.len() && cs[i].name == n;
    lemma_first_below(cs, n, i);
}

/// Read after write: once `c` is saved under the name `n`, the active
/// settings are `c`.
pub proof fn law_save_then_active(l: DbConfigListModel, c: DbConfigModel, n: Seq<char>)
    ensures
        active_config_of(saved_config(l, c, n)) == Some(c),
{
    let cs = l.configs;
    let s = saved_config(l, c, n);
    let new = NamedDbConfigModel { name: n, config: c };
    if has_named(cs, n) {
        let i = first_named(cs, n);
        lemma_first_named_exists(cs, n);
        assert(is_first_named(s.configs, n, i));
        assert(has_named(s.configs, n));
        lemma_first_named_unique(s.configs, n, i, first_named(s.configs, n));
    } else {
        let k = cs.len() as int;
        assert(s.configs[k] == new);
        assert(is_first_named(s.configs, n, k));
        assert(has_named(s.configs, n));
        lemma_first_named_unique(s.configs, n, k, first_named(s.configs, n));
    }
}

/// Saving under a name already present replaces that entry in place, so the
/// number of entries stays; saving under a new name adds one entry.
pub proof fn law_save_count(l: DbConfigListModel, c: DbConfigModel, n: Seq<char>)
    ensures
        saved_config(l, c, n).configs.len() == l.configs.len() + (if has_named(l.configs, n) { 0int } else { 1int }),
{
    if has_named(l.configs, n) {
        lemma_first_named_exists(l.configs, n);
    }
}

proof fn lemma_without_named(cs: Seq<NamedDbConfigModel>, n: Seq<char>)
    ensures
        !has_named(without_named(cs, n), n),
        !has_named(cs, n) ==> without_named(cs, n) == cs,
        without_named(cs, n).len() <= cs.len(),
    decreases cs.len(),
{
    if cs.len() > 0 {
        let rest = cs.drop_last();
        lemma_without_named(rest, n);
        if !has_named(cs, n) {
            assert(!has_named(rest, n)) by {
                assert forall|i: int| 0 <= i < rest.len() implies rest[i].name != n by {
                    assert(rest[i] == cs[i]);
                }
            }
            assert(cs.last().name != n);
            assert(cs =~= rest.push(cs.last()));
        }
        let w = without_named(cs, n);
        if cs.last().name != n {
            let wr = without_named(rest, n);
            assert forall|i: int| 0 <= i < w.len() implies w[i].name != n by {
                if i < wr.len() {
                    assert(w[i] == wr[i]);
                }
            }
        }
    }
}

/// After deleting the name `n`, no entry bears it and it is not active.
pub proof fn law_delete_removes(l: DbConfigListModel, n: Seq<char>)
    ensures
        !has_named(deleted_config(l, n).configs, n),
        deleted_config(l, n).active_config != Some(n),
{
    lemma_without_named(l.configs, n);
    let kept = without_named(l.configs, n);
    if kept.len() > 0 {
        assert(kept[0].name != n);
    }
}

/// Deleting a name that no entry bears leaves the entries as they were.
pub proof fn law_delete_absent(l: DbConfigListModel, n: Seq<char>)
    requires
        !has_named(l.configs, n),
    ensures
        deleted_config(l, n).configs == l.configs,
{
    lemma_without_named(l.configs, n);
}

/// Deleting the active entry never leaves a non-empty list without an active
/// entry: the first remaining entry becomes active, and loading the active
/// settings then gives that entry's settings. Deleting another name keeps the
/// active name as it was.
pub proof fn law_delete_active_activates_first(l: DbConfigListModel, n: Seq<char>)
    ensures
        l.active_config == Some(n) && without_named(l.configs, n).len() > 0 ==> deleted_config(l, n).active_config
            == Some(without_named(l.configs, n)[0].name),
        l.active_config == Some(n) && deleted_config(l, n).configs.len() > 0 ==> active_config_of(
            deleted_config(l, n),
        ) == Some(deleted_config(l, n).configs[0].config),
        l.active_config == Some(n) && deleted_config(l, n).configs.len() == 0 ==> deleted_config(l, n).active_config
            is None,
        l.active_config != Some(n) ==> deleted_config(l, n).active_config == l.active_config,
{
    let d = deleted_config(l, n);
    if l.active_config == Some(n) && d.configs.len() > 0 {
        let a = d.configs[0].name;
        assert(is_first_named(d.configs, a, 0));
        assert(has_named(d.configs, a));
        lemma_first_named_exists(d.configs, a);
        lemma_first_named_unique(d.configs, a, 0, first_named(d.configs, a));
    }
}

/// Saving the same settings under the same name a second time changes nothing.
pub proof fn law_save_idempotent(l: DbConfigListModel, c: DbConfigModel, n: Seq<char>)
    ensures
        saved_config(saved_config(l, c, n), c, n) == saved_config(l, c, n),
{
    let cs = l.configs;
    let s = saved_config(l, c, n);
    let new = NamedDbConfigModel { name: n, config: c };
    let i = if has_named(cs, n) {
        lemma_first_named_exists(cs, n);
        first_named(cs, n)
    } else {
        cs.len() as int
    };
    assert(is_first_named(s.configs, n, i));
    assert(has_named(s.configs, n));
    lemma_first_named_exists(s.configs, n);
    lemma_first_named_unique(s.configs, n, i, first_named(s.configs, n));
    assert(s.configs.update(i, new) =~= s.configs);
}

proof fn lemma_without_named_update(cs: Seq<NamedDbConfigModel>, n: Seq<char>, i: int, x: NamedDbConfigModel)
    requires
        0 <= i < cs.len(),
        cs[i].name == n,
        x.name == n,
    ensures
        without_named(cs.update(i, x), n) == without_named(cs, n),
    decreases cs.len(),
{
    let u = cs.update(i, x);
    if i == cs.len() - 1 {
        assert(u.drop_last() =~= cs.drop_last());
    } else {
        lemma_without_named_update(cs.drop_last(), n, i, x);
        assert(u.drop_last() =~= cs.drop_last().update(i, x));
        assert(u.last() == cs.last());
    }
}

/// Deleting a name takes out what saving under it put in: the entries are
/// those of the list before the save, without that name.
pub proof fn law_delete_undoes_save(l: DbConfigListModel, c: DbConfigModel, n: Seq<char>)
    ensures
        deleted_config(saved_config(l, c, n), n).configs == without_named(l.configs, n),
{
    let cs = l.configs;
    let new = NamedDbConfigModel { name: n, config: c };
    if has_named(cs, n) {
        lemma_first_named_exists(cs, n);
        lemma_without_named_update(cs, n, first_named(cs, n), new);
    } else {
        assert(cs.push(new).drop_last() =~= cs);
    }
}

// ---------------------------------------------------------------------------
// Connections
// ---------------------------------------------------------------------------

/// The libpq connection string for the settings.
pub open spec fn connection_text(c: DbConfigModel) -> Seq<char> {
    "host="@ + c.host + " port="@ + digits_of(c.port as nat) + " dbname="@ + c.database + " user="@
        + c.username + " password="@ + c.password
}

/// The connection string the PostgreSQL client is given.
pub fn connection_string(config: &DbConfig) -> (r: String)
    ensures
        r@ == connection_text(config@),
{
    let mut s = String::new();
    s.append("host=");
    s.append(config.host.as_str());
    s.append(" port=");
    let p = u64_to_decimal(config.port as u64);
    s.append(p.as_str());
    s.append(" dbname=");
    s.append(config.database.as_str());
    s.append(" user=");
    s.append(config.username.as_str());
    s.append(" password=");
    s.append(config.password.as_str());
    s
}

/// The report of a connection test, from what the attempt gave: `Ok` with the
/// server's version text (or `None` when the version query failed), or `Err`
/// with the connection error's text.
pub fn test_connection(outcome: Result<Option<String>, String>) -> (r: ConnectionTestResult)
    ensures
        outcome matches Ok(v) ==> {
            &&& r.success
            &&& r@.message == "连接成功"@
            &&& r@.server_version == Some(match v { Some(t) => t@, None => "Unknown"@ })
        },
        outcome matches Err(e) ==> !r.success && r@.message == e@ && r.server_version is None,
{
    match outcome {
        Ok(version) => {
            let v = match version {
                Some(t) => t,
                None => String::from_str("Unknown"),
            };
            ConnectionTestResult {
                success: true,
                message: String::from_str("连接成功"),
                server_version: Some(v),
            }
        },
        Err(e) => ConnectionTestResult { success: false, message: e, server_version: None },
    }
}

// ---------------------------------------------------------------------------
// Batch inserts
// ---------------------------------------------------------------------------

/// Whether a WKT text is blank (nothing but white space).
pub open spec fn is_blank(w: Seq<char>) -> bool {
    trimmed(w).len() == 0
}

/// The positions, among the first `k` texts, of those that are not blank.
pub open spec fn non_blank_positions(ws: Seq<Seq<char>>, k: nat) -> Seq<int>
    decreases k,
{
    if k == 0 {
        Seq::empty()
    } else if is_blank(ws[k - 1]) {
        non_blank_positions(ws, (k - 1) as nat)
    } else {
        non_blank_positions(ws, (k - 1) as nat).push(k - 1)
    }
}

/// Positions of the rows whose geometry text is not blank, in order.
pub fn non_blank_rows(wkts: &Vec<String>) -> (r: Vec<usize>)
    ensures
        r@.map_values(|i: usize| i as int) == non_blank_positions(strings_view(wkts@), wkts@.len()),
{
    let ghost ws = strings_view(wkts@);
    let mut r: Vec<usize> = Vec::new();
    let mut i: usize = 0;
    while i < wkts.len()
        invariant
            i <= wkts@.len(),
            ws == strings_view(wkts@),
            r@.map_values(|i: usize| i as int) == non_blank_positions(ws, i as nat),
        decreases wkts@.len() - i,
    {
        let ghost before = r@.map_values(|i: usize| i as int);
        let t = trim(wkts[i].as_str());
        if t.unicode_len() != 0 {
            r.push(i);
            assert(r@.map_values(|i: usize| i as int) =~= before.push(i as int));
        }
        i = i + 1;
    }
    r
}

/// What a batch insert into PostgreSQL sends: one multi-row statement, and the
/// positions of the rows whose values it takes, in order.
pub struct PostgresBatch {
    pub sql: String,
    pub rows: Vec<usize>,
}

/// The statement and rows for inserting a batch into PostgreSQL, given the
/// batch's geometry texts; `None` when no row has a geometry (nothing is sent
/// and nothing is inserted). Each row takes its WKT and SRID, then its field
/// values, as parameters numbered from 1.
pub fn postgres_batch_plan(table_name: &str, field_names: &[String], wkts: &Vec<String>) -> (r: Option<PostgresBatch>)
    requires
        (wkts@.len() as int) * (field_names@.len() + 2) < usize::MAX,
    ensures
        ({
            let rows = non_blank_positions(strings_view(wkts@), wkts@.len());
            &&& r is None <==> rows.len() == 0
            &&& r matches Some(b) ==> {
                &&& b.rows@.map_values(|i: usize| i as int) == rows
                &&& b.sql@ == batch_insert_text(&PostgresDialect, table_name@, strings_view(field_names@), rows.len())
            }
        }),
{
    let rows = non_blank_rows(wkts);
    if rows.len() == 0 {
        return None;
    }
    proof {
        lemma_positions_bounded(strings_view(wkts@), wkts@.len());
        assert(rows@.len() <= wkts@.len());
        assert((rows@.len() as int) * (field_names@.len() + 2) <= (wkts@.len() as int) * (field_names@.len() + 2))
            by (nonlinear_arith)
            requires rows@.len() <= wkts@.len();
    }
    let sql = PostgresDialect.batch_insert_sql(table_name, field_names, rows.len());
    Some(PostgresBatch { sql, rows })
}

/// The test that a geometry text is not blank.
pub open spec fn not_blank() -> spec_fn(Seq<char>) -> bool {
    |w: Seq<char>| !is_blank(w)
}

proof fn lemma_positions_count(ws: Seq<Seq<char>>, k: nat)
    requires
        k <= ws.len(),
    ensures
        non_blank_positions(ws, k).len() == ws.take(k as int).filter(not_blank()).len(),
    decreases k,
{
    if k > 0 {
        lemma_positions_count(ws, (k - 1) as nat);
        let t = ws.take(k as int);
        assert(t.drop_last() =~= ws.take(k - 1));
        assert(t.last() == ws[k - 1]);
        reveal(Seq::filter);
        assert(t.filter(not_blank()) == (if not_blank()(t.last()) {
            t.drop_last().filter(not_blank()).push(t.last())
        } else {
            t.drop_last().filter(not_blank())
        }));
    } else {
        reveal(Seq::filter);
        assert(ws.take(0) =~= Seq::<Seq<char>>::empty());
    }
}

/// A batch statement (PostgreSQL's multi-row INSERT, or Dameng's single-row
/// INSERT run per row) covers exactly the rows whose geometry text is not
/// blank: as many as there are non-blank texts, in their order.
pub proof fn law_batch_rows_are_the_non_blank(ws: Seq<Seq<char>>)
    ensures
        non_blank_positions(ws, ws.len()).len() == ws.filter(not_blank()).len(),
        forall|j: int| 0 <= j < non_blank_positions(ws, ws.len()).len() ==> !is_blank(
            ws[#[trigger] non_blank_positions(ws, ws.len())[j]],
        ),
        forall|a: int, b: int|
            0 <= a < b < non_blank_positions(ws, ws.len()).len() ==> #[trigger] non_blank_positions(ws, ws.len())[a]
                < #[trigger] non_blank_positions(ws, ws.len())[b],
{
    lemma_positions_count(ws, ws.len());
    assert(ws.take(ws.len() as int) =~= ws);
    lemma_positions_order(ws, ws.len());
}

proof fn lemma_positions_order(ws: Seq<Seq<char>>, k: nat)
    ensures
        forall|j: int| 0 <= j < non_blank_positions(ws, k).len() ==> !is_blank(ws[#[trigger] non_blank_positions(ws, k)[j]]),
        forall|a: int, b: int|
            0 <= a < b < non_blank_positions(ws, k).len() ==> #[trigger] non_blank_positions(ws, k)[a]
                < #[trigger] non_blank_positions(ws, k)[b],
    decreases k,
{
    if k > 0 {
        lemma_positions_order(ws, (k - 1) as nat);
        lemma_positions_bounded(ws, (k - 1) as nat);
    }
}

proof fn lemma_positions_bounded(ws: Seq<Seq<char>>, k: nat)
    ensures
        non_blank_positions(ws, k).len() <= k,
        forall|j: int| 0 <= j < non_blank_positions(ws, k).len() ==> 0 <= #[trigger] non_blank_positions(ws, k)[j] < k,
    decreases k,
{
    if k > 0 {
        lemma_positions_bounded(ws, (k - 1) as nat);
    }
}

} // verus!
