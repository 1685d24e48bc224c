use spatial_import_tool::database::postgres::{
    connection_string, delete_config, load_active_config, load_config, save_config, test_connection,
};
use spatial_import_tool::models::{DbConfig, DbConfigList, DbType, NamedDbConfig};

fn cfg(host: &str, port: u16) -> DbConfig {
    DbConfig {
        db_type: DbType::PostgreSQL,
        host: host.to_string(),
        port,
        database: "gis".to_string(),
        username: "u".to_string(),
        password: "p".to_string(),
    }
}

fn named(name: &str, host: &str) -> NamedDbConfig {
    NamedDbConfig { name: name.to_string(), config: cfg(host, 5432) }
}

fn names(l: &DbConfigList) -> Vec<String> {
    l.configs.iter().map(|c| c.name.clone()).collect()
}

#[test]
fn save_appends_a_new_name_and_makes_it_active() {
    let l = DbConfigList { configs: vec![named("a", "h1")], active_config: None };
    let l = save_config(l, &cfg("h2", 5433), "b");
    assert_eq!(names(&l), vec!["a", "b"]);
    assert_eq!(l.active_config.as_deref(), Some("b"));
    assert_eq!(l.configs[1].config.host, "h2");
    assert_eq!(l.configs[1].config.port, 5433);
}

#[test]
fn save_replaces_the_first_entry_of_a_name() {
    let l = DbConfigList { configs: vec![named("a", "h1"), named("b", "h2"), named("a", "h3")], active_config: Some("b".into()) };
    let l = save_config(l, &cfg("new", 1), "a");
    assert_eq!(names(&l), vec!["a", "b", "a"]);
    assert_eq!(l.configs[0].config.host, "new");
    assert_eq!(l.configs[2].config.host, "h3");
    assert_eq!(l.active_config.as_deref(), Some("a"));
}

#[test]
fn read_after_write() {
    let l = DbConfigList { configs: vec![named("a", "h1"), named("b", "h2")], active_config: Some("a".into()) };
    let l = save_config(l, &cfg("zz", 99), "b");
    let active = load_active_config(&l).unwrap();
    assert_eq!(active.host, "zz");
    assert_eq!(active.port, 99);
}

#[test]
fn delete_removes_every_entry_of_the_name() {
    let l = DbConfigList { configs: vec![named("a", "h1"), named("b", "h2"), named("a", "h3")], active_config: Some("b".into()) };
    let l = delete_config(l, "a");
    assert_eq!(names(&l), vec!["b"]);
    assert_eq!(l.active_config.as_deref(), Some("b"));
}

#[test]
fn deleting_the_active_entry_activates_the_first_remaining() {
    let l = DbConfigList { configs: vec![named("a", "h1"), named("b", "h2"), named("c", "h3")], active_config: Some("b".into()) };
    let l = delete_config(l, "b");
    assert_eq!(names(&l), vec!["a", "c"]);
    assert_eq!(l.active_config.as_deref(), Some("a"));
    let l = DbConfigList { configs: vec![named("a", "h1")], active_config: Some("a".into()) };
    let l = delete_config(l, "a");
    assert!(l.configs.is_empty());
    assert_eq!(l.active_config, None);
}

#[test]
fn deleting_an_absent_name_changes_nothing() {
    let l = DbConfigList { configs: vec![named("a", "h1")], active_config: Some("x".into()) };
    let l = delete_config(l, "zz");
    assert_eq!(names(&l), vec!["a"]);
    assert_eq!(l.active_config.as_deref(), Some("x"));
}

#[test]
fn active_config_lookup() {
    let l = DbConfigList { configs: vec![named("a", "h1"), named("a", "h2")], active_config: Some("a".into()) };
    assert_eq!(load_active_config(&l).unwrap().host, "h1");
    let l = DbConfigList { configs: vec![named("a", "h1")], active_config: Some("b".into()) };
    assert!(load_active_config(&l).is_none());
    let l = DbConfigList { configs: vec![named("a", "h1")], active_config: None };
    assert!(load_active_config(&l).is_none());
}

#[test]
fn loading_falls_back_to_an_empty_list() {
    let (l, rewrite) = load_config(None);
    assert!(l.configs.is_empty() && l.active_config.is_none() && rewrite);
    let (l, rewrite) = load_config(Some(DbConfigList { configs: vec![named("a", "h")], active_config: None }));
    assert_eq!(names(&l), vec!["a"]);
    assert!(!rewrite);
}

#[test]
fn postgres_connection_string() {
    assert_eq!(connection_string(&cfg("localhost", 5432)), "host=localhost port=5432 dbname=gis user=u password=p");
}

#[test]
fn postgres_connection_test_report() {
    let r = test_connection(Ok(Some("PostgreSQL 16".into())));
    assert!(r.success);
    assert_eq!(r.message, "连接成功");
    assert_eq!(r.server_version.as_deref(), Some("PostgreSQL 16"));
    let r = test_connection(Ok(None));
    assert_eq!(r.server_version.as_deref(), Some("Unknown"));
    let r = test_connection(Err("refused".into()));
    assert!(!r.success);
    assert_eq!(r.message, "refused");
    assert!(r.server_version.is_none());
}

#[test]
fn saving_twice_is_saving_once() {
    let l = DbConfigList { configs: vec![named("a", "h1"), named("b", "h2")], active_config: Some("a".into()) };
    let once = save_config(l.clone(), &cfg("h9", 7), "b");
    let twice = save_config(once.clone(), &cfg("h9", 7), "b");
    assert_eq!(names(&once), names(&twice));
    assert_eq!(twice.configs[1].config.host, "h9");
    assert_eq!(once.active_config, twice.active_config);
    let fresh = save_config(l, &cfg("h5", 5), "c");
    let again = save_config(fresh.clone(), &cfg("h5", 5), "c");
    assert_eq!(names(&fresh), vec!["a", "b", "c"]);
    assert_eq!(names(&again), vec!["a", "b", "c"]);
}

#[test]
fn delete_undoes_save() {
    let l = DbConfigList { configs: vec![named("a", "h1"), named("b", "h2"), named("a", "h3")], active_config: None };
    let saved = save_config(l.clone(), &cfg("x", 1), "a");
    let deleted = delete_config(saved, "a");
    assert_eq!(names(&deleted), vec!["b"]);
    let saved_new = save_config(l, &cfg("x", 1), "c");
    let deleted_new = delete_config(saved_new, "c");
    assert_eq!(names(&deleted_new), vec!["a", "b", "a"]);
}
