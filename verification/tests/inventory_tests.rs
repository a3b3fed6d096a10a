use etl_inventory::EtlError;
use etl_inventory::EtlStage;
use etl_inventory::SubtaskManager;
use etl_inventory::SystemType;

fn sample_files() -> Vec<String> {
    vec![
        "root/bootstrap.sql".to_string(),
        "root/03_load/pg/a.sql".to_string(),
        "root/03_load/b.sql".to_string(),
        "root/01_extract/customers/orders.sql".to_string(),
        "root/01_extract/suppliers/orders.sql".to_string(),
    ]
}

fn sample_manager() -> SubtaskManager {
    SubtaskManager::new("root".to_string(), sample_files()).unwrap()
}

#[test]
fn build_classifies_every_file_in_order() {
    let m = sample_manager();
    assert_eq!(m.base_path, "root");
    let subs = m.subtasks();
    assert_eq!(subs.len(), 5);
    assert_eq!(subs[0].name, "bootstrap");
    assert!(subs[0].is_common);
    assert_eq!(subs[1].stage, Some(EtlStage::Load));
    assert_eq!(subs[1].system_type, Some(SystemType::PostgreSQL));
    assert_eq!(subs[3].entity, Some("customers".to_string()));
    assert_eq!(subs[4].entity, Some("suppliers".to_string()));
}

#[test]
fn build_fails_fast_on_the_first_bad_file() {
    let files = vec![
        "root/03_load/a.sql".to_string(),
        "root/one/two/three/four/bad.sql".to_string(),
        "root/03_load/b.sql".to_string(),
    ];
    let r = SubtaskManager::new("root".to_string(), files);
    assert_eq!(r.unwrap_err(), EtlError::MalformedStructure);

    let files = vec!["root/03_load/a.nope".to_string()];
    let r = SubtaskManager::new("root".to_string(), files);
    assert_eq!(r.unwrap_err(), EtlError::UnknownTaskType);
}

#[test]
fn stage_filter_appends_common_tasks() {
    let m = sample_manager();
    let got = m
        .get_tasks(Some("LOAD".to_string()), None, None, None, None, None)
        .unwrap();
    let names: Vec<&str> = got.iter().map(|s| s.name.as_str()).collect();
    // Load-stage tasks first, in inventory order, then the common task,
    // even though it has no stage at all.
    assert_eq!(names, vec!["a", "b", "bootstrap"]);
}

#[test]
fn include_common_false_returns_only_the_matches() {
    let m = sample_manager();
    let got = m
        .get_tasks(Some("LOAD".to_string()), None, None, None, None, Some(false))
        .unwrap();
    let names: Vec<&str> = got.iter().map(|s| s.name.as_str()).collect();
    assert_eq!(names, vec!["a", "b"]);
}

#[test]
fn a_common_task_already_matching_is_not_appended_twice() {
    let m = sample_manager();
    let got = m
        .get_tasks(None, None, None, None, Some(true), Some(true))
        .unwrap();
    let names: Vec<&str> = got.iter().map(|s| s.name.as_str()).collect();
    assert_eq!(names, vec!["bootstrap"]);
}

#[test]
fn unknown_system_token_fails_the_query() {
    let m = sample_manager();
    let r = m.get_tasks(None, None, Some("not_a_real_db".to_string()), None, None, None);
    assert_eq!(r.unwrap_err(), EtlError::UnknownAlias);
}

#[test]
fn system_filter_resolves_aliases() {
    let m = sample_manager();
    let got = m
        .get_tasks(None, None, Some("PG".to_string()), None, None, Some(false))
        .unwrap();
    let names: Vec<&str> = got.iter().map(|s| s.name.as_str()).collect();
    assert_eq!(names, vec!["a"]);
}

#[test]
fn entity_filter_matches_exactly() {
    let m = sample_manager();
    let got = m
        .get_tasks(None, Some("customers".to_string()), None, None, None, Some(false))
        .unwrap();
    assert_eq!(got.len(), 1);
    assert_eq!(got[0].path, "root/01_extract/customers/orders.sql");
}

#[test]
fn task_type_filter_matches_the_tag() {
    let m = sample_manager();
    let got = m
        .get_tasks(None, None, None, Some("SQL".to_string()), None, Some(false))
        .unwrap();
    assert_eq!(got.len(), 5);
    let got = m
        .get_tasks(None, None, None, Some("SHELL".to_string()), None, Some(false))
        .unwrap();
    assert_eq!(got.len(), 0);
}

#[test]
fn nothing_matching_yields_an_empty_sequence_not_an_error() {
    let m = sample_manager();
    let got = m
        .get_tasks(Some("CLEANUP".to_string()), None, None, None, None, Some(false))
        .unwrap();
    assert!(got.is_empty());
}

#[test]
fn get_task_prefers_the_requested_entity() {
    let m = sample_manager();
    let t = m
        .get_task("orders".to_string(), Some("suppliers".to_string()))
        .unwrap();
    assert_eq!(t.entity, Some("suppliers".to_string()));
    assert_eq!(t.path, "root/01_extract/suppliers/orders.sql");
}

#[test]
fn get_task_without_entity_takes_the_first_in_inventory_order() {
    let m = sample_manager();
    let t = m.get_task("orders".to_string(), None).unwrap();
    assert_eq!(t.entity, Some("customers".to_string()));
    assert_eq!(t.path, "root/01_extract/customers/orders.sql");
}

#[test]
fn get_task_misses_fail_with_not_found() {
    let m = sample_manager();
    let r = m.get_task("no_such_task".to_string(), None);
    assert_eq!(r.unwrap_err(), EtlError::NotFound);
    // An entity request excludes same-named tasks under other entities.
    let r = m.get_task("orders".to_string(), Some("vendors".to_string()));
    assert_eq!(r.unwrap_err(), EtlError::NotFound);
    // An entity request excludes entity-less tasks too.
    let r = m.get_task("bootstrap".to_string(), Some("customers".to_string()));
    assert_eq!(r.unwrap_err(), EtlError::NotFound);
}

#[test]
fn building_twice_from_the_same_tree_is_idempotent() {
    let m1 = SubtaskManager::new("root".to_string(), sample_files()).unwrap();
    let m2 = SubtaskManager::new("root".to_string(), sample_files()).unwrap();
    assert_eq!(m1.base_path, m2.base_path);
    assert_eq!(m1.subtasks(), m2.subtasks());
}
