use etl_inventory::classify;
use etl_inventory::EtlError;
use etl_inventory::EtlStage;
use etl_inventory::SystemType;
use etl_inventory::TaskType;

#[test]
fn file_directly_under_root_is_common() {
    let sub = classify("root", "root/file.sql").unwrap();
    assert!(sub.is_common);
    assert_eq!(sub.stage, None);
    assert_eq!(sub.system_type, None);
    assert_eq!(sub.entity, None);
    assert_eq!(sub.task_type, Some(TaskType::Sql));
    assert_eq!(sub.name, "file");
    assert_eq!(sub.path, "root/file.sql");
}

#[test]
fn four_segments_fail_as_malformed() {
    let r = classify("root", "root/01_extract/pg/customers/daily/load.sql");
    assert_eq!(r.unwrap_err(), EtlError::MalformedStructure);
}

#[test]
fn three_segments_are_the_deepest_accepted_nesting() {
    let sub = classify("root", "root/01_extract/pg/customers/load.sql").unwrap();
    assert_eq!(sub.stage, Some(EtlStage::Extract));
    assert_eq!(sub.system_type, Some(SystemType::PostgreSQL));
    assert_eq!(sub.entity, Some("customers".to_string()));
}

#[test]
fn stage_and_system_folders_are_inferred() {
    let sub = classify("root", "root/extract/pg_dwh/orders.sql").unwrap();
    assert_eq!(sub.stage, Some(EtlStage::Extract));
    assert_eq!(sub.system_type, Some(SystemType::PostgreSQL));
    assert_eq!(sub.entity, None);
    assert_eq!(sub.task_type, Some(TaskType::Sql));
    assert!(!sub.is_common);
    assert_eq!(sub.name, "orders");
}

#[test]
fn unrecognized_extension_fails() {
    let r = classify("root", "root/extract/customers/orders.unknownext");
    assert_eq!(r.unwrap_err(), EtlError::UnknownTaskType);
}

#[test]
fn file_without_extension_fails() {
    let r = classify("root", "root/extract/orders");
    assert_eq!(r.unwrap_err(), EtlError::UnknownTaskType);
}

#[test]
fn leftover_segment_becomes_the_entity() {
    let sub = classify("root", "root/extract/customers/orders.sql").unwrap();
    assert_eq!(sub.stage, Some(EtlStage::Extract));
    assert_eq!(sub.system_type, None);
    assert_eq!(sub.entity, Some("customers".to_string()));
    assert_eq!(sub.task_type, Some(TaskType::Sql));
}

#[test]
fn entity_case_is_preserved() {
    let sub = classify("root", "root/extract/Customers/orders.sql").unwrap();
    assert_eq!(sub.entity, Some("Customers".to_string()));
}

#[test]
fn two_leftover_segments_fail_as_malformed() {
    let r = classify("root", "root/customers/orders/load.sql");
    assert_eq!(r.unwrap_err(), EtlError::MalformedStructure);
}

#[test]
fn stage_system_and_entity_together() {
    let sub = classify("root", "root/03_load/mysql/customers/load_all.sh").unwrap();
    assert_eq!(sub.stage, Some(EtlStage::Load));
    assert_eq!(sub.system_type, Some(SystemType::MySQL));
    assert_eq!(sub.entity, Some("customers".to_string()));
    assert_eq!(sub.task_type, Some(TaskType::Shell));
    assert_eq!(sub.name, "load_all");
}

#[test]
fn folder_tokens_match_case_insensitively() {
    let sub = classify("root", "root/EXTRACT/PG/orders.sql").unwrap();
    assert_eq!(sub.stage, Some(EtlStage::Extract));
    assert_eq!(sub.system_type, Some(SystemType::PostgreSQL));
}

#[test]
fn absolute_paths_classify_like_relative_ones() {
    let sub = classify("/data/jobs", "/data/jobs/02_transform/duckdb/clean.py").unwrap();
    assert_eq!(sub.stage, Some(EtlStage::Transform));
    assert_eq!(sub.system_type, Some(SystemType::Duckdb));
    assert_eq!(sub.task_type, Some(TaskType::Python));
    assert!(!sub.is_common);
}

#[test]
fn only_the_first_stage_like_segment_sets_the_stage() {
    // The second stage-like folder is not consumed by the stage scan and is
    // no system either, so it becomes the entity.
    let sub = classify("root", "root/extract/load/orders.sql").unwrap();
    assert_eq!(sub.stage, Some(EtlStage::Extract));
    assert_eq!(sub.entity, Some("load".to_string()));
}

#[test]
fn the_last_system_like_segment_wins() {
    let sub = classify("root", "root/pg/ch/orders.sql").unwrap();
    assert_eq!(sub.system_type, Some(SystemType::Clickhouse));
    assert_eq!(sub.entity, None);
}

#[test]
fn other_aliases_consume_nothing() {
    // "misc" resolves to Other for both stage and system, so it stays
    // unconsumed and becomes the entity.
    let sub = classify("root", "root/extract/misc.sql");
    let sub = sub.unwrap();
    assert_eq!(sub.stage, Some(EtlStage::Extract));
    let sub2 = classify("root", "root/extract/misc/orders.sql").unwrap();
    assert_eq!(sub2.entity, Some("misc".to_string()));
    assert_eq!(sub2.system_type, None);
}

#[test]
fn repeated_separators_and_trailing_slash_in_root_are_harmless() {
    let sub = classify("root/", "root//extract//orders.sql").unwrap();
    assert_eq!(sub.stage, Some(EtlStage::Extract));
    assert!(!sub.is_common);
}

#[test]
fn name_keeps_everything_before_the_last_dot() {
    let sub = classify("root", "root/archive.tar.sql").unwrap();
    assert_eq!(sub.name, "archive.tar");
    assert_eq!(sub.task_type, Some(TaskType::Sql));
}
