use etl_inventory::EtlError;
use etl_inventory::EtlStage;
use etl_inventory::SystemType;
use etl_inventory::TaskType;

#[test]
fn stage_aliases_resolve_to_their_stage() {
    let cases: Vec<(&str, EtlStage)> = vec![
        ("00_setup", EtlStage::Setup),
        ("setup", EtlStage::Setup),
        ("s", EtlStage::Setup),
        ("00", EtlStage::Setup),
        ("01_extract", EtlStage::Extract),
        ("extract", EtlStage::Extract),
        ("e", EtlStage::Extract),
        ("01", EtlStage::Extract),
        ("02_transform", EtlStage::Transform),
        ("transform", EtlStage::Transform),
        ("t", EtlStage::Transform),
        ("02", EtlStage::Transform),
        ("03_load", EtlStage::Load),
        ("load", EtlStage::Load),
        ("l", EtlStage::Load),
        ("03", EtlStage::Load),
        ("04_cleanup", EtlStage::Cleanup),
        ("cleanup", EtlStage::Cleanup),
        ("c", EtlStage::Cleanup),
        ("04", EtlStage::Cleanup),
        ("05_post_processing", EtlStage::Postprocessing),
        ("post_processing", EtlStage::Postprocessing),
        ("pp", EtlStage::Postprocessing),
        ("05", EtlStage::Postprocessing),
        ("other", EtlStage::Other),
        ("misc", EtlStage::Other),
        ("unknown", EtlStage::Other),
        ("oth", EtlStage::Other),
    ];
    for (token, expected) in cases {
        assert_eq!(EtlStage::from_folder_name(token), expected, "token {}", token);
        assert_eq!(EtlStage::from_alias(token), Ok(expected), "token {}", token);
    }
}

#[test]
fn stage_aliases_resolve_case_insensitively() {
    assert_eq!(EtlStage::from_folder_name("EXTRACT"), EtlStage::Extract);
    assert_eq!(EtlStage::from_folder_name("Extract"), EtlStage::Extract);
    assert_eq!(EtlStage::from_folder_name("01_EXTRACT"), EtlStage::Extract);
    assert_eq!(EtlStage::from_folder_name("Setup"), EtlStage::Setup);
    assert_eq!(EtlStage::from_folder_name("POST_PROCESSING"), EtlStage::Postprocessing);
    assert_eq!(EtlStage::from_alias("CLEANUP"), Ok(EtlStage::Cleanup));
}

#[test]
fn unrecognized_stage_token_resolves_to_other_leniently() {
    assert_eq!(EtlStage::from_folder_name("warehouse"), EtlStage::Other);
    assert_eq!(EtlStage::from_folder_name(""), EtlStage::Other);
    assert_eq!(EtlStage::from_folder_name("extrac"), EtlStage::Other);
}

#[test]
fn unrecognized_stage_token_fails_strict_resolution() {
    assert_eq!(EtlStage::from_alias("warehouse"), Err(EtlError::UnknownAlias));
    assert_eq!(EtlStage::from_alias(""), Err(EtlError::UnknownAlias));
    // A token explicitly aliased to Other is recognized, not an error.
    assert_eq!(EtlStage::from_alias("misc"), Ok(EtlStage::Other));
}

#[test]
fn stage_introspection() {
    assert_eq!(EtlStage::Load.as_str(), "LOAD");
    assert_eq!(EtlStage::Postprocessing.as_str(), "POSTPROCESSING");
    assert_eq!(EtlStage::Postprocessing.name(), "post_processing");
    assert_eq!(EtlStage::Setup.id(), 0);
    assert_eq!(EtlStage::Extract.id(), 1);
    assert_eq!(EtlStage::Other.id(), 6);
    assert_eq!(EtlStage::Extract.aliases(), vec!["01_extract", "extract", "e", "01"]);
    assert_eq!(EtlStage::Other.aliases(), vec!["other", "misc", "unknown", "oth"]);
}

#[test]
fn system_aliases_resolve_to_their_system() {
    let cases: Vec<(&str, SystemType)> = vec![
        ("clickhouse", SystemType::Clickhouse),
        ("click", SystemType::Clickhouse),
        ("ch", SystemType::Clickhouse),
        ("duckdb", SystemType::Duckdb),
        ("duck", SystemType::Duckdb),
        ("ddb", SystemType::Duckdb),
        ("mysql", SystemType::MySQL),
        ("oracledb", SystemType::OracleDB),
        ("oracle", SystemType::OracleDB),
        ("plsql", SystemType::OracleDB),
        ("pg", SystemType::PostgreSQL),
        ("postgres", SystemType::PostgreSQL),
        ("pg_dwh", SystemType::PostgreSQL),
        ("postgres_db", SystemType::PostgreSQL),
        ("postgresdb", SystemType::PostgreSQL),
        ("sqlite", SystemType::SQLite),
        ("sqlserver", SystemType::SqlServer),
        ("mssql", SystemType::SqlServer),
        ("vertica", SystemType::Vertica),
        ("other", SystemType::Other),
        ("unknown", SystemType::Other),
        ("misc", SystemType::Other),
    ];
    for (token, expected) in cases {
        assert_eq!(SystemType::from_folder_name(token), expected, "token {}", token);
        assert_eq!(SystemType::from_alias(token), Ok(expected), "token {}", token);
    }
}

#[test]
fn system_aliases_resolve_case_insensitively() {
    assert_eq!(SystemType::from_folder_name("PG"), SystemType::PostgreSQL);
    assert_eq!(SystemType::from_folder_name("Pg_Dwh"), SystemType::PostgreSQL);
    assert_eq!(SystemType::from_folder_name("MSSQL"), SystemType::SqlServer);
    assert_eq!(SystemType::from_alias("ClickHouse"), Ok(SystemType::Clickhouse));
}

#[test]
fn unrecognized_system_token_resolves_to_other_leniently() {
    assert_eq!(SystemType::from_folder_name("not_a_real_db"), SystemType::Other);
    assert_eq!(SystemType::from_folder_name(""), SystemType::Other);
}

#[test]
fn unrecognized_system_token_fails_strict_resolution() {
    assert_eq!(SystemType::from_alias("not_a_real_db"), Err(EtlError::UnknownAlias));
    assert_eq!(SystemType::from_alias("postgresql"), Err(EtlError::UnknownAlias));
}

#[test]
fn system_introspection() {
    assert_eq!(SystemType::PostgreSQL.as_str(), "POSTGRESQL");
    assert_eq!(SystemType::PostgreSQL.name(), "postgres");
    assert_eq!(SystemType::Clickhouse.id(), 0);
    assert_eq!(SystemType::PostgreSQL.id(), 4);
    assert_eq!(SystemType::Other.id(), 8);
    assert_eq!(
        SystemType::PostgreSQL.aliases(),
        vec!["pg", "postgres", "pg_dwh", "postgres_db", "postgresdb"]
    );
    assert_eq!(SystemType::Vertica.aliases(), vec!["vertica"]);
}

#[test]
fn extensions_map_to_task_types() {
    let cases: Vec<(&str, TaskType)> = vec![
        ("sql", TaskType::Sql),
        ("psql", TaskType::Sql),
        ("tsql", TaskType::Sql),
        ("plpgsql", TaskType::Sql),
        ("sh", TaskType::Shell),
        ("ps1", TaskType::Powershell),
        ("py", TaskType::Python),
        ("graphql", TaskType::Graphql),
        ("gql", TaskType::Graphql),
        ("json", TaskType::Json),
        ("jsonl", TaskType::Json),
        ("yaml", TaskType::Yaml),
        ("yml", TaskType::Yaml),
        ("exe", TaskType::Unknown),
        ("", TaskType::Unknown),
    ];
    for (ext, expected) in cases {
        assert_eq!(TaskType::from_extension(ext), expected, "extension {}", ext);
    }
}

#[test]
fn extensions_match_case_insensitively() {
    assert_eq!(TaskType::from_extension("SQL"), TaskType::Sql);
    assert_eq!(TaskType::from_extension("Yml"), TaskType::Yaml);
    assert_eq!(TaskType::from_extension("PS1"), TaskType::Powershell);
}

#[test]
fn task_type_tags() {
    assert_eq!(TaskType::Sql.as_str(), "SQL");
    assert_eq!(TaskType::Powershell.as_str(), "POWERSHELL");
    assert_eq!(TaskType::Unknown.as_str(), "UNKNOWN");
}

#[test]
fn error_messages() {
    assert_eq!(EtlError::MalformedStructure.message(), "Incorrect folder structure");
    assert_eq!(EtlError::UnknownTaskType.message(), "Unknown task type");
    assert_eq!(EtlError::UnknownAlias.message(), "Unknown alias");
    assert_eq!(EtlError::NotFound.message(), "Task not found");
}
