//! The taxonomy registry: pipeline stages, database system types and task
//! types, each with canonical names, numeric ids and case-insensitive alias
//! tables.

use vstd::prelude::*;

use crate::errors::EtlError;
use crate::strutil::tokens_match;
use crate::strutil::matches_token;

verus! {

/// The pipeline phase a task belongs to.
#[derive(Clone, Copy, Debug, PartialEq, Eq, Hash, Structural)]
pub enum EtlStage {
    Setup,
    Extract,
    Transform,
    Load,
    Cleanup,
    Postprocessing,
    Other,
}

impl EtlStage {
    /// The uppercase tag of the stage.
    pub open spec fn spec_str(self) -> Seq<char> {
        match self {
            EtlStage::Setup => "SETUP"@,
            EtlStage::Extract => "EXTRACT"@,
            EtlStage::Transform => "TRANSFORM"@,
            EtlStage::Load => "LOAD"@,
            EtlStage::Cleanup => "CLEANUP"@,
            EtlStage::Postprocessing => "POSTPROCESSING"@,
            EtlStage::Other => "OTHER"@,
        }
    }

    /// The canonical lowercase name of the stage.
    pub open spec fn spec_name(self) -> Seq<char> {
        match self {
            EtlStage::Setup => "setup"@,
            EtlStage::Extract => "extract"@,
            EtlStage::Transform => "transform"@,
            EtlStage::Load => "load"@,
            EtlStage::Cleanup => "cleanup"@,
            EtlStage::Postprocessing => "post_processing"@,
            EtlStage::Other => "other"@,
        }
    }

    /// The numeric id of the stage.
    pub open spec fn spec_id(self) -> u8 {
        match self {
            EtlStage::Setup => 0,
            EtlStage::Extract => 1,
            EtlStage::Transform => 2,
            EtlStage::Load => 3,
            EtlStage::Cleanup => 4,
            EtlStage::Postprocessing => 5,
            EtlStage::Other => 6,
        }
    }

    /// The alias table of the stage. Canonical names appear in their own
    /// alias lists, so a canonical name is always a valid alias.
    pub open spec fn spec_aliases(self) -> Seq<Seq<char>> {
        match self {
            EtlStage::Setup => seq!["00_setup"@, "setup"@, "s"@, "00"@],
            EtlStage::Extract => seq!["01_extract"@, "extract"@, "e"@, "01"@],
            EtlStage::Transform => seq!["02_transform"@, "transform"@, "t"@, "02"@],
            EtlStage::Load => seq!["03_load"@, "load"@, "l"@, "03"@],
            EtlStage::Cleanup => seq!["04_cleanup"@, "cleanup"@, "c"@, "04"@],
            EtlStage::Postprocessing => seq![
                "05_post_processing"@,
                "post_processing"@,
                "pp"@,
                "05"@,
            ],
            EtlStage::Other => seq!["other"@, "misc"@, "unknown"@, "oth"@],
        }
    }

    /// Whether `t` matches one of this stage's aliases, case-insensitively.
    pub open spec fn spec_matches(t: Seq<char>, v: EtlStage) -> bool {
        match v {
            EtlStage::Setup => tokens_match(t, "00_setup"@) || tokens_match(t, "setup"@)
                || tokens_match(t, "s"@) || tokens_match(t, "00"@),
            EtlStage::Extract => tokens_match(t, "01_extract"@) || tokens_match(t, "extract"@)
                || tokens_match(t, "e"@) || tokens_match(t, "01"@),
            EtlStage::Transform => tokens_match(t, "02_transform"@) || tokens_match(
                t,
                "transform"@,
            ) || tokens_match(t, "t"@) || tokens_match(t, "02"@),
            EtlStage::Load => tokens_match(t, "03_load"@) || tokens_match(t, "load"@)
                || tokens_match(t, "l"@) || tokens_match(t, "03"@),
            EtlStage::Cleanup => tokens_match(t, "04_cleanup"@) || tokens_match(t, "cleanup"@)
                || tokens_match(t, "c"@) || tokens_match(t, "04"@),
            EtlStage::Postprocessing => tokens_match(t, "05_post_processing"@) || tokens_match(
                t,
                "post_processing"@,
            ) || tokens_match(t, "pp"@) || tokens_match(t, "05"@),
            EtlStage::Other => tokens_match(t, "other"@) || tokens_match(t, "misc"@)
                || tokens_match(t, "unknown"@) || tokens_match(t, "oth"@),
        }
    }

    /// Strict resolution: the stage whose alias table recognizes `t`, or
    /// nothing when no table does. Alias tables are scanned in declaration
    /// order; they are pairwise disjoint, so the order carries no weight.
    pub open spec fn spec_lookup(t: Seq<char>) -> Option<EtlStage> {
        if Self::spec_matches(t, EtlStage::Setup) {
            Some(EtlStage::Setup)
        } else if Self::spec_matches(t, EtlStage::Extract) {
            Some(EtlStage::Extract)
        } else if Self::spec_matches(t, EtlStage::Transform) {
            Some(EtlStage::Transform)
        } else if Self::spec_matches(t, EtlStage::Load) {
            Some(EtlStage::Load)
        } else if Self::spec_matches(t, EtlStage::Cleanup) {
            Some(EtlStage::Cleanup)
        } else if Self::spec_matches(t, EtlStage::Postprocessing) {
            Some(EtlStage::Postprocessing)
        } else if Self::spec_matches(t, EtlStage::Other) {
            Some(EtlStage::Other)
        } else {
            None
        }
    }

    /// Lenient resolution: as `spec_lookup`, with `Other` as the fallback for
    /// unrecognized tokens.
    pub open spec fn spec_resolve(t: Seq<char>) -> EtlStage {
        match Self::spec_lookup(t) {
            Some(v) => v,
            None => EtlStage::Other,
        }
    }

    /// The uppercase tag of the stage.
    pub fn as_str(&self) -> (r: &'static str)
        ensures
            r@ == self.spec_str(),
    {
        match self {
            EtlStage::Setup => "SETUP",
            EtlStage::Extract => "EXTRACT",
            EtlStage::Transform => "TRANSFORM",
            EtlStage::Load => "LOAD",
            EtlStage::Cleanup => "CLEANUP",
            EtlStage::Postprocessing => "POSTPROCESSING",
            EtlStage::Other => "OTHER",
        }
    }

    /// The canonical lowercase name of the stage.
    pub fn name(&self) -> (r: &'static str)
        ensures
            r@ == self.spec_name(),
    {
        match self {
            EtlStage::Setup => "setup",
            EtlStage::Extract => "extract",
            EtlStage::Transform => "transform",
            EtlStage::Load => "load",
            EtlStage::Cleanup => "cleanup",
            EtlStage::Postprocessing => "post_processing",
            EtlStage::Other => "other",
        }
    }

    /// The numeric id of the stage.
    pub fn id(&self) -> (r: u8)
        ensures
            r == self.spec_id(),
    {
        match self {
            EtlStage::Setup => 0,
            EtlStage::Extract => 1,
            EtlStage::Transform => 2,
            EtlStage::Load => 3,
            EtlStage::Cleanup => 4,
            EtlStage::Postprocessing => 5,
            EtlStage::Other => 6,
        }
    }

    /// The alias table of the stage.
    pub fn aliases(&self) -> (r: Vec<&'static str>)
        ensures
            r.deep_view() == self.spec_aliases(),
    {
        let r: Vec<&'static str> = match self {
            EtlStage::Setup => vec!["00_setup", "setup", "s", "00"],
            EtlStage::Extract => vec!["01_extract", "extract", "e", "01"],
            EtlStage::Transform => vec!["02_transform", "transform", "t", "02"],
            EtlStage::Load => vec!["03_load", "load", "l", "03"],
            EtlStage::Cleanup => vec!["04_cleanup", "cleanup", "c", "04"],
            EtlStage::Postprocessing => vec![
                "05_post_processing",
                "post_processing",
                "pp",
                "05",
            ],
            EtlStage::Other => vec!["other", "misc", "unknown", "oth"],
        };
        proof {
            assert(r.deep_view() =~= self.spec_aliases());
        }
        r
    }

    /// Decides whether `token` matches one of `v`'s aliases.
    fn matches_stage(token: &str, v: EtlStage) -> (r: bool)
        ensures
            r == Self::spec_matches(token@, v),
    {
        match v {
            EtlStage::Setup => matches_token(token, "00_setup") || matches_token(token, "setup")
                || matches_token(token, "s") || matches_token(token, "00"),
            EtlStage::Extract => matches_token(token, "01_extract") || matches_token(
                token,
                "extract",
            ) || matches_token(token, "e") || matches_token(token, "01"),
            EtlStage::Transform => matches_token(token, "02_transform") || matches_token(
                token,
                "transform",
            ) || matches_token(token, "t") || matches_token(token, "02"),
            EtlStage::Load => matches_token(token, "03_load") || matches_token(token, "load")
                || matches_token(token, "l") || matches_token(token, "03"),
            EtlStage::Cleanup => matches_token(token, "04_cleanup") || matches_token(
                token,
                "cleanup",
            ) || matches_token(token, "c") || matches_token(token, "04"),
            EtlStage::Postprocessing => matches_token(token, "05_post_processing")
                || matches_token(token, "post_processing") || matches_token(token, "pp")
                || matches_token(token, "05"),
            EtlStage::Other => matches_token(token, "other") || matches_token(token, "misc")
                || matches_token(token, "unknown") || matches_token(token, "oth"),
        }
    }

    /// Strict resolution of an alias token: fails with `UnknownAlias` when no
    /// stage recognizes it. A token explicitly aliased to `Other` (such as
    /// "misc") resolves to `Other` here rather than failing.
    pub fn from_alias(token: &str) -> (r: Result<EtlStage, EtlError>)
        ensures
            match Self::spec_lookup(token@) {
                Some(v) => r == Ok::<EtlStage, EtlError>(v),
                None => r == Err::<EtlStage, EtlError>(EtlError::UnknownAlias),
            },
    {
        if Self::matches_stage(token, EtlStage::Setup) {
            Ok(EtlStage::Setup)
        } else if Self::matches_stage(token, EtlStage::Extract) {
            Ok(EtlStage::Extract)
        } else if Self::matches_stage(token, EtlStage::Transform) {
            Ok(EtlStage::Transform)
        } else if Self::matches_stage(token, EtlStage::Load) {
            Ok(EtlStage::Load)
        } else if Self::matches_stage(token, EtlStage::Cleanup) {
            Ok(EtlStage::Cleanup)
        } else if Self::matches_stage(token, EtlStage::Postprocessing) {
            Ok(EtlStage::Postprocessing)
        } else if Self::matches_stage(token, EtlStage::Other) {
            Ok(EtlStage::Other)
        } else {
            Err(EtlError::UnknownAlias)
        }
    }

    /// Lenient resolution of a folder-name token: `Other` when no stage
    /// recognizes it.
    pub fn from_folder_name(folder_name: &str) -> (r: EtlStage)
        ensures
            r == Self::spec_resolve(folder_name@),
    {
        match Self::from_alias(folder_name) {
            Ok(v) => v,
            Err(_) => EtlStage::Other,
        }
    }
}

/// The target database system a task is written for.
#[derive(Clone, Copy, Debug, PartialEq, Eq, Hash, Structural)]
pub enum SystemType {
    Clickhouse,
    Duckdb,
    MySQL,
    OracleDB,
    PostgreSQL,
    SQLite,
    SqlServer,
    Vertica,
    Other,
}

impl SystemType {
    /// The uppercase tag of the system type.
    pub open spec fn spec_str(self) -> Seq<char> {
        match self {
            SystemType::Clickhouse => "CLICKHOUSE"@,
            SystemType::Duckdb => "DUCKDB"@,
            SystemType::MySQL => "MYSQL"@,
            SystemType::OracleDB => "ORACLEDB"@,
            SystemType::PostgreSQL => "POSTGRESQL"@,
            SystemType::SQLite => "SQLITE"@,
            SystemType::SqlServer => "SQLSERVER"@,
            SystemType::Vertica => "VERTICA"@,
            SystemType::Other => "OTHER"@,
        }
    }

    /// The canonical lowercase name of the system type.
    pub open spec fn spec_name(self) -> Seq<char> {
        match self {
            SystemType::Clickhouse => "clickhouse"@,
            SystemType::Duckdb => "duckdb"@,
            SystemType::MySQL => "mysql"@,
            SystemType::OracleDB => "oracle"@,
            SystemType::PostgreSQL => "postgres"@,
            SystemType::SQLite => "sqlite"@,
            SystemType::SqlServer => "sqlserver"@,
            SystemType::Vertica => "vertica"@,
            SystemType::Other => "other"@,
        }
    }

    /// The numeric id of the system type.
    pub open spec fn spec_id(self) -> u8 {
        match self {
            SystemType::Clickhouse => 0,
            SystemType::Duckdb => 1,
            SystemType::MySQL => 2,
            SystemType::OracleDB => 3,
            SystemType::PostgreSQL => 4,
            SystemType::SQLite => 5,
            SystemType::SqlServer => 6,
            SystemType::Vertica => 7,
            SystemType::Other => 8,
        }
    }

    /// The alias table of the system type.
    pub open spec fn spec_aliases(self) -> Seq<Seq<char>> {
        match self {
            SystemType::Clickhouse => seq!["clickhouse"@, "click"@, "ch"@],
            SystemType::Duckdb => seq!["duckdb"@, "duck"@, "ddb"@],
            SystemType::MySQL => seq!["mysql"@],
            SystemType::OracleDB => seq!["oracledb"@, "oracle"@, "plsql"@],
            SystemType::PostgreSQL => seq![
                "pg"@,
                "postgres"@,
                "pg_dwh"@,
                "postgres_db"@,
                "postgresdb"@,
            ],
            SystemType::SQLite => seq!["sqlite"@],
            SystemType::SqlServer => seq!["sqlserver"@, "mssql"@],
            SystemType::Vertica => seq!["vertica"@],
            SystemType::Other => seq!["other"@, "unknown"@, "misc"@],
        }
    }

    /// Whether `t` matches one of this system type's aliases,
    /// case-insensitively.
    pub open spec fn spec_matches(t: Seq<char>, v: SystemType) -> bool {
        match v {
            SystemType::Clickhouse => tokens_match(t, "clickhouse"@) || tokens_match(t, "click"@)
                || tokens_match(t, "ch"@),
            SystemType::Duckdb => tokens_match(t, "duckdb"@) || tokens_match(t, "duck"@)
                || tokens_match(t, "ddb"@),
            SystemType::MySQL => tokens_match(t, "mysql"@),
            SystemType::OracleDB => tokens_match(t, "oracledb"@) || tokens_match(t, "oracle"@)
                || tokens_match(t, "plsql"@),
            SystemType::PostgreSQL => tokens_match(t, "pg"@) || tokens_match(t, "postgres"@)
                || tokens_match(t, "pg_dwh"@) || tokens_match(t, "postgres_db"@) || tokens_match(
                t,
                "postgresdb"@,
            ),
            SystemType::SQLite => tokens_match(t, "sqlite"@),
            SystemType::SqlServer => tokens_match(t, "sqlserver"@) || tokens_match(t, "mssql"@),
            SystemType::Vertica => tokens_match(t, "vertica"@),
            SystemType::Other => tokens_match(t, "other"@) || tokens_match(t, "unknown"@)
                || tokens_match(t, "misc"@),
        }
    }

    /// Strict resolution: the system type whose alias table recognizes `t`,
    /// or nothing when no table does.
    pub open spec fn spec_lookup(t: Seq<char>) -> Option<SystemType> {
        if Self::spec_matches(t, SystemType::Clickhouse) {
            Some(SystemType::Clickhouse)
        } else if Self::spec_matches(t, SystemType::Duckdb) {
            Some(SystemType::Duckdb)
        } else if Self::spec_matches(t, SystemType::MySQL) {
            Some(SystemType::MySQL)
        } else if Self::spec_matches(t, SystemType::OracleDB) {
            Some(SystemType::OracleDB)
        } else if Self::spec_matches(t, SystemType::PostgreSQL) {
            Some(SystemType::PostgreSQL)
        } else if Self::spec_matches(t, SystemType::SQLite) {
            Some(SystemType::SQLite)
        } else if Self::spec_matches(t, SystemType::SqlServer) {
            Some(SystemType::SqlServer)
        } else if Self::spec_matches(t, SystemType::Vertica) {
            Some(SystemType::Vertica)
        } else if Self::spec_matches(t, SystemType::Other) {
            Some(SystemType::Other)
        } else {
            None
        }
    }

    /// Lenient resolution: as `spec_lookup`, with `Other` as the fallback.
    pub open spec fn spec_resolve(t: Seq<char>) -> SystemType {
        match Self::spec_lookup(t) {
            Some(v) => v,
            None => SystemType::Other,
        }
    }

    /// The uppercase tag of the system type.
    pub fn as_str(&self) -> (r: &'static str)
        ensures
            r@ == self.spec_str(),
    {
        match self {
            SystemType::Clickhouse => "CLICKHOUSE",
            SystemType::Duckdb => "DUCKDB",
            SystemType::MySQL => "MYSQL",
            SystemType::OracleDB => "ORACLEDB",
            SystemType::PostgreSQL => "POSTGRESQL",
            SystemType::SQLite => "SQLITE",
            SystemType::SqlServer => "SQLSERVER",
            SystemType::Vertica => "VERTICA",
            SystemType::Other => "OTHER",
        }
    }

    /// The canonical lowercase name of the system type.
    pub fn name(&self) -> (r: &'static str)
        ensures
            r@ == self.spec_name(),
    {
        match self {
            SystemType::Clickhouse => "clickhouse",
            SystemType::Duckdb => "duckdb",
            SystemType::MySQL => "mysql",
            SystemType::OracleDB => "oracle",
            SystemType::PostgreSQL => "postgres",
            SystemType::SQLite => "sqlite",
            SystemType::SqlServer => "sqlserver",
            SystemType::Vertica => "vertica",
            SystemType::Other => "other",
        }
    }

    /// The numeric id of the system type.
    pub fn id(&self) -> (r: u8)
        ensures
            r == self.spec_id(),
    {
        match self {
            SystemType::Clickhouse => 0,
            SystemType::Duckdb => 1,
            SystemType::MySQL => 2,
            SystemType::OracleDB => 3,
            SystemType::PostgreSQL => 4,
            SystemType::SQLite => 5,
            SystemType::SqlServer => 6,
            SystemType::Vertica => 7,
            SystemType::Other => 8,
        }
    }

    /// The alias table of the system type.
    pub fn aliases(&self) -> (r: Vec<&'static str>)
        ensures
            r.deep_view() == self.spec_aliases(),
    {
        let r: Vec<&'static str> = match self {
            SystemType::Clickhouse => vec!["clickhouse", "click", "ch"],
            SystemType::Duckdb => vec!["duckdb", "duck", "ddb"],
            SystemType::MySQL => vec!["mysql"],
            SystemType::OracleDB => vec!["oracledb", "oracle", "plsql"],
            SystemType::PostgreSQL => vec![
                "pg",
                "postgres",
                "pg_dwh",
                "postgres_db",
                "postgresdb",
            ],
            SystemType::SQLite => vec!["sqlite"],
            SystemType::SqlServer => vec!["sqlserver", "mssql"],
            SystemType::Vertica => vec!["vertica"],
            SystemType::Other => vec!["other", "unknown", "misc"],
        };
        proof {
            assert(r.deep_view() =~= self.spec_aliases());
        }
        r
    }

    /// Decides whether `token` matches one of `v`'s aliases.
    fn matches_system(token: &str, v: SystemType) -> (r: bool)
        ensures
            r == Self::spec_matches(token@, v),
    {
        match v {
            SystemType::Clickhouse => matches_token(token, "clickhouse") || matches_token(
                token,
                "click",
            ) || matches_token(token, "ch"),
            SystemType::Duckdb => matches_token(token, "duckdb") || matches_token(token, "duck")
                || matches_token(token, "ddb"),
            SystemType::MySQL => matches_token(token, "mysql"),
            SystemType::OracleDB => matches_token(token, "oracledb") || matches_token(
                token,
                "oracle",
            ) || matches_token(token, "plsql"),
            SystemType::PostgreSQL => matches_token(token, "pg") || matches_token(
                token,
                "postgres",
            ) || matches_token(token, "pg_dwh") || matches_token(token, "postgres_db")
                || matches_token(token, "postgresdb"),
            SystemType::SQLite => matches_token(token, "sqlite"),
            SystemType::SqlServer => matches_token(token, "sqlserver") || matches_token(
                token,
                "mssql",
            ),
            SystemType::Vertica => matches_token(token, "vertica"),
            SystemType::Other => matches_token(token, "other") || matches_token(token, "unknown")
                || matches_token(token, "misc"),
        }
    }

    /// Strict resolution of an alias token: fails with `UnknownAlias` when no
    /// system type recognizes it.
    pub fn from_alias(token: &str) -> (r: Result<SystemType, EtlError>)
        ensures
            match Self::spec_lookup(token@) {
                Some(v) => r == Ok::<SystemType, EtlError>(v),
                None => r == Err::<SystemType, EtlError>(EtlError::UnknownAlias),
            },
    {
        if Self::matches_system(token, SystemType::Clickhouse) {
            Ok(SystemType::Clickhouse)
        } else if Self::matches_system(token, SystemType::Duckdb) {
            Ok(SystemType::Duckdb)
        } else if Self::matches_system(token, SystemType::MySQL) {
            Ok(SystemType::MySQL)
        } else if Self::matches_system(token, SystemType::OracleDB) {
            Ok(SystemType::OracleDB)
        } else if Self::matches_system(token, SystemType::PostgreSQL) {
            Ok(SystemType::PostgreSQL)
        } else if Self::matches_system(token, SystemType::SQLite) {
            Ok(SystemType::SQLite)
        } else if Self::matches_system(token, SystemType::SqlServer) {
            Ok(SystemType::SqlServer)
        } else if Self::matches_system(token, SystemType::Vertica) {
            Ok(SystemType::Vertica)
        } else if Self::matches_system(token, SystemType::Other) {
            Ok(SystemType::Other)
        } else {
            Err(EtlError::UnknownAlias)
        }
    }

    /// Lenient resolution of a folder-name token: `Other` when no system
    /// type recognizes it.
    pub fn from_folder_name(folder_name: &str) -> (r: SystemType)
        ensures
            r == Self::spec_resolve(folder_name@),
    {
        match Self::from_alias(folder_name) {
            Ok(v) => v,
            Err(_) => SystemType::Other,
        }
    }
}

/// The kind of script a task file holds, keyed by file extension alone.
#[derive(Clone, Copy, Debug, PartialEq, Eq, Hash, Structural)]
pub enum TaskType {
    Sql,
    Shell,
    Powershell,
    Python,
    Graphql,
    Json,
    Yaml,
    Unknown,
}

impl TaskType {
    /// The uppercase tag of the task type.
    pub open spec fn spec_str(self) -> Seq<char> {
        match self {
            TaskType::Sql => "SQL"@,
            TaskType::Shell => "SHELL"@,
            TaskType::Powershell => "POWERSHELL"@,
            TaskType::Python => "PYTHON"@,
            TaskType::Graphql => "GRAPHQL"@,
            TaskType::Json => "JSON"@,
            TaskType::Yaml => "YAML"@,
            TaskType::Unknown => "UNKNOWN"@,
        }
    }

    /// The task type an extension token denotes, matched case-insensitively;
    /// `Unknown` for any extension outside the recognized set.
    pub open spec fn spec_from_extension(ext: Seq<char>) -> TaskType {
        if tokens_match(ext, "sql"@) || tokens_match(ext, "psql"@) || tokens_match(ext, "tsql"@)
            || tokens_match(ext, "plpgsql"@) {
            TaskType::Sql
        } else if tokens_match(ext, "sh"@) {
            TaskType::Shell
        } else if tokens_match(ext, "ps1"@) {
            TaskType::Powershell
        } else if tokens_match(ext, "py"@) {
            TaskType::Python
        } else if tokens_match(ext, "graphql"@) || tokens_match(ext, "gql"@) {
            TaskType::Graphql
        } else if tokens_match(ext, "json"@) || tokens_match(ext, "jsonl"@) {
            TaskType::Json
        } else if tokens_match(ext, "yaml"@) || tokens_match(ext, "yml"@) {
            TaskType::Yaml
        } else {
            TaskType::Unknown
        }
    }

    /// The uppercase tag of the task type.
    pub fn as_str(&self) -> (r: &'static str)
        ensures
            r@ == self.spec_str(),
    {
        match self {
            TaskType::Sql => "SQL",
            TaskType::Shell => "SHELL",
            TaskType::Powershell => "POWERSHELL",
            TaskType::Python => "PYTHON",
            TaskType::Graphql => "GRAPHQL",
            TaskType::Json => "JSON",
            TaskType::Yaml => "YAML",
            TaskType::Unknown => "UNKNOWN",
        }
    }

    /// The task type for a file extension (without its leading dot).
    pub fn from_extension(ext: &str) -> (r: TaskType)
        ensures
            r == Self::spec_from_extension(ext@),
    {
        if matches_token(ext, "sql") || matches_token(ext, "psql") || matches_token(ext, "tsql")
            || matches_token(ext, "plpgsql") {
            TaskType::Sql
        } else if matches_token(ext, "sh") {
            TaskType::Shell
        } else if matches_token(ext, "ps1") {
            TaskType::Powershell
        } else if matches_token(ext, "py") {
            TaskType::Python
        } else if matches_token(ext, "graphql") || matches_token(ext, "gql") {
            TaskType::Graphql
        } else if matches_token(ext, "json") || matches_token(ext, "jsonl") {
            TaskType::Json
        } else if matches_token(ext, "yaml") || matches_token(ext, "yml") {
            TaskType::Yaml
        } else {
            TaskType::Unknown
        }
    }
}

} // verus!
