//! Laws of the taxonomy and of inventory construction, proved once and for
//! all tokens: recognized aliases resolve to the variant that owns them,
//! unrecognized tokens fall back to `Other`, and building an inventory is a
//! deterministic function of the root and the discovered files.

use vstd::prelude::*;

use crate::inventory::spec_build;
use crate::strutil::fold_u;
use crate::strutil::tokens_match;
use crate::taxonomy::EtlStage;
use crate::taxonomy::SystemType;

verus! {

/// A token that matches `a` cannot match `b` when `b` has another length or
/// another case-folded character at position `k`.
proof fn lemma_match_excludes(t: Seq<char>, a: Seq<char>, b: Seq<char>, k: int)
    requires
        tokens_match(t, a),
        a.len() == b.len() ==> 0 <= k < a.len() && fold_u(a[k]) != fold_u(b[k]),
    ensures
        !tokens_match(t, b),
{
    if a.len() == b.len() {
        assert(fold_u(t[k]) == fold_u(a[k]));
        if tokens_match(t, b) {
            assert(fold_u(t[k]) == fold_u(b[k]));
            assert(false);
        }
    } else {
        if tokens_match(t, b) {
            assert(false);
        }
    }
}

/// Law: every token recognized by a stage's alias table, case-insensitively,
/// resolves to that stage — the alias tables of the stages are pairwise
/// disjoint after case folding, so no other stage can claim it.
pub proof fn lemma_stage_alias_resolves(t: Seq<char>, v: EtlStage)
    requires
        EtlStage::spec_matches(t, v),
    ensures
        EtlStage::spec_lookup(t) == Some(v),
        EtlStage::spec_resolve(t) == v,
{
    reveal_strlit("00_setup");
    reveal_strlit("setup");
    reveal_strlit("s");
    reveal_strlit("00");
    reveal_strlit("01_extract");
    reveal_strlit("extract");
    reveal_strlit("e");
    reveal_strlit("01");
    reveal_strlit("02_transform");
    reveal_strlit("transform");
    reveal_strlit("t");
    reveal_strlit("02");
    reveal_strlit("03_load");
    reveal_strlit("load");
    reveal_strlit("l");
    reveal_strlit("03");
    reveal_strlit("04_cleanup");
    reveal_strlit("cleanup");
    reveal_strlit("c");
    reveal_strlit("04");
    reveal_strlit("05_post_processing");
    reveal_strlit("post_processing");
    reveal_strlit("pp");
    reveal_strlit("05");
    reveal_strlit("other");
    reveal_strlit("misc");
    reveal_strlit("unknown");
    reveal_strlit("oth");
    match v {
        EtlStage::Setup => {
        },
        EtlStage::Extract => {
            if tokens_match(t, "e"@) {
                lemma_match_excludes(t, "e"@, "s"@, 0);
            } else if tokens_match(t, "01"@) {
                lemma_match_excludes(t, "01"@, "00"@, 1);
            }
            assert(!EtlStage::spec_matches(t, EtlStage::Setup));
        },
        EtlStage::Transform => {
            if tokens_match(t, "t"@) {
                lemma_match_excludes(t, "t"@, "s"@, 0);
                lemma_match_excludes(t, "t"@, "e"@, 0);
            } else if tokens_match(t, "02"@) {
                lemma_match_excludes(t, "02"@, "00"@, 1);
                lemma_match_excludes(t, "02"@, "01"@, 1);
            }
            assert(!EtlStage::spec_matches(t, EtlStage::Setup));
            assert(!EtlStage::spec_matches(t, EtlStage::Extract));
        },
        EtlStage::Load => {
            if tokens_match(t, "03_load"@) {
                lemma_match_excludes(t, "03_load"@, "extract"@, 0);
            } else if tokens_match(t, "l"@) {
                lemma_match_excludes(t, "l"@, "s"@, 0);
                lemma_match_excludes(t, "l"@, "e"@, 0);
                lemma_match_excludes(t, "l"@, "t"@, 0);
            } else if tokens_match(t, "03"@) {
                lemma_match_excludes(t, "03"@, "00"@, 1);
                lemma_match_excludes(t, "03"@, "01"@, 1);
                lemma_match_excludes(t, "03"@, "02"@, 1);
            }
            assert(!EtlStage::spec_matches(t, EtlStage::Setup));
            assert(!EtlStage::spec_matches(t, EtlStage::Extract));
            assert(!EtlStage::spec_matches(t, EtlStage::Transform));
        },
        EtlStage::Cleanup => {
            if tokens_match(t, "04_cleanup"@) {
                lemma_match_excludes(t, "04_cleanup"@, "01_extract"@, 1);
            } else if tokens_match(t, "cleanup"@) {
                lemma_match_excludes(t, "cleanup"@, "extract"@, 0);
                lemma_match_excludes(t, "cleanup"@, "03_load"@, 0);
            } else if tokens_match(t, "c"@) {
                lemma_match_excludes(t, "c"@, "s"@, 0);
                lemma_match_excludes(t, "c"@, "e"@, 0);
                lemma_match_excludes(t, "c"@, "t"@, 0);
                lemma_match_excludes(t, "c"@, "l"@, 0);
            } else if tokens_match(t, "04"@) {
                lemma_match_excludes(t, "04"@, "00"@, 1);
                lemma_match_excludes(t, "04"@, "01"@, 1);
                lemma_match_excludes(t, "04"@, "02"@, 1);
                lemma_match_excludes(t, "04"@, "03"@, 1);
            }
            assert(!EtlStage::spec_matches(t, EtlStage::Setup));
            assert(!EtlStage::spec_matches(t, EtlStage::Extract));
            assert(!EtlStage::spec_matches(t, EtlStage::Transform));
            assert(!EtlStage::spec_matches(t, EtlStage::Load));
        },
        EtlStage::Postprocessing => {
            if tokens_match(t, "pp"@) {
                lemma_match_excludes(t, "pp"@, "00"@, 0);
                lemma_match_excludes(t, "pp"@, "01"@, 0);
                lemma_match_excludes(t, "pp"@, "02"@, 0);
                lemma_match_excludes(t, "pp"@, "03"@, 0);
                lemma_match_excludes(t, "pp"@, "04"@, 0);
            } else if tokens_match(t, "05"@) {
                lemma_match_excludes(t, "05"@, "00"@, 1);
                lemma_match_excludes(t, "05"@, "01"@, 1);
                lemma_match_excludes(t, "05"@, "02"@, 1);
                lemma_match_excludes(t, "05"@, "03"@, 1);
                lemma_match_excludes(t, "05"@, "04"@, 1);
            }
            assert(!EtlStage::spec_matches(t, EtlStage::Setup));
            assert(!EtlStage::spec_matches(t, EtlStage::Extract));
            assert(!EtlStage::spec_matches(t, EtlStage::Transform));
            assert(!EtlStage::spec_matches(t, EtlStage::Load));
            assert(!EtlStage::spec_matches(t, EtlStage::Cleanup));
        },
        EtlStage::Other => {
            if tokens_match(t, "other"@) {
                lemma_match_excludes(t, "other"@, "setup"@, 0);
            } else if tokens_match(t, "misc"@) {
                lemma_match_excludes(t, "misc"@, "load"@, 0);
            } else if tokens_match(t, "unknown"@) {
                lemma_match_excludes(t, "unknown"@, "extract"@, 0);
                lemma_match_excludes(t, "unknown"@, "03_load"@, 0);
                lemma_match_excludes(t, "unknown"@, "cleanup"@, 0);
            }
            assert(!EtlStage::spec_matches(t, EtlStage::Setup));
            assert(!EtlStage::spec_matches(t, EtlStage::Extract));
            assert(!EtlStage::spec_matches(t, EtlStage::Transform));
            assert(!EtlStage::spec_matches(t, EtlStage::Load));
            assert(!EtlStage::spec_matches(t, EtlStage::Cleanup));
            assert(!EtlStage::spec_matches(t, EtlStage::Postprocessing));
        },
    }
}

/// Law: every token recognized by a system type's alias table,
/// case-insensitively, resolves to that system type.
pub proof fn lemma_system_alias_resolves(t: Seq<char>, v: SystemType)
    requires
        SystemType::spec_matches(t, v),
    ensures
        SystemType::spec_lookup(t) == Some(v),
        SystemType::spec_resolve(t) == v,
{
    reveal_strlit("clickhouse");
    reveal_strlit("click");
    reveal_strlit("ch");
    reveal_strlit("duckdb");
    reveal_strlit("duck");
    reveal_strlit("ddb");
    reveal_strlit("mysql");
    reveal_strlit("oracledb");
    reveal_strlit("oracle");
    reveal_strlit("plsql");
    reveal_strlit("pg");
    reveal_strlit("postgres");
    reveal_strlit("pg_dwh");
    reveal_strlit("postgres_db");
    reveal_strlit("postgresdb");
    reveal_strlit("sqlite");
    reveal_strlit("sqlserver");
    reveal_strlit("mssql");
    reveal_strlit("vertica");
    reveal_strlit("other");
    reveal_strlit("unknown");
    reveal_strlit("misc");
    match v {
        SystemType::Clickhouse => {
        },
        SystemType::Duckdb => {
            assert(!SystemType::spec_matches(t, SystemType::Clickhouse));
        },
        SystemType::MySQL => {
            if tokens_match(t, "mysql"@) {
                lemma_match_excludes(t, "mysql"@, "click"@, 0);
            }
            assert(!SystemType::spec_matches(t, SystemType::Clickhouse));
            assert(!SystemType::spec_matches(t, SystemType::Duckdb));
        },
        SystemType::OracleDB => {
            if tokens_match(t, "oracle"@) {
                lemma_match_excludes(t, "oracle"@, "duckdb"@, 0);
            } else if tokens_match(t, "plsql"@) {
                lemma_match_excludes(t, "plsql"@, "click"@, 0);
                lemma_match_excludes(t, "plsql"@, "mysql"@, 0);
            }
            assert(!SystemType::spec_matches(t, SystemType::Clickhouse));
            assert(!SystemType::spec_matches(t, SystemType::Duckdb));
            assert(!SystemType::spec_matches(t, SystemType::MySQL));
        },
        SystemType::PostgreSQL => {
            if tokens_match(t, "pg"@) {
                lemma_match_excludes(t, "pg"@, "ch"@, 0);
            } else if tokens_match(t, "postgres"@) {
                lemma_match_excludes(t, "postgres"@, "oracledb"@, 0);
            } else if tokens_match(t, "pg_dwh"@) {
                lemma_match_excludes(t, "pg_dwh"@, "duckdb"@, 0);
                lemma_match_excludes(t, "pg_dwh"@, "oracle"@, 0);
            } else if tokens_match(t, "postgresdb"@) {
                lemma_match_excludes(t, "postgresdb"@, "clickhouse"@, 0);
            }
            assert(!SystemType::spec_matches(t, SystemType::Clickhouse));
            assert(!SystemType::spec_matches(t, SystemType::Duckdb));
            assert(!SystemType::spec_matches(t, SystemType::MySQL));
            assert(!SystemType::spec_matches(t, SystemType::OracleDB));
        },
        SystemType::SQLite => {
            if tokens_match(t, "sqlite"@) {
                lemma_match_excludes(t, "sqlite"@, "duckdb"@, 0);
                lemma_match_excludes(t, "sqlite"@, "oracle"@, 0);
                lemma_match_excludes(t, "sqlite"@, "pg_dwh"@, 0);
            }
            assert(!SystemType::spec_matches(t, SystemType::Clickhouse));
            assert(!SystemType::spec_matches(t, SystemType::Duckdb));
            assert(!SystemType::spec_matches(t, SystemType::MySQL));
            assert(!SystemType::spec_matches(t, SystemType::OracleDB));
            assert(!SystemType::spec_matches(t, SystemType::PostgreSQL));
        },
        SystemType::SqlServer => {
            if tokens_match(t, "mssql"@) {
                lemma_match_excludes(t, "mssql"@, "click"@, 0);
                lemma_match_excludes(t, "mssql"@, "mysql"@, 1);
                lemma_match_excludes(t, "mssql"@, "plsql"@, 0);
            }
            assert(!SystemType::spec_matches(t, SystemType::Clickhouse));
            assert(!SystemType::spec_matches(t, SystemType::Duckdb));
            assert(!SystemType::spec_matches(t, SystemType::MySQL));
            assert(!SystemType::spec_matches(t, SystemType::OracleDB));
            assert(!SystemType::spec_matches(t, SystemType::PostgreSQL));
            assert(!SystemType::spec_matches(t, SystemType::SQLite));
        },
        SystemType::Vertica => {
            assert(!SystemType::spec_matches(t, SystemType::Clickhouse));
            assert(!SystemType::spec_matches(t, SystemType::Duckdb));
            assert(!SystemType::spec_matches(t, SystemType::MySQL));
            assert(!SystemType::spec_matches(t, SystemType::OracleDB));
            assert(!SystemType::spec_matches(t, SystemType::PostgreSQL));
            assert(!SystemType::spec_matches(t, SystemType::SQLite));
            assert(!SystemType::spec_matches(t, SystemType::SqlServer));
        },
        SystemType::Other => {
            if tokens_match(t, "other"@) {
                lemma_match_excludes(t, "other"@, "click"@, 0);
                lemma_match_excludes(t, "other"@, "mysql"@, 0);
                lemma_match_excludes(t, "other"@, "plsql"@, 0);
                lemma_match_excludes(t, "other"@, "mssql"@, 0);
            } else if tokens_match(t, "unknown"@) {
                lemma_match_excludes(t, "unknown"@, "vertica"@, 0);
            } else if tokens_match(t, "misc"@) {
                lemma_match_excludes(t, "misc"@, "duck"@, 0);
            }
            assert(!SystemType::spec_matches(t, SystemType::Clickhouse));
            assert(!SystemType::spec_matches(t, SystemType::Duckdb));
            assert(!SystemType::spec_matches(t, SystemType::MySQL));
            assert(!SystemType::spec_matches(t, SystemType::OracleDB));
            assert(!SystemType::spec_matches(t, SystemType::PostgreSQL));
            assert(!SystemType::spec_matches(t, SystemType::SQLite));
            assert(!SystemType::spec_matches(t, SystemType::SqlServer));
            assert(!SystemType::spec_matches(t, SystemType::Vertica));
        },
    }
}

/// Law: every entry of a stage's published alias table resolves, up to
/// case, to the stage that owns it.
pub proof fn lemma_stage_table_alias_resolves(t: Seq<char>, v: EtlStage, i: int)
    requires
        0 <= i < v.spec_aliases().len(),
        tokens_match(t, v.spec_aliases()[i]),
    ensures
        EtlStage::spec_lookup(t) == Some(v),
        EtlStage::spec_resolve(t) == v,
{
    assert(EtlStage::spec_matches(t, v));
    lemma_stage_alias_resolves(t, v);
}

/// Law: every entry of a system type's published alias table resolves, up
/// to case, to the system type that owns it.
pub proof fn lemma_system_table_alias_resolves(t: Seq<char>, v: SystemType, i: int)
    requires
        0 <= i < v.spec_aliases().len(),
        tokens_match(t, v.spec_aliases()[i]),
    ensures
        SystemType::spec_lookup(t) == Some(v),
        SystemType::spec_resolve(t) == v,
{
    assert(SystemType::spec_matches(t, v));
    lemma_system_alias_resolves(t, v);
}

/// Law: the stages' alias tables are pairwise disjoint after case folding —
/// no token is recognized by two different stages.
pub proof fn lemma_stage_tables_disjoint(t: Seq<char>, v: EtlStage, w: EtlStage)
    requires
        v != w,
        EtlStage::spec_matches(t, v),
    ensures
        !EtlStage::spec_matches(t, w),
{
    lemma_stage_alias_resolves(t, v);
    if EtlStage::spec_matches(t, w) {
        lemma_stage_alias_resolves(t, w);
    }
}

/// Law: the system types' alias tables are pairwise disjoint after case
/// folding — no token is recognized by two different system types.
pub proof fn lemma_system_tables_disjoint(t: Seq<char>, v: SystemType, w: SystemType)
    requires
        v != w,
        SystemType::spec_matches(t, v),
    ensures
        !SystemType::spec_matches(t, w),
{
    lemma_system_alias_resolves(t, v);
    if SystemType::spec_matches(t, w) {
        lemma_system_alias_resolves(t, w);
    }
}

/// Law: a token no stage recognizes resolves leniently to `Other` and has
/// no strict resolution — `from_alias` then fails with `UnknownAlias`.
pub proof fn lemma_stage_unrecognized(t: Seq<char>)
    requires
        forall|v: EtlStage| !EtlStage::spec_matches(t, v),
    ensures
        EtlStage::spec_lookup(t) is None,
        EtlStage::spec_resolve(t) == EtlStage::Other,
{
    assert(!EtlStage::spec_matches(t, EtlStage::Setup));
    assert(!EtlStage::spec_matches(t, EtlStage::Extract));
    assert(!EtlStage::spec_matches(t, EtlStage::Transform));
    assert(!EtlStage::spec_matches(t, EtlStage::Load));
    assert(!EtlStage::spec_matches(t, EtlStage::Cleanup));
    assert(!EtlStage::spec_matches(t, EtlStage::Postprocessing));
    assert(!EtlStage::spec_matches(t, EtlStage::Other));
}

/// Law: a token no system type recognizes resolves leniently to `Other` and
/// has no strict resolution — `from_alias` then fails with `UnknownAlias`.
pub proof fn lemma_system_unrecognized(t: Seq<char>)
    requires
        forall|v: SystemType| !SystemType::spec_matches(t, v),
    ensures
        SystemType::spec_lookup(t) is None,
        SystemType::spec_resolve(t) == SystemType::Other,
{
    assert(!SystemType::spec_matches(t, SystemType::Clickhouse));
    assert(!SystemType::spec_matches(t, SystemType::Duckdb));
    assert(!SystemType::spec_matches(t, SystemType::MySQL));
    assert(!SystemType::spec_matches(t, SystemType::OracleDB));
    assert(!SystemType::spec_matches(t, SystemType::PostgreSQL));
    assert(!SystemType::spec_matches(t, SystemType::SQLite));
    assert(!SystemType::spec_matches(t, SystemType::SqlServer));
    assert(!SystemType::spec_matches(t, SystemType::Vertica));
    assert(!SystemType::spec_matches(t, SystemType::Other));
}

/// Law: building an inventory is a deterministic function of the root and
/// the discovered file list — two builds from an unchanged tree yield
/// subtask collections equal in content and order.
pub proof fn lemma_build_deterministic(
    base1: Seq<char>,
    files1: Seq<Seq<char>>,
    base2: Seq<char>,
    files2: Seq<Seq<char>>,
)
    requires
        base1 == base2,
        files1 == files2,
    ensures
        spec_build(base1, files1) == spec_build(base2, files2),
{
}

} // verus!
