//! The migration set and the bootstrap planning algorithm.
//!
//! A migration is an irreversible, idempotent schema change identified by a
//! version; versions are strictly increasing across the set. A persistent
//! ledger table in the same database records which versions have been
//! applied. Planning compares the set against the ledger and yields, in
//! ascending order, exactly the steps that are still unapplied — re-planning
//! against a current ledger yields nothing, which is what makes bootstrap
//! idempotent.

use vstd::prelude::*;
use crate::schema::ColumnDef;
use crate::schema::ColumnKind;
use crate::schema::TableDef;
use crate::schema::render_create_table;
use crate::schema::spec_create_table_sql;

verus! {

/// One versioned schema change: creates one table.
#[derive(Debug)]
pub struct Migration {
    /// Strictly increasing across the set; recorded in the ledger once the
    /// script has run.
    pub version: u64,
    /// The table this migration creates.
    pub table: TableDef,
}

/// The ordered set of known migrations.
#[derive(Debug)]
pub struct MigrationSet {
    pub migrations: Vec<Migration>,
}

/// One planned bootstrap step: the version to record and the script to run,
/// both inside one unit of work.
#[derive(Debug)]
pub struct MigrationStep {
    pub version: u64,
    pub script: String,
}

/// Name of the ledger table that records applied versions.
pub open spec fn spec_ledger_table_name() -> Seq<char> {
    "schema_migrations"@
}

/// Name of the study-log table.
pub open spec fn spec_log_table_name() -> Seq<char> {
    "study_logs"@
}

/// The versions of a migration sequence, in order.
pub open spec fn spec_versions(ms: Seq<Migration>) -> Seq<u64> {
    ms.map_values(|m: Migration| m.version)
}

/// The migrations of `ms` whose version is not yet in `applied`, in order.
pub open spec fn spec_pending(ms: Seq<Migration>, applied: Seq<u64>) -> Seq<Migration> {
    ms.filter(|m: Migration| !applied.contains(m.version))
}

impl MigrationSet {
    /// Versions strictly increase, and no migration touches the ledger
    /// table, which belongs to the bootstrap machinery alone.
    pub open spec fn well_formed(self) -> bool {
        &&& forall|i: int, j: int|
            0 <= i < j < self.migrations@.len() ==> self.migrations@[i].version
                < self.migrations@[j].version
        &&& forall|i: int|
            0 <= i < self.migrations@.len() ==> (#[trigger] self.migrations@[i]).table.name@
                != spec_ledger_table_name()
    }

    /// The bootstrap plan against a ledger: one step, in ascending order,
    /// for exactly each version of the set that the ledger does not hold.
    /// A ledger that already holds every version yields the empty plan.
    pub fn pending_plan(&self, applied: &Vec<u64>) -> (plan: Vec<MigrationStep>)
        ensures
            ({
                let pend = spec_pending(self.migrations@, applied@);
                &&& plan@.len() == pend.len()
                &&& forall|k: int|
                    0 <= k < pend.len() ==> (#[trigger] plan@[k]).version == pend[k].version
                &&& forall|k: int|
                    0 <= k < pend.len() ==> (#[trigger] plan@[k]).script@ == spec_create_table_sql(
                        pend[k].table,
                    )
            }),
    {
        broadcast use vstd::seq_lib::group_seq_properties;

        let mut plan: Vec<MigrationStep> = Vec::new();
        let n = self.migrations.len();
        let mut i: usize = 0;
        proof {
            assert(self.migrations@.subrange(0, 0) =~= Seq::<Migration>::empty());
            reveal(Seq::filter);
        }
        while i < n
            invariant
                n == self.migrations@.len(),
                0 <= i <= n,
                ({
                    let pend = spec_pending(self.migrations@.subrange(0, i as int), applied@);
                    &&& plan@.len() == pend.len()
                    &&& forall|k: int|
                        0 <= k < pend.len() ==> (#[trigger] plan@[k]).version == pend[k].version
                    &&& forall|k: int|
                        0 <= k < pend.len() ==> (#[trigger] plan@[k]).script@
                            == spec_create_table_sql(pend[k].table)
                }),
            decreases n - i,
        {
            let m = &self.migrations[i];
            let skip = contains_version(applied, m.version);
            if !skip {
                let script = render_create_table(&m.table);
                plan.push(MigrationStep { version: m.version, script });
            }
            proof {
                reveal(Seq::filter);
                let pre = self.migrations@.subrange(0, i as int);
                let cur = self.migrations@.subrange(0, i as int + 1);
                assert(cur.drop_last() =~= pre);
                assert(cur.last() == self.migrations@[i as int]);
            }
            i = i + 1;
        }
        proof {
            assert(self.migrations@.subrange(0, n as int) =~= self.migrations@);
        }
        plan
    }
}

/// Whether the ledger already records version `v`.
fn contains_version(applied: &Vec<u64>, v: u64) -> (b: bool)
    ensures
        b == applied@.contains(v),
{
    let n = applied.len();
    let mut i: usize = 0;
    while i < n
        invariant
            n == applied@.len(),
            0 <= i <= n,
            forall|k: int| 0 <= k < i ==> applied@[k] != v,
        decreases n - i,
    {
        if applied[i] == v {
            return true;
        }
        i = i + 1;
    }
    false
}

/// Shape of the study-log table: the six semantic columns of an entry plus
/// one identity column assigned by the storage layer.
pub open spec fn is_study_logs_table(t: TableDef) -> bool {
    &&& t.name@ == spec_log_table_name()
    &&& t.columns@.len() == 7
    &&& t.columns@[0].name@ == "id"@ && t.columns@[0].kind == ColumnKind::IdentityPrimaryKey
    &&& t.columns@[1].name@ == "mode"@ && t.columns@[1].kind == ColumnKind::RequiredText
    &&& t.columns@[2].name@ == "subject"@ && t.columns@[2].kind == ColumnKind::RequiredText
    &&& t.columns@[3].name@ == "topic"@ && t.columns@[3].kind == ColumnKind::RequiredText
    &&& t.columns@[4].name@ == "focus_duration_seconds"@ && t.columns@[4].kind
        == ColumnKind::RequiredInteger
    &&& t.columns@[5].name@ == "break_duration_seconds"@ && t.columns@[5].kind
        == ColumnKind::RequiredInteger
    &&& t.columns@[6].name@ == "break_count"@ && t.columns@[6].kind == ColumnKind::RequiredInteger
}

/// Shape of the ledger table: a single integer primary key holding the
/// applied version numbers.
pub open spec fn is_ledger_table(t: TableDef) -> bool {
    &&& t.name@ == spec_ledger_table_name()
    &&& t.columns@.len() == 1
    &&& t.columns@[0].name@ == "version"@ && t.columns@[0].kind == ColumnKind::IntegerPrimaryKey
}

/// Shape of the full migration set of this application: one migration,
/// version 1, creating the study-log table.
pub open spec fn is_study_migration_set(ms: MigrationSet) -> bool {
    &&& ms.migrations@.len() == 1
    &&& ms.migrations@[0].version == 1
    &&& is_study_logs_table(ms.migrations@[0].table)
}

/// Builds the migration set of this application.
pub fn study_migration_set() -> (ms: MigrationSet)
    ensures
        is_study_migration_set(ms),
        ms.well_formed(),
{
    let mut columns: Vec<ColumnDef> = Vec::new();
    columns.push(ColumnDef { name: String::from_str("id"), kind: ColumnKind::IdentityPrimaryKey });
    columns.push(ColumnDef { name: String::from_str("mode"), kind: ColumnKind::RequiredText });
    columns.push(ColumnDef { name: String::from_str("subject"), kind: ColumnKind::RequiredText });
    columns.push(ColumnDef { name: String::from_str("topic"), kind: ColumnKind::RequiredText });
    columns.push(
        ColumnDef {
            name: String::from_str("focus_duration_seconds"),
            kind: ColumnKind::RequiredInteger,
        },
    );
    columns.push(
        ColumnDef {
            name: String::from_str("break_duration_seconds"),
            kind: ColumnKind::RequiredInteger,
        },
    );
    columns.push(
        ColumnDef { name: String::from_str("break_count"), kind: ColumnKind::RequiredInteger },
    );
    let table = TableDef { name: String::from_str("study_logs"), columns };
    let migration = Migration { version: 1, table };
    let mut migrations: Vec<Migration> = Vec::new();
    migrations.push(migration);
    proof {
        // The two table names have different lengths, so they differ.
        reveal_strlit("study_logs");
        reveal_strlit("schema_migrations");
        assert(spec_log_table_name().len() == 10);
        assert(spec_ledger_table_name().len() == 17);
        assert(spec_log_table_name() != spec_ledger_table_name());
    }
    MigrationSet { migrations }
}

/// Builds the definition of the ledger table; bootstrap creates it before
/// the ledger is first read.
pub fn ledger_table() -> (t: TableDef)
    ensures
        is_ledger_table(t),
{
    let mut columns: Vec<ColumnDef> = Vec::new();
    columns.push(
        ColumnDef { name: String::from_str("version"), kind: ColumnKind::IntegerPrimaryKey },
    );
    TableDef { name: String::from_str("schema_migrations"), columns }
}

/// A ledger that already records every version of the set yields the empty
/// bootstrap plan: re-planning against a current database is a no-op beyond
/// the ledger scan.
pub proof fn lemma_plan_empty_when_current(ms: MigrationSet, applied: Seq<u64>)
    requires
        forall|i: int|
            0 <= i < ms.migrations@.len() ==> applied.contains(
                (#[trigger] ms.migrations@[i]).version,
            ),
    ensures
        spec_pending(ms.migrations@, applied).len() == 0,
{
    lemma_pending_empty(ms.migrations@, applied);
}

proof fn lemma_pending_empty(ms: Seq<Migration>, applied: Seq<u64>)
    requires
        forall|i: int| 0 <= i < ms.len() ==> applied.contains((#[trigger] ms[i]).version),
    ensures
        spec_pending(ms, applied).len() == 0,
    decreases ms.len(),
{
    reveal(Seq::filter);
    if ms.len() > 0 {
        let pre = ms.drop_last();
        assert forall|i: int| 0 <= i < pre.len() implies applied.contains(
            (#[trigger] pre[i]).version,
        ) by {
            assert(pre[i] == ms[i]);
        }
        lemma_pending_empty(pre, applied);
        assert(applied.contains(ms.last().version));
    }
}

/// The statement that reads the applied versions from the ledger, in
/// ascending order.
pub fn ledger_select_sql() -> (s: String)
    ensures
        s@ == "SELECT version FROM schema_migrations ORDER BY version"@,
{
    String::from_str("SELECT version FROM schema_migrations ORDER BY version")
}

/// The statement that records one applied version in the ledger; run inside
/// the same unit of work as the migration script itself.
pub fn ledger_record_sql() -> (s: String)
    ensures
        s@ == "INSERT INTO schema_migrations (version) VALUES ($1)"@,
{
    String::from_str("INSERT INTO schema_migrations (version) VALUES ($1)")
}

} // verus!
