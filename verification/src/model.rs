//! Mathematical model of the database file and the laws of the storage
//! component.
//!
//! The model reduces the file to what the component observes of it: the set
//! of ledger-recorded versions, the tables with their columns, and the
//! persisted study-log rows. Bootstrap and insert are functions on this
//! model, and the laws proved here say that bootstrap is idempotent, that
//! the migration set deterministically yields the study-log schema, that an
//! insert preserves every earlier row and appends exactly the given one,
//! and that a sequence of inserts loses and duplicates nothing.

use vstd::prelude::*;
use crate::entry::StudyLogEntry;
use crate::migration::Migration;
use crate::migration::MigrationSet;
use crate::migration::is_ledger_table;
use crate::migration::is_study_migration_set;
use crate::migration::spec_ledger_table_name;
use crate::migration::spec_log_table_name;
use crate::migration::spec_versions;
use crate::schema::ColumnDef;
use crate::schema::ColumnKind;

verus! {

/// One persisted row, by the values of its six semantic fields; the
/// identity column and the creation time are the storage layer's own.
pub struct LogRow {
    pub mode: Seq<char>,
    pub subject: Seq<char>,
    pub topic: Seq<char>,
    pub focus_duration_seconds: int,
    pub break_duration_seconds: int,
    pub break_count: int,
}

/// The row that persisting an entry produces: the six fields, unchanged.
pub open spec fn row_of(e: StudyLogEntry) -> LogRow {
    LogRow {
        mode: e.mode@,
        subject: e.subject@,
        topic: e.topic@,
        focus_duration_seconds: e.focus_duration_seconds as int,
        break_duration_seconds: e.break_duration_seconds as int,
        break_count: e.break_count as int,
    }
}

/// One column as the model sees it.
pub struct ColumnModel {
    pub name: Seq<char>,
    pub kind: ColumnKind,
}

/// The model of a column list.
pub open spec fn spec_columns_of(cs: Seq<ColumnDef>) -> Seq<ColumnModel> {
    cs.map_values(|c: ColumnDef| ColumnModel { name: c.name@, kind: c.kind })
}

/// The columns of the ledger table.
pub open spec fn spec_ledger_columns() -> Seq<ColumnModel> {
    seq![ColumnModel { name: "version"@, kind: ColumnKind::IntegerPrimaryKey }]
}

/// What the component observes of the database file.
#[verifier::ext_equal]
pub struct DbState {
    /// Versions the ledger records as applied.
    pub applied: Set<u64>,
    /// Tables present, by name, with their columns.
    pub tables: Map<Seq<char>, Seq<ColumnModel>>,
    /// Persisted study-log rows, in insertion order.
    pub rows: Seq<LogRow>,
}

/// A database file that does not exist yet: bootstrap creates it empty.
pub open spec fn fresh_db() -> DbState {
    DbState { applied: Set::empty(), tables: Map::empty(), rows: Seq::empty() }
}

/// Bootstrap's first act: make sure the ledger table exists. Creating it
/// with IF NOT EXISTS is idempotent, as is this model of it.
pub open spec fn ensure_ledger(db: DbState) -> DbState {
    DbState {
        tables: db.tables.insert(spec_ledger_table_name(), spec_ledger_columns()),
        ..db
    }
}

/// Effect of running one migration script and recording its version, as one
/// unit of work: the table exists afterwards and the version is in the
/// ledger — never one without the other.
pub open spec fn apply_migration(db: DbState, m: Migration) -> DbState {
    DbState {
        applied: db.applied.insert(m.version),
        tables: db.tables.insert(m.table.name@, spec_columns_of(m.table.columns@)),
        rows: db.rows,
    }
}

/// One bootstrap step: the ledger check short-circuits an already-applied
/// version.
pub open spec fn bootstrap_step(db: DbState, m: Migration) -> DbState {
    if db.applied.contains(m.version) {
        db
    } else {
        apply_migration(db, m)
    }
}

/// Runs the migration sequence in order against the ledger.
pub open spec fn run_migrations(db: DbState, ms: Seq<Migration>) -> DbState
    decreases ms.len(),
{
    if ms.len() == 0 {
        db
    } else {
        run_migrations(bootstrap_step(db, ms[0]), ms.drop_first())
    }
}

/// The whole bootstrap: ensure the ledger table, then run what the ledger
/// does not yet record.
pub open spec fn initialize_model(db: DbState, ms: MigrationSet) -> DbState {
    run_migrations(ensure_ledger(db), ms.migrations@)
}

/// Effect of one successful insert: the row is appended, nothing else
/// moves.
pub open spec fn insert_model(db: DbState, e: StudyLogEntry) -> DbState {
    DbState { rows: db.rows.push(row_of(e)), ..db }
}

/// Effect of a run of successful inserts, in the order the engine
/// serialized them.
pub open spec fn insert_all_model(db: DbState, es: Seq<StudyLogEntry>) -> DbState
    decreases es.len(),
{
    if es.len() == 0 {
        db
    } else {
        insert_all_model(insert_model(db, es[0]), es.drop_first())
    }
}

/// Running migrations records exactly the versions of the sequence beyond
/// what the ledger held, touches no rows, and only adds tables.
proof fn lemma_run_migrations_effect(db: DbState, ms: Seq<Migration>)
    ensures
        forall|v: u64|
            run_migrations(db, ms).applied.contains(v) <==> (db.applied.contains(v)
                || spec_versions(ms).contains(v)),
        run_migrations(db, ms).rows == db.rows,
        forall|name: Seq<char>, cols: Seq<ColumnModel>|
            db.tables.contains_pair(name, cols) && (forall|i: int|
                0 <= i < ms.len() ==> (#[trigger] ms[i]).table.name@ != name)
                ==> run_migrations(db, ms).tables.contains_pair(name, cols),
    decreases ms.len(),
{
    if ms.len() == 0 {
        assert(spec_versions(ms).len() == 0);
    } else {
        let db1 = bootstrap_step(db, ms[0]);
        let rest = ms.drop_first();
        lemma_run_migrations_effect(db1, rest);
        assert forall|v: u64|
            run_migrations(db, ms).applied.contains(v) <==> (db.applied.contains(v)
                || spec_versions(ms).contains(v)) by {
            assert(spec_versions(ms).len() == ms.len());
            if spec_versions(ms).contains(v) {
                let i = choose|i: int|
                    0 <= i < spec_versions(ms).len() && spec_versions(ms)[i] == v;
                if i == 0 {
                    assert(db1.applied.contains(v));
                } else {
                    assert(spec_versions(rest)[i - 1] == rest[i - 1].version);
                    assert(spec_versions(rest).contains(v));
                }
            }
            if spec_versions(rest).contains(v) {
                let i = choose|i: int|
                    0 <= i < spec_versions(rest).len() && spec_versions(rest)[i] == v;
                assert(spec_versions(ms)[i + 1] == ms[i + 1].version);
                assert(spec_versions(ms).contains(v));
            }
            if db1.applied.contains(v) && !db.applied.contains(v) {
                assert(v == ms[0].version);
                assert(spec_versions(ms)[0] == v);
                assert(spec_versions(ms).contains(v));
            }
        }
        assert forall|name: Seq<char>, cols: Seq<ColumnModel>|
            db.tables.contains_pair(name, cols) && (forall|i: int|
                0 <= i < ms.len() ==> (#[trigger] ms[i]).table.name@ != name) implies
            run_migrations(db, ms).tables.contains_pair(name, cols) by {
            assert(ms[0].table.name@ != name);
            assert(db1.tables.contains_pair(name, cols));
            assert forall|i: int| 0 <= i < rest.len() implies (#[trigger] rest[i]).table.name@
                != name by {
                assert(rest[i] == ms[i + 1]);
            }
        }
    }
}

/// A migration run against a ledger that already records every version of
/// the sequence changes nothing.
proof fn lemma_run_migrations_noop(db: DbState, ms: Seq<Migration>)
    requires
        forall|i: int| 0 <= i < ms.len() ==> db.applied.contains((#[trigger] ms[i]).version),
    ensures
        run_migrations(db, ms) == db,
    decreases ms.len(),
{
    if ms.len() > 0 {
        assert(db.applied.contains(ms[0].version));
        let rest = ms.drop_first();
        assert forall|i: int| 0 <= i < rest.len() implies db.applied.contains(
            (#[trigger] rest[i]).version,
        ) by {
            assert(rest[i] == ms[i + 1]);
        }
        lemma_run_migrations_noop(db, rest);
    }
}

/// Idempotent bootstrap: initializing twice against the same state is the
/// same as initializing once — the second run finds the ledger current and
/// the ledger table in place, and changes nothing.
pub proof fn lemma_bootstrap_idempotent(db: DbState, ms: MigrationSet)
    requires
        ms.well_formed(),
    ensures
        initialize_model(initialize_model(db, ms), ms) == initialize_model(db, ms),
{
    let d0 = ensure_ledger(db);
    let d1 = run_migrations(d0, ms.migrations@);
    lemma_run_migrations_effect(d0, ms.migrations@);
    // The ledger table survives the run: no migration touches it.
    assert(d0.tables.contains_pair(spec_ledger_table_name(), spec_ledger_columns()));
    assert(d1.tables.contains_pair(spec_ledger_table_name(), spec_ledger_columns()));
    // So the second ensure_ledger is a no-op.
    assert(d1.tables.insert(spec_ledger_table_name(), spec_ledger_columns()) =~= d1.tables);
    assert(ensure_ledger(d1) =~= d1);
    // And the second run finds every version applied.
    assert forall|i: int| 0 <= i < ms.migrations@.len() implies d1.applied.contains(
        (#[trigger] ms.migrations@[i]).version,
    ) by {
        assert(spec_versions(ms.migrations@)[i] == ms.migrations@[i].version);
        assert(spec_versions(ms.migrations@).contains(ms.migrations@[i].version));
    }
    lemma_run_migrations_noop(d1, ms.migrations@);
    assert(initialize_model(d1, ms) == d1);
}

/// Migration determinism, fresh side: bootstrapping a fresh database with
/// the study migration set yields exactly the study-log table — the six
/// semantic columns plus the identity column — next to the ledger table,
/// version 1 recorded, and no rows.
pub proof fn lemma_migration_determinism(ms: MigrationSet)
    requires
        is_study_migration_set(ms),
    ensures
        ({
            let db = initialize_model(fresh_db(), ms);
            &&& db.tables.dom() =~= set![spec_log_table_name(), spec_ledger_table_name()]
            &&& db.tables[spec_ledger_table_name()] == spec_ledger_columns()
            &&& db.tables[spec_log_table_name()].len() == 7
            &&& db.tables[spec_log_table_name()][0] == (ColumnModel {
                name: "id"@,
                kind: ColumnKind::IdentityPrimaryKey,
            })
            &&& db.tables[spec_log_table_name()][1] == (ColumnModel {
                name: "mode"@,
                kind: ColumnKind::RequiredText,
            })
            &&& db.tables[spec_log_table_name()][2] == (ColumnModel {
                name: "subject"@,
                kind: ColumnKind::RequiredText,
            })
            &&& db.tables[spec_log_table_name()][3] == (ColumnModel {
                name: "topic"@,
                kind: ColumnKind::RequiredText,
            })
            &&& db.tables[spec_log_table_name()][4] == (ColumnModel {
                name: "focus_duration_seconds"@,
                kind: ColumnKind::RequiredInteger,
            })
            &&& db.tables[spec_log_table_name()][5] == (ColumnModel {
                name: "break_duration_seconds"@,
                kind: ColumnKind::RequiredInteger,
            })
            &&& db.tables[spec_log_table_name()][6] == (ColumnModel {
                name: "break_count"@,
                kind: ColumnKind::RequiredInteger,
            })
            &&& db.applied =~= set![1u64]
            &&& db.rows =~= Seq::<LogRow>::empty()
        }),
{
    let m = ms.migrations@[0];
    let d0 = ensure_ledger(fresh_db());
    let d1 = bootstrap_step(d0, m);
    assert(ms.migrations@.drop_first() =~= Seq::<Migration>::empty());
    assert(run_migrations(d1, ms.migrations@.drop_first()) == d1);
    assert(initialize_model(fresh_db(), ms) == d1);
    reveal_strlit("study_logs");
    reveal_strlit("schema_migrations");
    assert(spec_log_table_name().len() == 10);
    assert(spec_ledger_table_name().len() == 17);
    assert(!d0.applied.contains(m.version));
    let cols = spec_columns_of(m.table.columns@);
    assert(cols.len() == 7);
    assert(cols[0] == ColumnModel { name: "id"@, kind: ColumnKind::IdentityPrimaryKey });
    assert(cols[1] == ColumnModel { name: "mode"@, kind: ColumnKind::RequiredText });
    assert(cols[2] == ColumnModel { name: "subject"@, kind: ColumnKind::RequiredText });
    assert(cols[3] == ColumnModel { name: "topic"@, kind: ColumnKind::RequiredText });
    assert(cols[4] == ColumnModel {
        name: "focus_duration_seconds"@,
        kind: ColumnKind::RequiredInteger,
    });
    assert(cols[5] == ColumnModel {
        name: "break_duration_seconds"@,
        kind: ColumnKind::RequiredInteger,
    });
    assert(cols[6] == ColumnModel { name: "break_count"@, kind: ColumnKind::RequiredInteger });
}

/// Migration determinism, settled side: bootstrap against any database
/// whose ledger already records every version and whose ledger table is in
/// place changes nothing at all.
pub proof fn lemma_already_migrated_noop(db: DbState, ms: MigrationSet)
    requires
        ms.well_formed(),
        forall|i: int|
            0 <= i < ms.migrations@.len() ==> db.applied.contains(
                (#[trigger] ms.migrations@[i]).version,
            ),
        db.tables.contains_pair(spec_ledger_table_name(), spec_ledger_columns()),
    ensures
        initialize_model(db, ms) == db,
{
    assert(db.tables.insert(spec_ledger_table_name(), spec_ledger_columns()) =~= db.tables);
    assert(ensure_ledger(db) =~= db);
    lemma_run_migrations_noop(db, ms.migrations@);
}

/// Insert round-trip: a successful insert appends exactly the entry's six
/// field values as one new row; every earlier row, the schema and the
/// ledger are untouched. In particular, inserting into an empty log leaves
/// exactly that one row.
pub proof fn lemma_insert_round_trip(db: DbState, e: StudyLogEntry)
    ensures
        insert_model(db, e).rows.len() == db.rows.len() + 1,
        insert_model(db, e).rows.last() == row_of(e),
        insert_model(db, e).rows.subrange(0, db.rows.len() as int) == db.rows,
        insert_model(db, e).tables == db.tables,
        insert_model(db, e).applied == db.applied,
        db.rows.len() == 0 ==> insert_model(db, e).rows == seq![row_of(e)],
{
    assert(insert_model(db, e).rows.subrange(0, db.rows.len() as int) =~= db.rows);
    if db.rows.len() == 0 {
        assert(insert_model(db, e).rows =~= seq![row_of(e)]);
    }
}

/// Concurrent inserts, serialized by the engine in some order: every
/// submitted entry lands as exactly one row, in that order, after all the
/// rows that were already there — no lost writes, no duplication.
pub proof fn lemma_inserts_all_land(db: DbState, es: Seq<StudyLogEntry>)
    ensures
        insert_all_model(db, es).rows == db.rows + es.map_values(|e: StudyLogEntry| row_of(e)),
        insert_all_model(db, es).tables == db.tables,
        insert_all_model(db, es).applied == db.applied,
    decreases es.len(),
{
    let mapped = es.map_values(|e: StudyLogEntry| row_of(e));
    if es.len() == 0 {
        assert(db.rows + mapped =~= db.rows);
    } else {
        let db1 = insert_model(db, es[0]);
        let rest = es.drop_first();
        lemma_inserts_all_land(db1, rest);
        let mapped_rest = rest.map_values(|e: StudyLogEntry| row_of(e));
        assert forall|i: int| 0 <= i < mapped_rest.len() implies mapped_rest[i] == mapped[i
            + 1] by {
            assert(rest[i] == es[i + 1]);
        }
        assert(db1.rows + mapped_rest =~= db.rows + mapped);
    }
}

} // verus!
