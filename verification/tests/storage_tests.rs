//! Scenario tests against a real embedded database: bootstrap, insert,
//! concurrency, the pool bound, fatal setup and resource release. The
//! library plans and binds; this harness ferries its statements to the
//! engine, as the application shell does.

use sqlx::sqlite::{SqliteConnectOptions, SqlitePool, SqlitePoolOptions};
use sqlx::Row;
use std::str::FromStr;

use studyflow_storage::command::{complete_insert, prepare_insert, BoundValue, InsertStatement};
use studyflow_storage::entry::StudyLogEntry;
use studyflow_storage::errors::{CommandError, SetupError};
use studyflow_storage::lifecycle::{admit_command, settle_bootstrap, StorageStatus};
use studyflow_storage::migration::{
    ledger_record_sql, ledger_select_sql, ledger_table, study_migration_set,
};
use studyflow_storage::schema::render_create_table;

fn rt() -> tokio::runtime::Runtime {
    tokio::runtime::Builder::new_multi_thread()
        .worker_threads(4)
        .enable_time()
        .build()
        .unwrap()
}

async fn open_pool(path: &str, max: u32) -> Result<SqlitePool, sqlx::Error> {
    let options = SqliteConnectOptions::from_str(path)?.create_if_missing(true);
    SqlitePoolOptions::new()
        .max_connections(max)
        .connect_with(options)
        .await
}

/// Clears any leftover state so a test starts from an effectively fresh
/// database file.
async fn reset(pool: &SqlitePool) {
    sqlx::query("DROP TABLE IF EXISTS study_logs")
        .execute(pool)
        .await
        .unwrap();
    sqlx::query("DROP TABLE IF EXISTS schema_migrations")
        .execute(pool)
        .await
        .unwrap();
}

/// The bootstrap the shell performs: ensure the ledger table, read the
/// ledger, plan, and run each pending step inside one transaction. Returns
/// how many steps were applied.
async fn bootstrap(pool: &SqlitePool) -> Result<usize, SetupError> {
    let ledger = ledger_table();
    sqlx::query(render_create_table(&ledger).as_str())
        .execute(pool)
        .await
        .map_err(|e| SetupError::Migration(e.to_string()))?;
    let rows = sqlx::query(ledger_select_sql().as_str())
        .fetch_all(pool)
        .await
        .map_err(|e| SetupError::Migration(e.to_string()))?;
    let mut applied: Vec<u64> = Vec::new();
    for row in rows {
        let v: i64 = row.get(0);
        applied.push(v as u64);
    }
    let set = study_migration_set();
    let plan = set.pending_plan(&applied);
    let steps = plan.len();
    for step in plan {
        let mut tx = pool
            .begin()
            .await
            .map_err(|e| SetupError::Migration(e.to_string()))?;
        sqlx::query(step.script.as_str())
            .execute(&mut *tx)
            .await
            .map_err(|e| SetupError::Migration(e.to_string()))?;
        sqlx::query(ledger_record_sql().as_str())
            .bind(step.version as i64)
            .execute(&mut *tx)
            .await
            .map_err(|e| SetupError::Migration(e.to_string()))?;
        tx.commit()
            .await
            .map_err(|e| SetupError::Migration(e.to_string()))?;
    }
    Ok(steps)
}

/// Executes a prepared insert statement, as the shell does, and converts
/// the outcome through the library.
async fn run_insert(pool: &SqlitePool, st: &InsertStatement) -> Result<(), CommandError> {
    let mut query = sqlx::query(st.sql.as_str());
    for param in st.params.iter() {
        query = match param {
            BoundValue::Text(s) => query.bind(s.as_str()),
            BoundValue::Integer(i) => query.bind(*i),
        };
    }
    let outcome = match query.execute(pool).await {
        Ok(done) => Ok(done.rows_affected()),
        Err(e) => Err(e.to_string()),
    };
    complete_insert(outcome)
}

fn entry(mode: &str, subject: &str, topic: &str, focus: i64, brk: i64, count: i64) -> StudyLogEntry {
    StudyLogEntry::new(
        mode.to_string(),
        subject.to_string(),
        topic.to_string(),
        focus,
        brk,
        count,
    )
}

#[test]
fn bootstrap_twice_on_the_same_path_is_idempotent() {
    rt().block_on(async {
        let pool = open_pool("/tmp/studyflow_idempotent.db", 5).await.unwrap();
        reset(&pool).await;
        let first = bootstrap(&pool).await.unwrap();
        assert_eq!(first, 1);
        let second = bootstrap(&pool).await.unwrap();
        assert_eq!(second, 0, "a current database must need no further steps");
    });
}

#[test]
fn migrations_produce_exactly_the_study_log_schema() {
    rt().block_on(async {
        let pool = open_pool("/tmp/studyflow_schema.db", 5).await.unwrap();
        reset(&pool).await;
        bootstrap(&pool).await.unwrap();
        let rows = sqlx::query("PRAGMA table_info(study_logs)")
            .fetch_all(&pool)
            .await
            .unwrap();
        let names: Vec<String> = rows.iter().map(|r| r.get::<String, _>("name")).collect();
        assert_eq!(
            names,
            vec![
                "id",
                "mode",
                "subject",
                "topic",
                "focus_duration_seconds",
                "break_duration_seconds",
                "break_count"
            ]
        );
        let ledger_rows = sqlx::query(ledger_select_sql().as_str())
            .fetch_all(&pool)
            .await
            .unwrap();
        assert_eq!(ledger_rows.len(), 1);
        assert_eq!(ledger_rows[0].get::<i64, _>(0), 1);
        // Applying the set to an already-migrated database changes nothing.
        bootstrap(&pool).await.unwrap();
        let rows_after = sqlx::query("PRAGMA table_info(study_logs)")
            .fetch_all(&pool)
            .await
            .unwrap();
        assert_eq!(rows_after.len(), rows.len());
        let ledger_after = sqlx::query(ledger_select_sql().as_str())
            .fetch_all(&pool)
            .await
            .unwrap();
        assert_eq!(ledger_after.len(), 1);
    });
}

#[test]
fn insert_round_trip_preserves_the_six_fields() {
    rt().block_on(async {
        let pool = open_pool("/tmp/studyflow_roundtrip.db", 5).await.unwrap();
        reset(&pool).await;
        bootstrap(&pool).await.unwrap();
        let e = entry("focus", "Math", "Algebra", 1500, 300, 1);
        let st = prepare_insert(&e).unwrap();
        run_insert(&pool, &st).await.unwrap();
        let rows = sqlx::query(
            "SELECT mode, subject, topic, focus_duration_seconds, \
             break_duration_seconds, break_count FROM study_logs",
        )
        .fetch_all(&pool)
        .await
        .unwrap();
        assert_eq!(rows.len(), 1);
        let row = &rows[0];
        assert_eq!(row.get::<String, _>("mode"), "focus");
        assert_eq!(row.get::<String, _>("subject"), "Math");
        assert_eq!(row.get::<String, _>("topic"), "Algebra");
        assert_eq!(row.get::<i64, _>("focus_duration_seconds"), 1500);
        assert_eq!(row.get::<i64, _>("break_duration_seconds"), 300);
        assert_eq!(row.get::<i64, _>("break_count"), 1);
    });
}

#[test]
fn concurrent_inserts_each_land_exactly_once() {
    rt().block_on(async {
        let pool = open_pool("/tmp/studyflow_concurrent.db", 5).await.unwrap();
        reset(&pool).await;
        bootstrap(&pool).await.unwrap();
        let mut handles = Vec::new();
        for k in 0..8i64 {
            let pool = pool.clone();
            handles.push(tokio::spawn(async move {
                let e = entry("focus", &format!("Subject{k}"), "", 60 * k, 5 * k, k);
                let st = prepare_insert(&e)?;
                run_insert(&pool, &st).await
            }));
        }
        for h in handles {
            h.await.unwrap().unwrap();
        }
        let total: i64 = sqlx::query("SELECT COUNT(*) FROM study_logs")
            .fetch_one(&pool)
            .await
            .unwrap()
            .get(0);
        assert_eq!(total, 8);
        for k in 0..8i64 {
            let count: i64 = sqlx::query("SELECT COUNT(*) FROM study_logs WHERE subject = $1")
                .bind(format!("Subject{k}"))
                .fetch_one(&pool)
                .await
                .unwrap()
                .get(0);
            assert_eq!(count, 1, "each distinct payload must land exactly once");
        }
    });
}

#[test]
fn more_commands_than_the_pool_bound_all_complete() {
    rt().block_on(async {
        let pool = open_pool("/tmp/studyflow_poolbound.db", 2).await.unwrap();
        reset(&pool).await;
        bootstrap(&pool).await.unwrap();
        let mut handles = Vec::new();
        for k in 0..6i64 {
            let pool = pool.clone();
            handles.push(tokio::spawn(async move {
                // Hold a connection briefly so later callers must wait.
                let mut conn = pool.acquire().await.map_err(|e| e.to_string())?;
                sqlx::query("SELECT 1")
                    .fetch_one(&mut *conn)
                    .await
                    .map_err(|e| e.to_string())?;
                tokio::time::sleep(std::time::Duration::from_millis(30)).await;
                drop(conn);
                let e = entry("focus", &format!("Queue{k}"), "", k, 0, 0);
                let st = prepare_insert(&e).map_err(|err| err.message())?;
                run_insert(&pool, &st).await.map_err(|err| err.message())
            }));
        }
        for h in handles {
            h.await.unwrap().unwrap();
        }
        let total: i64 = sqlx::query("SELECT COUNT(*) FROM study_logs")
            .fetch_one(&pool)
            .await
            .unwrap()
            .get(0);
        assert_eq!(total, 6, "waiting callers must eventually complete, not error");
    });
}

#[test]
fn fatal_setup_surfaces_as_a_setup_error_and_degrades_storage() {
    rt().block_on(async {
        // /proc rejects file creation, standing in for a path with no write
        // permission.
        let attempt = open_pool("/proc/studyflow_nowrite/studyflow.db", 5).await;
        let failure = match attempt {
            Ok(_) => panic!("opening a database under /proc must fail"),
            Err(e) => SetupError::FileOpen(e.to_string()),
        };
        assert!(failure
            .message()
            .starts_with("could not open or create the database file: "));
        let mut status = StorageStatus::Starting;
        settle_bootstrap(&mut status, false);
        assert_eq!(status, StorageStatus::Failed);
        match admit_command(&status) {
            Err(CommandError::Unavailable) => (),
            _ => panic!("commands after a failed bootstrap must be refused"),
        }
    });
}

#[test]
fn a_failed_command_releases_its_connection_for_the_next_one() {
    rt().block_on(async {
        let pool = open_pool("/tmp/studyflow_release.db", 1).await.unwrap();
        reset(&pool).await;
        bootstrap(&pool).await.unwrap();
        // A statement against a missing table fails mid-execute.
        let outcome = match sqlx::query("INSERT INTO no_such_table (x) VALUES (1)")
            .execute(&pool)
            .await
        {
            Ok(done) => Ok(done.rows_affected()),
            Err(e) => Err(e.to_string()),
        };
        match complete_insert(outcome) {
            Err(CommandError::Database(_)) => (),
            _ => panic!("a database failure must surface as a command error"),
        }
        // The single pooled connection must be back: the next command works.
        let e = entry("focus", "Recovery", "", 10, 0, 0);
        let st = prepare_insert(&e).unwrap();
        run_insert(&pool, &st).await.unwrap();
        let total: i64 = sqlx::query("SELECT COUNT(*) FROM study_logs")
            .fetch_one(&pool)
            .await
            .unwrap()
            .get(0);
        assert_eq!(total, 1);
    });
}
