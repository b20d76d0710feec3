//! The single mutation command: inserting one study-log row.
//!
//! The command is stateless and single-shot: validate the entry at the
//! boundary, bind its six fields positionally to one fixed parameterized
//! statement (values are only ever bound, never spliced into the text), and
//! convert the engine's outcome into the caller-facing result. The binding
//! and the outcome conversion are both exact, so the unverified shell only
//! ferries the statement to the engine and the outcome back.

use vstd::prelude::*;
use crate::entry::StudyLogEntry;
use crate::errors::CommandError;

verus! {

/// One value bound to a statement placeholder.
#[derive(Debug)]
pub enum BoundValue {
    Text(String),
    Integer(i64),
}

/// A parameterized statement ready to execute: fixed text plus the values
/// for its placeholders, in placeholder order.
#[derive(Debug)]
pub struct InsertStatement {
    pub sql: String,
    pub params: Vec<BoundValue>,
}

/// The fixed insert statement; all six values arrive through placeholders.
pub open spec fn spec_insert_sql() -> Seq<char> {
    "INSERT INTO study_logs (mode, subject, topic, focus_duration_seconds, break_duration_seconds, break_count) VALUES ($1, $2, $3, $4, $5, $6)"@
}

/// The six bound values of a valid entry, in placeholder order.
pub open spec fn spec_bound_params(e: StudyLogEntry) -> Seq<BoundValue> {
    seq![
        BoundValue::Text(e.mode),
        BoundValue::Text(e.subject),
        BoundValue::Text(e.topic),
        BoundValue::Integer(e.focus_duration_seconds),
        BoundValue::Integer(e.break_duration_seconds),
        BoundValue::Integer(e.break_count),
    ]
}

/// Validates the entry and binds it: exactly the valid entries yield a
/// statement, which is the fixed insert text with the six fields in
/// placeholder order; an invalid entry is rejected with its first offending
/// field and storage is never touched.
pub fn prepare_insert(entry: &StudyLogEntry) -> (r: Result<InsertStatement, CommandError>)
    ensures
        r is Ok <==> entry.is_valid(),
        r matches Ok(st) ==> st.sql@ == spec_insert_sql() && st.params@ == spec_bound_params(
            *entry,
        ),
        !entry.is_valid() ==> (r matches Err(e) && e == CommandError::Rejected(
            entry.first_fault(),
        )),
{
    match entry.validate() {
        Err(fault) => Err(CommandError::Rejected(fault)),
        Ok(()) => {
            let mut params: Vec<BoundValue> = Vec::new();
            params.push(BoundValue::Text(entry.mode.clone()));
            params.push(BoundValue::Text(entry.subject.clone()));
            params.push(BoundValue::Text(entry.topic.clone()));
            params.push(BoundValue::Integer(entry.focus_duration_seconds));
            params.push(BoundValue::Integer(entry.break_duration_seconds));
            params.push(BoundValue::Integer(entry.break_count));
            proof {
                assert(params@ =~= spec_bound_params(*entry));
            }
            let sql = String::from_str(
                "INSERT INTO study_logs (mode, subject, topic, focus_duration_seconds, break_duration_seconds, break_count) VALUES ($1, $2, $3, $4, $5, $6)",
            );
            Ok(InsertStatement { sql, params })
        },
    }
}

/// Converts the engine's outcome of one executed insert into the
/// caller-facing result: success passes through with no payload, and any
/// database-level failure becomes a recoverable, descriptive command error
/// — never a fault that could bring the process down.
pub fn complete_insert(outcome: Result<u64, String>) -> (r: Result<(), CommandError>)
    ensures
        r is Ok <==> outcome is Ok,
        outcome matches Err(d) ==> (r matches Err(e) && e matches CommandError::Database(m)
            && m == d),
{
    match outcome {
        Ok(_) => Ok(()),
        Err(detail) => Err(CommandError::Database(detail)),
    }
}

} // verus!
