//! The study-log record and its boundary validation.
//!
//! An entry is immutable once written and carries no key or timestamp: both
//! are assigned by the storage layer. Validation happens once, at the
//! command boundary, before storage is touched: labels must be non-empty
//! (the topic may be empty) and durations and counts must be non-negative.

use vstd::prelude::*;
use crate::errors::FieldFault;

verus! {

/// One record of a completed study/break cycle, as submitted by the caller.
#[derive(Debug)]
pub struct StudyLogEntry {
    /// Caller-defined cycle label, e.g. a focus or a break phase; non-empty.
    pub mode: String,
    /// What was studied; non-empty.
    pub subject: String,
    /// Finer-grained topic; may be empty.
    pub topic: String,
    /// Seconds spent focused; non-negative.
    pub focus_duration_seconds: i64,
    /// Seconds spent on breaks; non-negative.
    pub break_duration_seconds: i64,
    /// Number of breaks taken; non-negative.
    pub break_count: i64,
}

impl StudyLogEntry {
    /// An entry may be persisted exactly when this holds.
    pub open spec fn is_valid(self) -> bool {
        &&& self.mode@.len() > 0
        &&& self.subject@.len() > 0
        &&& self.focus_duration_seconds >= 0
        &&& self.break_duration_seconds >= 0
        &&& self.break_count >= 0
    }

    /// The first field that fails validation, in the fixed checking order;
    /// meaningful only when the entry is invalid.
    pub open spec fn first_fault(self) -> FieldFault {
        if self.mode@.len() == 0 {
            FieldFault::EmptyMode
        } else if self.subject@.len() == 0 {
            FieldFault::EmptySubject
        } else if self.focus_duration_seconds < 0 {
            FieldFault::NegativeFocusDuration
        } else if self.break_duration_seconds < 0 {
            FieldFault::NegativeBreakDuration
        } else {
            FieldFault::NegativeBreakCount
        }
    }

    /// Builds an entry from the six caller-supplied fields, unchecked; the
    /// command boundary validates before anything is persisted.
    pub fn new(
        mode: String,
        subject: String,
        topic: String,
        focus_duration_seconds: i64,
        break_duration_seconds: i64,
        break_count: i64,
    ) -> (e: Self)
        ensures
            e.mode == mode,
            e.subject == subject,
            e.topic == topic,
            e.focus_duration_seconds == focus_duration_seconds,
            e.break_duration_seconds == break_duration_seconds,
            e.break_count == break_count,
    {
        StudyLogEntry {
            mode,
            subject,
            topic,
            focus_duration_seconds,
            break_duration_seconds,
            break_count,
        }
    }

    /// Checks the entry against the boundary rules: accepts exactly the
    /// valid entries and otherwise names the first offending field.
    pub fn validate(&self) -> (r: Result<(), FieldFault>)
        ensures
            r is Ok <==> self.is_valid(),
            r is Err ==> r == Err::<(), FieldFault>(self.first_fault()),
    {
        if self.mode.as_str().is_empty() {
            Err(FieldFault::EmptyMode)
        } else if self.subject.as_str().is_empty() {
            Err(FieldFault::EmptySubject)
        } else if self.focus_duration_seconds < 0 {
            Err(FieldFault::NegativeFocusDuration)
        } else if self.break_duration_seconds < 0 {
            Err(FieldFault::NegativeBreakDuration)
        } else if self.break_count < 0 {
            Err(FieldFault::NegativeBreakCount)
        } else {
            Ok(())
        }
    }
}

} // verus!
