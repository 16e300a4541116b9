//! The options of a run.

use vstd::prelude::*;

verus! {

/// What the run is to do with the AOT cache.
#[derive(Clone, Copy, Debug, PartialEq, Eq, Structural)]
pub enum RecordMode {
    /// Use a valid cache, and record one otherwise.
    Normal,
    /// Only tell whether the cache is valid.
    Check,
    /// Use a valid cache, and fail otherwise.
    OnlyUse,
    /// Use a valid cache, and go without one otherwise.
    NoRecord,
    /// Record a cache unless there is a valid one, and stop then.
    OnlyRecord,
    /// Record a cache whether or not there is one.
    ForceRecord,
    /// Go without a cache.
    NoAot,
}

impl RecordMode {
    /// Whether the run is for recording alone.
    pub fn is_record(self) -> (r: bool)
        ensures
            r == (self == RecordMode::OnlyRecord),
    {
        self == RecordMode::OnlyRecord
    }
}

/// The options of a run, as they were given.
#[derive(Debug, PartialEq, Eq)]
pub struct ArgOptions {
    pub jar: String,
    pub jvm_args: Vec<String>,
    pub app_args: Vec<String>,
    pub record: RecordMode,
    pub compat: bool,
}

} // verus!
