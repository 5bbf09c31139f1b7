//! Timing of operations, for log lines.

use vstd::prelude::*;
use vstd::string::*;
use crate::clock::unix_millis;

verus! {

/// Remembers when an operation started.
#[derive(Debug)]
pub struct Timer {
    start: u64,
    operation: String,
}

impl Timer {
    /// The name of the operation.
    pub closed spec fn operation(&self) -> Seq<char> {
        self.operation@
    }

    /// The clock reading at which the operation started.
    pub closed spec fn started(&self) -> u64 {
        self.start
    }

    /// A timer for `operation`, started now.
    pub fn new(operation: &str) -> (res: Timer)
        ensures
            res.operation() == operation@,
    {
        Timer { start: unix_millis(), operation: String::from_str(operation) }
    }

    /// A timer for `operation`, started at `now`.
    pub fn started_at(operation: &str, now: u64) -> (res: Timer)
        ensures
            res.operation() == operation@,
            res.started() == now,
    {
        Timer { start: now, operation: String::from_str(operation) }
    }

    /// The name of the operation.
    pub fn name(&self) -> (res: &str)
        ensures
            res@ == self.operation(),
    {
        self.operation.as_str()
    }

    /// How many milliseconds the operation has taken at `now`; zero where
    /// the clock went backwards.
    pub fn elapsed_at(&self, now: u64) -> (res: u64)
        ensures
            res == (if now >= self.started() {
                now - self.started()
            } else {
                0
            }),
    {
        if now >= self.start {
            now - self.start
        } else {
            0
        }
    }
}

} // verus!
