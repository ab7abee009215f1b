use vstd::prelude::*;

verus! {

/// A UTC instant: seconds since the Unix epoch and the nanoseconds beyond them.
#[derive(Debug, Clone, Copy, PartialEq, Eq, Structural)]
pub struct Timestamp {
    /// Whole seconds since 1970-01-01T00:00:00Z
    pub secs: i64,
    /// Nanoseconds beyond `secs`
    pub nanos: u32,
}

} // verus!
