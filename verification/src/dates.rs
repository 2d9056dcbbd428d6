//! Time values carried through the records.

use vstd::prelude::*;

verus! {

/// A calendar date without a time zone, as `chrono` keeps it.
#[verifier::external_type_specification]
#[verifier::external_body]
pub struct ExNaiveDate(chrono::NaiveDate);

/// An instant in UTC: whole seconds since the Unix epoch and the
/// nanoseconds past that second (below 2_000_000_000, as `chrono` allows a
/// leap second there).
#[derive(Clone, Copy, Debug, PartialEq, Eq)]
pub struct UtcInstant {
    pub seconds: i64,
    pub nanoseconds: u32,
}

} // verus!
