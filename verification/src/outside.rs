//! Types of outside crates that the data model carries through unchanged.
use vstd::prelude::*;

verus! {

/// `chrono::NaiveDateTime`: a date and time without a time zone.
#[verifier::external_type_specification]
#[verifier::external_body]
pub struct ExNaiveDateTime(chrono::NaiveDateTime);

/// `uuid::Uuid`: a database row identifier.
#[verifier::external_type_specification]
#[verifier::external_body]
pub struct ExUuid(uuid::Uuid);

} // verus!
