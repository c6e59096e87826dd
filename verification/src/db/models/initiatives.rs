use vstd::prelude::*;

verus! {

/// A row of `initiatives`.
#[derive(Debug)]
pub struct Initiative {
    pub slug: String,
    pub title: String,
    pub description: Option<String>,
    pub source: Option<String>,
    pub desc_format: String,
}

/// A PostgreSQL `interval`: microseconds, days and months, as
/// `diesel::data_types::PgInterval` holds it.
#[derive(Clone, Copy, Debug, PartialEq, Eq, Structural)]
pub struct PgInterval {
    pub microseconds: i64,
    pub days: i32,
    pub months: i32,
}

impl PgInterval {
    /// An interval of `microseconds` alone, as `PgInterval::from_microseconds`.
    pub fn from_microseconds(microseconds: i64) -> (r: PgInterval)
        ensures
            r.microseconds == microseconds,
            r.days == 0,
            r.months == 0,
    {
        PgInterval { microseconds, days: 0, months: 0 }
    }
}

/// A row of `goals`.
#[derive(Debug)]
pub struct Goal {
    pub slug: String,
    pub title: String,
    pub description: Option<String>,
    pub desc_format: String,
    pub initiative_slug: String,
    pub target: i32,
    pub iteration_interval: Option<PgInterval>,
}

/// A record to insert into `goals`.
#[derive(Debug)]
pub struct NewGoal {
    pub slug: String,
    pub title: String,
    pub description: Option<String>,
    pub desc_format: String,
    pub initiative_slug: Option<String>,
    pub target: i32,
    pub iteration_interval: Option<PgInterval>,
}

} // verus!
