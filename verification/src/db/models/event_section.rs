use vstd::prelude::*;

use chrono::NaiveDateTime;
use uuid::Uuid;

verus! {

/// A row of `event_sections`.
#[derive(Debug)]
pub struct EventSection {
    pub name: String,
    pub description: Option<String>,
    pub desc_format: String,
    pub start_time: NaiveDateTime,
    pub end_time: NaiveDateTime,
    pub event_id: String,
}

/// A record to insert into `event_sections`.
#[derive(Debug)]
pub struct NewEventSection {
    pub name: String,
    pub title: String,
    pub logo: Option<String>,
    pub description: Option<String>,
    pub desc_format: String,
    pub start_time: NaiveDateTime,
    pub end_time: NaiveDateTime,
    pub event_id: Option<Uuid>,
}

} // verus!
