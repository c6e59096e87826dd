use vstd::prelude::*;

use chrono::NaiveDateTime;
use uuid::Uuid;

verus! {

/// A row of `events`.
#[derive(Debug)]
pub struct Event {
    pub id: Uuid,
    pub title: String,
    pub slug: String,
    pub description: Option<String>,
    pub desc_format: String,
    pub group_id: Uuid,
    pub venue_id: Option<Uuid>,
    pub photos: Vec<String>,
    pub source: Option<String>,
    pub source_link: Option<String>,
    pub start_time: NaiveDateTime,
    pub end_time: NaiveDateTime,
    pub created_at: NaiveDateTime,
    pub updated_at: NaiveDateTime,
}

/// A record to insert into `events`.
#[derive(Debug)]
pub struct NewEvent {
    pub title: String,
    pub slug: String,
    pub description: Option<String>,
    pub group_id: Option<Uuid>,
    pub desc_format: String,
    pub photos: Vec<String>,
    pub source: Option<String>,
    pub source_link: Option<String>,
    pub start_time: NaiveDateTime,
    pub end_time: NaiveDateTime,
}

} // verus!
