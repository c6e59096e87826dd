use vstd::prelude::*;

use chrono::NaiveDateTime;
use uuid::Uuid;

verus! {

/// A row of `groups`.
#[derive(Debug)]
pub struct Group {
    pub id: Uuid,
    pub name: String,
    pub slug: String,
    pub description: Option<String>,
    pub desc_format: String,
    pub photos: Vec<String>,
    pub source: Option<String>,
    pub source_link: Option<String>,
    pub created_at: NaiveDateTime,
    pub updated_at: NaiveDateTime,
}

/// A record to insert into `groups`.
#[derive(Debug)]
pub struct NewGroup {
    pub name: String,
    pub slug: String,
    pub description: Option<String>,
    pub desc_format: String,
    pub source: Option<String>,
    pub source_link: Option<String>,
}

} // verus!
