//! Rows of the database tables, and the records inserted into them.
use vstd::prelude::*;

pub mod event;
pub mod event_section;
pub mod group;
pub mod initiatives;
pub mod meetup;

pub use event::{Event, NewEvent};
pub use event_section::{EventSection, NewEventSection};
pub use group::{Group, NewGroup};
pub use initiatives::{Goal, Initiative, NewGoal, PgInterval};
pub use meetup::{MeetupGroup, NewMeetupGroup};

use chrono::NaiveDateTime;
use uuid::Uuid;

verus! {

/// A row of `venues`.
#[derive(Debug)]
pub struct Venue {
    pub id: Uuid,
    pub address: String,
    pub directions: Option<String>,
    pub created_at: NaiveDateTime,
    pub updated_at: NaiveDateTime,
}

/// A record to insert into `venues`.
#[derive(Debug)]
pub struct NewVenue {
    pub address: String,
    pub directions: Option<String>,
}

} // verus!
