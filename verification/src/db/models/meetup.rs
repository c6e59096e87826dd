//! Rows of the meetup.com tables that earlier versions of the site kept.
use vstd::prelude::*;

verus! {

/// A row of `meetup_groups`.
#[derive(Debug)]
pub struct MeetupGroup {
    pub id: String,
    pub name: String,
    pub link: String,
    pub description: String,
    pub city: String,
    pub state: String,
    pub country: String,
    pub is_private: bool,
    pub member_count: i32,
    pub photo: String,
}

/// A record to insert into `meetup_groups`.
#[derive(Debug)]
pub struct NewMeetupGroup {
    pub id: String,
    pub name: String,
    pub link: String,
    pub description: String,
    pub city: String,
    pub state: String,
    pub country: String,
    pub is_private: bool,
    pub member_count: i32,
    pub photo: String,
}

} // verus!
