//! Groups and events as meetup.com describes them, and the database records
//! made from them.
use vstd::prelude::*;

use chrono::NaiveDateTime;

use crate::db::models::{NewEvent, NewGroup};
use crate::text::text_format;

use super::{meetup_source, source_name};

verus! {

/// A group found on meetup.com.
#[derive(Debug)]
pub struct MeetupGroup {
    pub id: String,
    pub slug: String,
    pub name: String,
    pub link: String,
    pub description: String,
    pub city: String,
    pub state: String,
    pub country: String,
    pub is_private: bool,
    pub photo: Option<String>,
}

/// An event found on meetup.com.
#[derive(Debug)]
pub struct MeetupEvent {
    pub id: String,
    pub slug: String,
    pub group_slug: String,
    pub title: String,
    pub description: Option<String>,
    pub start_time: NaiveDateTime,
    pub end_time: NaiveDateTime,
    pub is_online: bool,
    /// The fee, as the JSON number that meetup.com gives.
    pub charges: Option<serde_json::Number>,
    pub currency: Option<String>,
    pub link: String,
    pub venue: Option<String>,
}

/// `r` is the group record of the meetup.com group `g`: plain text, from
/// "meetup.com", linking back to the group's page.
pub open spec fn is_group_record_of_meetup(r: NewGroup, g: MeetupGroup) -> bool {
    &&& r.name == g.name
    &&& r.slug == g.slug
    &&& r.description == Some(g.description)
    &&& r.desc_format@ == seq!['t', 'e', 'x', 't']
    &&& r.source matches Some(s) && s@ == meetup_source()
    &&& r.source_link == Some(g.link)
}

/// `r` is the event record of the meetup.com event `e`, not yet in any group.
pub open spec fn is_event_record_of_meetup(r: NewEvent, e: MeetupEvent) -> bool {
    &&& r.title == e.title
    &&& r.slug == e.slug
    &&& r.group_id is None
    &&& r.description == e.description
    &&& r.desc_format@ == seq!['t', 'e', 'x', 't']
    &&& r.photos@.len() == 0
    &&& r.source matches Some(s) && s@ == meetup_source()
    &&& r.source_link == Some(e.link)
    &&& r.start_time == e.start_time
    &&& r.end_time == e.end_time
}

impl NewGroup {
    /// The record of a group found on meetup.com.
    pub fn from_meetup(group: MeetupGroup) -> (r: NewGroup)
        ensures
            is_group_record_of_meetup(r, group),
    {
        NewGroup {
            name: group.name,
            slug: group.slug,
            description: Some(group.description),
            desc_format: text_format(),
            source: Some(source_name()),
            source_link: Some(group.link),
        }
    }
}

impl NewEvent {
    /// The record of an event found on meetup.com.
    pub fn from_meetup(event: MeetupEvent) -> (r: NewEvent)
        ensures
            is_event_record_of_meetup(r, event),
    {
        NewEvent {
            title: event.title,
            slug: event.slug,
            group_id: None,
            description: event.description,
            desc_format: text_format(),
            photos: Vec::new(),
            source: Some(source_name()),
            source_link: Some(event.link),
            start_time: event.start_time,
            end_time: event.end_time,
        }
    }
}

/// A group found on meetup.com is stored as meetup.com describes it: its
/// name, slug and description, the description in plain text, from the
/// source `meetup.com`, linking back to the group's page.
pub proof fn law_meetup_group_record_keeps_the_group(g: MeetupGroup, r: NewGroup)
    requires
        is_group_record_of_meetup(r, g),
    ensures
        r.name == g.name,
        r.slug == g.slug,
        r.description == Some(g.description),
        r.desc_format@ == "text"@,
        r.source matches Some(s) && s@ == "meetup.com"@,
        r.source_link == Some(g.link),
{
    reveal_strlit("text");
    reveal_strlit("meetup.com");
}

/// An event found on meetup.com is stored as meetup.com describes it: its
/// title, slug and description, starting when it starts and ending when it
/// ends, without photos or a group yet, the description in plain text, from
/// the source `meetup.com`, linking back to the event's page.
pub proof fn law_meetup_event_record_keeps_the_event(e: MeetupEvent, r: NewEvent)
    requires
        is_event_record_of_meetup(r, e),
    ensures
        r.title == e.title,
        r.slug == e.slug,
        r.description == e.description,
        r.start_time == e.start_time,
        r.end_time == e.end_time,
        r.group_id is None,
        r.photos@.len() == 0,
        r.desc_format@ == "text"@,
        r.source matches Some(s) && s@ == "meetup.com"@,
        r.source_link == Some(e.link),
{
    reveal_strlit("text");
    reveal_strlit("meetup.com");
}

} // verus!
