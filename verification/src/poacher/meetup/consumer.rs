//! What the consumer stores of what was found on meetup.com.
use vstd::prelude::*;

use uuid::Uuid;

use crate::db::models::{NewEvent, NewGroup};
use crate::poacher::config::{is_blacklisted, is_listed};

use super::models::{is_event_record_of_meetup, is_group_record_of_meetup};
use super::{MeetupEvent, MeetupGroup};

verus! {

/// The record to store for a group found on meetup.com: none when the
/// group's slug is blacklisted.
pub fn group_record_unless_blacklisted(group: MeetupGroup, groups_blacklist: &Vec<String>) -> (r:
    Option<NewGroup>)
    ensures
        r is None <==> is_listed(groups_blacklist@, group.slug@),
        r matches Some(g) ==> is_group_record_of_meetup(g, group),
{
    if is_blacklisted(groups_blacklist, &group.slug) {
        None
    } else {
        Some(NewGroup::from_meetup(group))
    }
}

/// Whether an event found on meetup.com is left out: its group's slug is
/// blacklisted.
pub fn event_is_blacklisted(event: &MeetupEvent, groups_blacklist: &Vec<String>) -> (b: bool)
    ensures
        b == is_listed(groups_blacklist@, event.group_slug@),
{
    is_blacklisted(groups_blacklist, &event.group_slug)
}

/// The record of a meetup.com event, in the group stored as `group_id`.
pub fn event_record_in_group(event: MeetupEvent, group_id: Uuid) -> (r: NewEvent)
    ensures
        r.group_id == Some(group_id),
        is_event_record_of_meetup((NewEvent { group_id: None, ..r }), event),
{
    let mut new_event = NewEvent::from_meetup(event);
    new_event.group_id = Some(group_id);
    new_event
}

} // verus!
