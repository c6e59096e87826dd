//! Content read from local files, and the database records made from it.
use vstd::prelude::*;

use chrono::NaiveDateTime;

use crate::db::models::{Initiative, NewEvent, NewEventSection, NewGoal, NewGroup, PgInterval};
use crate::text::markdown_format;

use super::{local_source, source_name};

verus! {

/// A group, from a file.
#[derive(Debug)]
pub struct LocalGroup {
    pub name: String,
    pub slug: String,
    pub description: String,
}

/// A section of an event, from a file.
#[derive(Debug)]
pub struct LocalEventSection {
    pub name: String,
    pub title: String,
    pub logo: Option<String>,
    pub description: String,
    pub start_time: NaiveDateTime,
    pub end_time: NaiveDateTime,
}

/// An event, from a file.
#[derive(Debug)]
pub struct LocalEvent {
    pub title: String,
    pub slug: String,
    pub description: String,
    pub group_slug: String,
    pub start_time: NaiveDateTime,
    pub end_time: NaiveDateTime,
}

/// An initiative, from a file.
#[derive(Debug)]
pub struct LocalInitiative {
    pub title: String,
    pub slug: String,
    pub description: String,
}

/// A goal of an initiative, from a file.
#[derive(Debug)]
pub struct LocalGoal {
    pub title: String,
    pub slug: String,
    pub description: String,
    pub target: i32,
    pub interval_in_minutes: u32,
}

/// `r` is the group record of the local group `g`: markdown, from "local".
pub open spec fn is_group_record_of_local(r: NewGroup, g: LocalGroup) -> bool {
    &&& r.name == g.name
    &&& r.slug == g.slug
    &&& r.description == Some(g.description)
    &&& r.desc_format@ == seq!['m', 'd']
    &&& r.source matches Some(s) && s@ == local_source()
    &&& r.source_link is None
}

/// `r` is the event record of the local event `e`, not yet in any group.
pub open spec fn is_event_record_of_local(r: NewEvent, e: LocalEvent) -> bool {
    &&& r.title == e.title
    &&& r.slug == e.slug
    &&& r.description == Some(e.description)
    &&& r.group_id is None
    &&& r.desc_format@ == seq!['m', 'd']
    &&& r.photos@.len() == 0
    &&& r.source matches Some(s) && s@ == local_source()
    &&& r.source_link is None
    &&& r.start_time == e.start_time
    &&& r.end_time == e.end_time
}

/// `r` is the section record of the local section `s`, not yet in any event.
pub open spec fn is_section_record_of_local(r: NewEventSection, s: LocalEventSection) -> bool {
    &&& r.name == s.name
    &&& r.title == s.title
    &&& r.logo == s.logo
    &&& r.description == Some(s.description)
    &&& r.desc_format@ == seq!['m', 'd']
    &&& r.start_time == s.start_time
    &&& r.end_time == s.end_time
    &&& r.event_id is None
}

/// `r` is the initiative row of the local initiative `li`.
pub open spec fn is_initiative_of_local(r: Initiative, li: LocalInitiative) -> bool {
    &&& r.title == li.title
    &&& r.slug == li.slug
    &&& r.source matches Some(s) && s@ == local_source()
    &&& r.description == Some(li.description)
    &&& r.desc_format@ == seq!['m', 'd']
}

/// Microseconds in `minutes` minutes.
pub open spec fn minutes_in_microseconds(minutes: u32) -> int {
    minutes * 60 * 1000000
}

/// `r` is the goal record of the local goal `lg`: it repeats every
/// `interval_in_minutes` minutes, and belongs to no initiative yet.
pub open spec fn is_goal_record_of_local(r: NewGoal, lg: LocalGoal) -> bool {
    &&& r.title == lg.title
    &&& r.slug == lg.slug
    &&& r.description == Some(lg.description)
    &&& r.desc_format@ == seq!['m', 'd']
    &&& r.initiative_slug is None
    &&& r.target == lg.target
    &&& r.iteration_interval matches Some(i) && i.microseconds == minutes_in_microseconds(
        lg.interval_in_minutes,
    ) && i.days == 0 && i.months == 0
}

impl NewGroup {
    /// The record of a group read from a local file.
    pub fn from_local(group: LocalGroup) -> (r: NewGroup)
        ensures
            is_group_record_of_local(r, group),
    {
        NewGroup {
            name: group.name,
            slug: group.slug,
            description: Some(group.description),
            desc_format: markdown_format(),
            source: Some(source_name()),
            source_link: None,
        }
    }
}

impl NewEvent {
    /// The record of an event read from a local file.
    pub fn from_local(event: LocalEvent) -> (r: NewEvent)
        ensures
            is_event_record_of_local(r, event),
    {
        NewEvent {
            title: event.title,
            slug: event.slug,
            description: Some(event.description),
            group_id: None,
            desc_format: markdown_format(),
            photos: Vec::new(),
            source: Some(source_name()),
            source_link: None,
            start_time: event.start_time,
            end_time: event.end_time,
        }
    }
}

impl NewEventSection {
    /// The record of an event section read from a local file.
    pub fn from_local(sec: LocalEventSection) -> (r: NewEventSection)
        ensures
            is_section_record_of_local(r, sec),
    {
        NewEventSection {
            name: sec.name,
            title: sec.title,
            logo: sec.logo,
            description: Some(sec.description),
            desc_format: markdown_format(),
            start_time: sec.start_time,
            end_time: sec.end_time,
            event_id: None,
        }
    }
}

impl Initiative {
    /// The row of an initiative read from a local file.
    pub fn from_local(li: LocalInitiative) -> (r: Initiative)
        ensures
            is_initiative_of_local(r, li),
    {
        Initiative {
            title: li.title,
            slug: li.slug,
            source: Some(source_name()),
            description: Some(li.description),
            desc_format: markdown_format(),
        }
    }
}

impl NewGoal {
    /// The record of a goal read from a local file.
    pub fn from_local(lg: LocalGoal) -> (r: NewGoal)
        ensures
            is_goal_record_of_local(r, lg),
    {
        let micros = (lg.interval_in_minutes as i64) * 60 * 1000000;
        NewGoal {
            title: lg.title,
            slug: lg.slug,
            description: Some(lg.description),
            desc_format: markdown_format(),
            initiative_slug: None,
            target: lg.target,
            iteration_interval: Some(PgInterval::from_microseconds(micros)),
        }
    }
}

/// A group read from a local file is stored as it is written: its name,
/// slug and description, the description in markdown, from the source
/// `local`, with no link back.
pub proof fn law_local_group_record_keeps_the_group(g: LocalGroup, r: NewGroup)
    requires
        is_group_record_of_local(r, g),
    ensures
        r.name == g.name,
        r.slug == g.slug,
        r.description == Some(g.description),
        r.desc_format@ == "md"@,
        r.source matches Some(s) && s@ == "local"@,
        r.source_link is None,
{
    reveal_strlit("md");
    reveal_strlit("local");
}

/// An event read from a local file is stored as it is written: its title,
/// slug and description, starting and ending when the file says, without
/// photos or a group yet, the description in markdown, from the source
/// `local`, with no link back.
pub proof fn law_local_event_record_keeps_the_event(e: LocalEvent, r: NewEvent)
    requires
        is_event_record_of_local(r, e),
    ensures
        r.title == e.title,
        r.slug == e.slug,
        r.description == Some(e.description),
        r.start_time == e.start_time,
        r.end_time == e.end_time,
        r.group_id is None,
        r.photos@.len() == 0,
        r.desc_format@ == "md"@,
        r.source matches Some(s) && s@ == "local"@,
        r.source_link is None,
{
    reveal_strlit("md");
    reveal_strlit("local");
}

/// A section of an event read from a local file is stored as it is
/// written: name, title, logo and description, starting and ending when the
/// file says, in no event yet, the description in markdown.
pub proof fn law_local_section_record_keeps_the_section(sec: LocalEventSection, r: NewEventSection)
    requires
        is_section_record_of_local(r, sec),
    ensures
        r.name == sec.name,
        r.title == sec.title,
        r.logo == sec.logo,
        r.description == Some(sec.description),
        r.start_time == sec.start_time,
        r.end_time == sec.end_time,
        r.event_id is None,
        r.desc_format@ == "md"@,
{
    reveal_strlit("md");
}

/// An initiative read from a local file is stored as it is written: title,
/// slug and description, in markdown, from the source `local`.
pub proof fn law_local_initiative_keeps_the_initiative(li: LocalInitiative, r: Initiative)
    requires
        is_initiative_of_local(r, li),
    ensures
        r.title == li.title,
        r.slug == li.slug,
        r.description == Some(li.description),
        r.desc_format@ == "md"@,
        r.source matches Some(s) && s@ == "local"@,
{
    reveal_strlit("md");
    reveal_strlit("local");
}

/// A goal read from a local file is stored as it is written: title, slug,
/// description (in markdown) and target, in no initiative yet, repeating
/// every `interval_in_minutes` minutes, that is `interval_in_minutes` times
/// sixty million microseconds, with no days or months.
pub proof fn law_local_goal_record_keeps_the_goal(lg: LocalGoal, r: NewGoal)
    requires
        is_goal_record_of_local(r, lg),
    ensures
        r.title == lg.title,
        r.slug == lg.slug,
        r.description == Some(lg.description),
        r.desc_format@ == "md"@,
        r.target == lg.target,
        r.initiative_slug is None,
        r.iteration_interval matches Some(i) && i.microseconds == lg.interval_in_minutes as int
            * 60_000_000 && i.days == 0 && i.months == 0,
{
    reveal_strlit("md");
}

} // verus!
