//! Events as the site's pages show them.
use vstd::prelude::*;

use chrono::NaiveDateTime;

use crate::db::models::Event;

verus! {

/// The text of `dt` formatted with `fmt`, as
/// `NaiveDateTime::format(fmt).to_string()` renders it.
pub uninterp spec fn chrono_format(dt: NaiveDateTime, fmt: Seq<char>) -> Seq<char>;

/// The long date of an event: weekday, month and day (`Sunday, July 18`).
pub open spec fn date_format() -> Seq<char> {
    "%A, %B %e"@
}

/// The time of day on a 12-hour clock (` 6:00pm`).
pub open spec fn clock_format() -> Seq<char> {
    "%l:%M%P"@
}

/// `NaiveDateTime::format(fmt).to_string()`. Only the two formats of the
/// event pages are passed: with a format chrono cannot render, `to_string`
/// would panic.
#[verifier::external_body]
fn format_datetime(dt: &NaiveDateTime, fmt: &str) -> (s: String)
    requires
        fmt@ == date_format() || fmt@ == clock_format(),
    ensures
        s@ == chrono_format(*dt, fmt@),
{
    dt.format(fmt).to_string()
}

/// An event as the home and events pages list it.
#[derive(Debug)]
pub struct CtxEvent {
    pub title: String,
    pub description: Option<String>,
    pub start_date: String,
    pub start_time: String,
    pub end_time: String,
    pub slug: String,
}

impl CtxEvent {
    /// The listing of a stored event: its date, and its start and end times.
    pub fn from_event(event: Event) -> (c: CtxEvent)
        ensures
            c.title == event.title,
            c.description == event.description,
            c.slug == event.slug,
            c.start_date@ == chrono_format(event.start_time, date_format()),
            c.start_time@ == chrono_format(event.start_time, clock_format()),
            c.end_time@ == chrono_format(event.end_time, clock_format()),
    {
        let start_date = format_datetime(&event.start_time, "%A, %B %e");
        let start_time = format_datetime(&event.start_time, "%l:%M%P");
        let end_time = format_datetime(&event.end_time, "%l:%M%P");
        CtxEvent {
            title: event.title,
            description: event.description,
            start_date,
            start_time,
            end_time,
            slug: event.slug,
        }
    }
}

} // verus!
