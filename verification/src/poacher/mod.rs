//! A Poacher when triggered, goes outside the system to poach some information.
//! e.g meetup poacher might visit meetup.com and poach upcoming events.
use vstd::prelude::*;

pub mod cli;
pub mod config;
pub mod consumer;
pub mod local;
pub mod meetup;

pub use config::{GroupsBlacklist, MeetupPoacherBlacklist};

use self::local::models::{is_event_record_of_local, is_group_record_of_local};
use self::local::{LocalEvent, LocalGroup};
use self::meetup::models::{is_event_record_of_meetup, is_group_record_of_meetup};
use self::meetup::{MeetupEvent, MeetupGroup, MeetupResult};
use crate::db::models::{NewEvent, NewGroup};

verus! {

/// `reqwest::Error`: a failed HTTP exchange.
#[verifier::external_type_specification]
#[verifier::external_body]
pub struct ExReqwestError(reqwest::Error);

/// `serde_json::Error`: JSON that could not be read.
#[verifier::external_type_specification]
#[verifier::external_body]
pub struct ExJsonError(serde_json::Error);

/// One item that a poacher found.
#[derive(Debug)]
pub enum PoacherResult {
    Meetup(MeetupResult),
    Local(local::LocalResult),
}

/// What a poacher sends to the consumer.
#[derive(Debug)]
pub enum PoacherMessage {
    ResultItem(PoacherResult),
    Error(PoacherError),
    Warning(PoacherWarning),
    End,
}

/// Why poaching an item failed.
#[derive(Debug)]
pub enum PoacherError {
    HttpError(reqwest::Error),
    JsonParseError(serde_json::Error, Option<String>),
    UnknownResponseError(String),
}

impl From<reqwest::Error> for PoacherError {
    /// A failed HTTP exchange.
    fn from(e: reqwest::Error) -> (r: Self) {
        PoacherError::HttpError(e)
    }
}

impl vstd::std_specs::convert::FromSpecImpl<reqwest::Error> for PoacherError {
    open spec fn obeys_from_spec() -> bool {
        true
    }

    open spec fn from_spec(e: reqwest::Error) -> Self {
        PoacherError::HttpError(e)
    }
}

impl From<serde_json::Error> for PoacherError {
    /// JSON that could not be read, with no context.
    fn from(e: serde_json::Error) -> (r: Self) {
        PoacherError::JsonParseError(e, None)
    }
}

impl vstd::std_specs::convert::FromSpecImpl<serde_json::Error> for PoacherError {
    open spec fn obeys_from_spec() -> bool {
        true
    }

    open spec fn from_spec(e: serde_json::Error) -> Self {
        PoacherError::JsonParseError(e, None)
    }
}

/// A doubt about what was poached that does not stop poaching.
#[derive(Debug)]
pub enum PoacherWarning {
    FailedPresumption(String),
}

/// Each poacher stamps the records it makes with a source of its own, and
/// clears what it stored before by that source: a record made from local
/// content never carries the source of a record made from meetup.com, for
/// groups and for events alike.
pub proof fn law_poacher_sources_distinct(
    local_group: LocalGroup,
    local_record: NewGroup,
    meetup_group: MeetupGroup,
    meetup_record: NewGroup,
    local_event: LocalEvent,
    local_event_record: NewEvent,
    meetup_event: MeetupEvent,
    meetup_event_record: NewEvent,
)
    requires
        is_group_record_of_local(local_record, local_group),
        is_group_record_of_meetup(meetup_record, meetup_group),
        is_event_record_of_local(local_event_record, local_event),
        is_event_record_of_meetup(meetup_event_record, meetup_event),
    ensures
        local_record.source != meetup_record.source,
        local_event_record.source != meetup_event_record.source,
{
    assert(local::local_source().len() != meetup::meetup_source().len());
}

} // verus!
