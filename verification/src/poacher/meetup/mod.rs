//! Groups and events poached from meetup.com.
use vstd::prelude::*;

pub mod cli;
pub mod consumer;
pub mod json;
pub mod models;
pub mod search;
pub mod util;

pub use models::{MeetupEvent, MeetupGroup};

verus! {

/// The `source` of every record poached from meetup.com.
pub const SOURCE: &'static str = "meetup.com";

/// The characters of [`SOURCE`].
pub open spec fn meetup_source() -> Seq<char> {
    seq!['m', 'e', 'e', 't', 'u', 'p', '.', 'c', 'o', 'm']
}

/// The value of [`SOURCE`] as an owned string.
pub fn source_name() -> (s: String)
    ensures
        s@ == meetup_source(),
{
    let s = SOURCE.to_owned();
    proof {
        reveal_strlit("meetup.com");
        assert(s@ =~= meetup_source());
    }
    s
}

/// One item found on meetup.com.
#[derive(Debug)]
pub enum MeetupResult {
    Group(MeetupGroup),
    Event(MeetupEvent),
}

} // verus!
