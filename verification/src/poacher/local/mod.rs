//! Poach content from wherever entropy is ran: markdown files with a TOML
//! front-matter, read as groups, events and initiatives.
use vstd::prelude::*;

pub mod cli;
pub mod config;
pub mod consumer;
pub mod models;
pub mod select;
pub mod utils;

pub use config::{CommonConfig, LocalPoacherConfig};
pub use models::{LocalEvent, LocalEventSection, LocalGoal, LocalGroup, LocalInitiative};

verus! {

/// The `source` of every record poached from local files.
pub const SOURCE: &'static str = "local";

/// `"local"`, the characters of [`SOURCE`].
pub open spec fn local_source() -> Seq<char> {
    seq!['l', 'o', 'c', 'a', 'l']
}

/// The value of [`SOURCE`] as an owned string.
pub fn source_name() -> (s: String)
    ensures
        s@ == local_source(),
{
    let s = SOURCE.to_owned();
    proof {
        reveal_strlit("local");
        assert(s@ =~= local_source());
    }
    s
}

/// One item read from a local file.
#[derive(Debug)]
pub enum LocalResult {
    Group(LocalGroup),
    Event(LocalEvent),
}

} // verus!
