//! The entropy library: the data model of a community website (groups,
//! events, initiatives), the rules that turn poached content (meetup.com
//! results, local markdown files with a TOML front-matter) into database
//! records, and the configuration defaults.
use vstd::prelude::*;

pub mod cli;
pub mod db;
pub mod outside;
pub mod poacher;
pub mod storage;
pub mod text;
pub mod web;

verus! {

} // verus!
