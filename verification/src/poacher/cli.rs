use vstd::prelude::*;

use super::local::cli::Cmd as LocalPoacherCmd;
use super::meetup::cli::MeetupCmd;

verus! {

/// The `poach` sub-commands.
#[derive(Clone, Copy, Debug, PartialEq, Eq, Structural)]
pub enum PoachCmd {
    Meetup(MeetupCmd),
    Local(LocalPoacherCmd),
}

} // verus!
