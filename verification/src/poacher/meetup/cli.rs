use vstd::prelude::*;

verus! {

/// The `poach meetup` sub-commands.
#[derive(Clone, Copy, Debug, PartialEq, Eq, Structural)]
pub enum MeetupCmd {
    Groups,
    Events,
}

} // verus!
