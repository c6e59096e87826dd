use vstd::prelude::*;

verus! {

/// The `poach local` sub-commands.
#[derive(Clone, Copy, Debug, PartialEq, Eq, Structural)]
pub enum Cmd {
    All,
}

} // verus!
