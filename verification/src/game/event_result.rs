//! What a round of input leaves the loop to do.

use vstd::prelude::*;

verus! {

/// `End`: the player asked to quit. `Continue`: the loop goes on.
#[derive(Clone, Copy, Debug, PartialEq, Eq, Structural)]
pub enum EventResult {
    End,
    Continue,
}

} // verus!
