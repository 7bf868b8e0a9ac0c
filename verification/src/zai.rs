//! The Z.AI endpoint selection menu. Showing it is an interactive affair
//! that belongs to the embedding application; the type itself lives here.

use vstd::prelude::*;

verus! {

/// The Z.AI endpoint selector: a stateless menu for choosing between the
/// coding-plan endpoint and the Anthropic-compatible one.
#[derive(Debug, Clone, Copy, PartialEq, Eq, Structural)]
pub struct ZaiEndpointSelector;

impl ZaiEndpointSelector {
    pub fn new() -> (r: ZaiEndpointSelector)
        ensures
            r == ZaiEndpointSelector,
    {
        ZaiEndpointSelector
    }
}

} // verus!
