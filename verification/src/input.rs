//! The closed set of input events the modules react to.

use vstd::prelude::*;

verus! {

/// One user input event, as delivered by the input layer.  `Other` is the
/// catch-all for keys the modules do not distinguish.
#[derive(Clone, Copy, Debug, PartialEq, Eq, Structural)]
pub enum Input {
    Yes,
    No,
    Resize,
    Other,
}

} // verus!
