//! Small things that more than one action uses.

use vstd::prelude::*;

verus! {

/// What removing a tree does when there is nothing at the path.
#[derive(Debug, Clone, Copy, PartialEq, Eq, Structural)]
pub enum OnMissing {
    /// Nothing to remove is success.
    Ignore,
    /// Nothing to remove is a failure.
    Error,
}

} // verus!
