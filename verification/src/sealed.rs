//! What keeps the set of mount statuses closed.

use vstd::prelude::*;

verus! {

/// A trait that only this crate can implement, and so only this crate can
/// add a mount status.
pub trait Sealed {
}

} // verus!
