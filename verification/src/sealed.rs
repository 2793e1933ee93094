//! The seal on the tag vocabulary: only this crate decides what is a
//! payload type and what is a tag, so that no two tags share an identity.

use vstd::prelude::*;

verus! {

/// Implemented by this crate alone.
pub trait Sealed {
}

} // verus!
