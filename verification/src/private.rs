//! The seal that keeps the set of channel types closed.
use vstd::prelude::*;

verus! {

/// Implemented only by the channel types of this crate.
pub trait Sealed {}

impl Sealed for crate::chan::Samp16 {}

impl Sealed for crate::chan::Samp24 {}

} // verus!
