//! Marker traits for the method layer above the codec.
//!
//! The trait for asynchronous method handlers lives with the dispatch
//! layer, which owns the futures that run them; the codec itself only
//! carries this marker.

use vstd::prelude::*;

verus! {

/// A service that can be keyed by a method name.
pub trait MethodService {

}

} // verus!
