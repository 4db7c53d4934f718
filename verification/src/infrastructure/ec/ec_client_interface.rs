//! The response side of the e-commerce client interface.
use vstd::prelude::*;

verus! {

/// Marker for the typed responses that an e-commerce client hands back.
pub trait ECClientResponse {}

} // verus!
