//! Where a publisher is located.
use vstd::prelude::*;

verus! {

/// A city, with its state when there is one, and its country.
#[derive(Debug, Clone, PartialEq)]
pub struct LocationData {
    pub city: String,
    pub state: Option<String>,
    pub country: String,
}

} // verus!
