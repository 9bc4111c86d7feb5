//! A range of pages.
use vstd::prelude::*;

verus! {

/// First and last page of a cited part.
#[derive(Debug, Clone, Copy, PartialEq, Eq, Structural)]
pub struct PageRange {
    pub start: u32,
    pub end: u32,
}

} // verus!
