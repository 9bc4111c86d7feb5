//! Errors reported by the citation model.
use vstd::prelude::*;

verus! {

/// A name component was empty.
#[derive(Debug, Clone, Copy, PartialEq, Eq, Structural)]
pub enum NameError {
    EmptyString,
}

/// Errors of citations and of a bibliography.
#[derive(Debug, Clone, PartialEq, Eq)]
pub enum CitationError {
    InvalidFormat(String),
    MissingField(String),
    ParseError(String),
    /// A citation with this identifier is already held.
    DuplicateCitationId(String),
    /// A name of an author has an empty component.
    EmptyNameComponent,
    /// The style has no rendering for this kind of media.
    UnsupportedStyleForMediaKind,
}

} // verus!
