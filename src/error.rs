use vstd::prelude::*;

verus! {

/// Failures of the template compiler and of the live update path.
#[derive(Clone, Copy, Debug, PartialEq, Eq, Structural)]
pub enum SignError {
    /// A recognised tag lacks a required attribute, or a numeric attribute is not a number.
    MalformedMarkup,
    /// A fill attribute is neither a known color name nor a six-digit hex literal.
    InvalidColorLiteral,
    /// No scene entity carries the tag that an update or a build needs.
    MissingTaggedEntity,
    /// More than one scene entity would carry a tag that must be unique.
    DuplicateTaggedEntity,
}

} // verus!
