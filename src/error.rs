use vstd::prelude::*;

verus! {

/// The errors the release logic reports.
#[derive(Debug, Clone)]
pub enum ReleaserError {
    /// A version text is not a `MAJOR.MINOR.PATCH` triple; holds the text as given.
    VersionParseError(String),
    /// A bump keyword is none of `major`, `minor`, `patch`; holds the text as given.
    VersionBumpParseError(String),
    /// Neither an explicit version nor a bump kind was requested.
    NoVersionOrBumpError,
    /// The bumped component of the prior version is already at its largest value.
    VersionOverflowError,
}

} // verus!
