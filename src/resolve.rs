use vstd::prelude::*;

use crate::error::ReleaserError;
use crate::version::{starts_with_triple, version_text, without_v, Version, VersionBump};

verus! {

/// What the user asked the next version to be.
#[derive(Debug, Clone, Copy, PartialEq, Eq, Structural)]
pub enum ReleaseIntent {
    /// Exactly this version.
    Explicit(Version),
    /// The prior version bumped by this kind.
    Bump(VersionBump),
    /// Nothing was asked for.
    Neither,
}

/// The next version for a prior version (if any) and an intent.
pub open spec fn resolved(prior: Option<Version>, intent: ReleaseIntent) -> Result<
    Version,
    ReleaserError,
> {
    match intent {
        ReleaseIntent::Explicit(v) => Ok(v),
        ReleaseIntent::Bump(k) => match prior {
            None => Ok(Version::initial(k)),
            Some(p) => if p.can_bump(k) {
                Ok(p.bumped(k))
            } else {
                Err(ReleaserError::VersionOverflowError)
            },
        },
        ReleaseIntent::Neither => Err(ReleaserError::NoVersionOrBumpError),
    }
}

/// Decides the next version. An explicit version wins whatever came before; a
/// bump starts from the initial version when nothing was released, and bumps the
/// prior version otherwise; no intent at all is an error.
pub fn resolve(prior: Option<Version>, intent: ReleaseIntent) -> (r: Result<
    Version,
    ReleaserError,
>)
    ensures
        r == resolved(prior, intent),
{
    match intent {
        ReleaseIntent::Explicit(v) => Ok(v),
        ReleaseIntent::Bump(k) => match prior {
            None => Ok(Version::new(k)),
            Some(p) => if p.can_be_bumped(k) {
                Ok(p.bump(k))
            } else {
                Err(ReleaserError::VersionOverflowError)
            },
        },
        ReleaseIntent::Neither => Err(ReleaserError::NoVersionOrBumpError),
    }
}

/// The version selection of a command: an explicit version or a bump kind.
#[derive(Debug, Clone)]
pub struct NextVersionOptions {
    /// Force a version in form X.Y.Z
    pub version: Option<Version>,
    /// Component of the version to bump
    pub bump: Option<VersionBump>,
}

impl NextVersionOptions {
    /// The intent these options express; an explicit version takes precedence.
    pub open spec fn requested(self) -> ReleaseIntent {
        match self.version {
            Some(v) => ReleaseIntent::Explicit(v),
            None => match self.bump {
                Some(k) => ReleaseIntent::Bump(k),
                None => ReleaseIntent::Neither,
            },
        }
    }

    pub fn intent(&self) -> (r: ReleaseIntent)
        ensures
            r == self.requested(),
    {
        match self.version {
            Some(v) => ReleaseIntent::Explicit(v),
            None => match self.bump {
                Some(k) => ReleaseIntent::Bump(k),
                None => ReleaseIntent::Neither,
            },
        }
    }
}

/// The options of the `release` command.
#[derive(Debug, Clone)]
pub struct ReleaseOptions {
    /// Allow releaser to make decisions without asking
    pub auto_accept: bool,
    /// Attach provided assets to the release
    pub assets: Option<Vec<String>>,
    pub next_version: NextVersionOptions,
}

/// A command of the program.
#[derive(Debug, Clone)]
pub enum Commands {
    /// Create a new release and upload release assets
    Release(ReleaseOptions),
    /// Print the next version
    NextVersion(NextVersionOptions),
}

/// The program's options.
#[derive(Debug, Clone)]
pub struct Options {
    /// An owner of the repository
    pub owner: String,
    /// A repository name
    pub repo: String,
    /// A name of the environment variable that holds the access token
    pub token: Option<String>,
    pub command: Option<Commands>,
}

/// Reads a version given on the command line.
pub fn version_parse(val: &str) -> (r: Result<Version, ReleaserError>)
    ensures
        match Version::parsed(val@) {
            Some(v) => r == Ok::<Version, ReleaserError>(v),
            None => r is Err && r->Err_0 is VersionParseError
                && r->Err_0->VersionParseError_0@ == val@,
        },
        forall|a: nat, b: nat, c: nat|
            a <= u64::MAX && b <= u64::MAX && c <= u64::MAX && without_v(val@)
                == #[trigger] version_text(a, b, c) ==> r is Ok && r->Ok_0 == (Version {
                major: a as u64,
                minor: b as u64,
                patch: c as u64,
            }),
        r is Ok ==> starts_with_triple(
            without_v(val@),
            r->Ok_0.major as nat,
            r->Ok_0.minor as nat,
            r->Ok_0.patch as nat,
        ),
{
    Version::parse(val)
}

/// The version of the first release of a repository.
pub fn create_first_time_version(next_version: &NextVersionOptions) -> (r: Result<
    Version,
    ReleaserError,
>)
    ensures
        r == resolved(None, next_version.requested()),
{
    resolve(None, next_version.intent())
}

/// The version that follows `current_version`.
pub fn create_next_version(current_version: &Version, next_version: &NextVersionOptions) -> (r:
    Result<Version, ReleaserError>)
    ensures
        r == resolved(Some(*current_version), next_version.requested()),
{
    resolve(Some(*current_version), next_version.intent())
}

} // verus!

verus! {

/// The next version given the tag of the latest release, if there is one. The
/// tag is read as a version (one leading `v` dropped); a tag that does not read
/// as one is an error that holds the tag.
pub fn next_version_after(latest_tag: Option<&str>, intent: ReleaseIntent) -> (r: Result<
    Version,
    ReleaserError,
>)
    ensures
        match latest_tag {
            None => r == resolved(None, intent),
            Some(t) => match Version::parsed(t@) {
                Some(p) => r == resolved(Some(p), intent),
                None => r is Err && r->Err_0 is VersionParseError
                    && r->Err_0->VersionParseError_0@ == t@,
            },
        },
{
    match latest_tag {
        None => resolve(None, intent),
        Some(t) => match Version::parse(t) {
            Ok(p) => resolve(Some(p), intent),
            Err(e) => Err(e),
        },
    }
}

} // verus!
