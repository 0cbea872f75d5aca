use vstd::prelude::*;

use crate::error::ReleaserError;
use crate::version::Version;

verus! {

/// A repository on GitHub, with the name of the environment variable that holds
/// its access token, if any.
#[derive(Debug, Clone)]
pub struct GitHub {
    pub owner: String,
    pub repo: String,
    pub token: Option<String>,
}

impl GitHub {
    pub fn new(owner: String, repo: String, token: Option<String>) -> (r: GitHub)
        ensures
            r.owner@ == owner@,
            r.repo@ == repo@,
            r.token == token,
    {
        GitHub { owner, repo, token }
    }

    pub fn owner(&self) -> (r: &String)
        ensures
            r@ == self.owner@,
    {
        &self.owner
    }

    pub fn repo(&self) -> (r: &String)
        ensures
            r@ == self.repo@,
    {
        &self.repo
    }

    pub fn token(&self) -> (r: &Option<String>)
        ensures
            *r == self.token,
    {
        &self.token
    }

    /// The version of the repository's latest release, read from the tag that
    /// the store reported for it; no tag means that nothing was released yet.
    pub fn latest_release_version(&self, latest_tag: Option<&str>) -> (r: Result<
        Option<Version>,
        ReleaserError,
    >)
        ensures
            reports_latest(latest_tag, r),
    {
        match latest_tag {
            None => Ok(None),
            Some(t) => match Version::parse(t) {
                Ok(v) => Ok(Some(v)),
                Err(e) => Err(e),
            },
        }
    }
}

/// The release store of a repository.
#[derive(Debug, Clone)]
pub enum Release {
    GitHub(GitHub),
}

impl Release {
    /// The version of the latest release in this store, given the tag that the
    /// store reported for it.
    pub fn version(&self, latest_tag: Option<&str>) -> (r: Result<Option<Version>, ReleaserError>)
        ensures
            reports_latest(latest_tag, r),
    {
        match self {
            Release::GitHub(github) => github.latest_release_version(latest_tag),
        }
    }
}

/// Whether `r` is what the tag of the latest release says of the version
/// released last: none without a tag, the version the tag reads as, or an error
/// that holds a tag that does not read as a version.
pub open spec fn reports_latest(latest_tag: Option<&str>, r: Result<Option<Version>, ReleaserError>) -> bool {
    match latest_tag {
        None => r == Ok::<Option<Version>, ReleaserError>(None),
        Some(t) => match Version::parsed(t@) {
            Some(v) => r == Ok::<Option<Version>, ReleaserError>(Some(v)),
            None => r is Err && r->Err_0 is VersionParseError && r->Err_0->VersionParseError_0@
                == t@,
        },
    }
}

} // verus!
