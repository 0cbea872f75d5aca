use releaser::{
    create_first_time_version, create_next_version, next_version_after, Release,
    resolve, GitHub, NextVersionOptions, ReleaseIntent, ReleaserError, Version, VersionBump,
};

fn v(text: &str) -> Version {
    Version::parse(text).unwrap()
}

#[test]
fn resolve_first_release_by_bump() {
    let cases = [
        (VersionBump::Major, "1.0.0"),
        (VersionBump::Minor, "0.1.0"),
        (VersionBump::Patch, "0.0.1"),
    ];
    for (kind, expected) in cases {
        let r = resolve(None, ReleaseIntent::Bump(kind)).unwrap();
        assert_eq!(r.to_string(), expected);
    }
}

#[test]
fn resolve_bumps_prior_version() {
    let prior = v("1.2.3");
    let cases = [
        (VersionBump::Major, "2.0.0"),
        (VersionBump::Minor, "1.3.0"),
        (VersionBump::Patch, "1.2.4"),
    ];
    for (kind, expected) in cases {
        let r = resolve(Some(prior), ReleaseIntent::Bump(kind)).unwrap();
        assert_eq!(r.to_string(), expected);
    }
}

#[test]
fn resolve_explicit_version_wins() {
    let target = v("9.9.9");
    for prior in [None, Some(v("1.2.3")), Some(v("20.0.0"))] {
        assert_eq!(resolve(prior, ReleaseIntent::Explicit(target)).unwrap(), target);
    }
}

#[test]
fn resolve_without_intent_fails() {
    assert!(matches!(
        resolve(None, ReleaseIntent::Neither),
        Err(ReleaserError::NoVersionOrBumpError)
    ));
    assert!(matches!(
        resolve(Some(v("1.0.0")), ReleaseIntent::Neither),
        Err(ReleaserError::NoVersionOrBumpError)
    ));
}

#[test]
fn resolve_overflow_is_an_error() {
    let prior = Version::forced(1, 2, u64::MAX);
    assert!(matches!(
        resolve(Some(prior), ReleaseIntent::Bump(VersionBump::Patch)),
        Err(ReleaserError::VersionOverflowError)
    ));
    assert_eq!(
        resolve(Some(prior), ReleaseIntent::Bump(VersionBump::Minor)).unwrap(),
        Version::forced(1, 3, 0)
    );
}

#[test]
fn options_prefer_explicit_version() {
    let opts = NextVersionOptions { version: Some(v("3.0.0")), bump: Some(VersionBump::Patch) };
    assert_eq!(opts.intent(), ReleaseIntent::Explicit(v("3.0.0")));
    let opts = NextVersionOptions { version: None, bump: Some(VersionBump::Minor) };
    assert_eq!(opts.intent(), ReleaseIntent::Bump(VersionBump::Minor));
    let opts = NextVersionOptions { version: None, bump: None };
    assert_eq!(opts.intent(), ReleaseIntent::Neither);
}

#[test]
fn first_and_next_version_from_options() {
    let bump = NextVersionOptions { version: None, bump: Some(VersionBump::Minor) };
    assert_eq!(create_first_time_version(&bump).unwrap().to_string(), "0.1.0");
    assert_eq!(create_next_version(&v("1.2.3"), &bump).unwrap().to_string(), "1.3.0");
    let none = NextVersionOptions { version: None, bump: None };
    assert!(matches!(create_first_time_version(&none), Err(ReleaserError::NoVersionOrBumpError)));
    assert!(matches!(
        create_next_version(&v("1.2.3"), &none),
        Err(ReleaserError::NoVersionOrBumpError)
    ));
}

#[test]
fn next_version_after_latest_tag() {
    let intent = ReleaseIntent::Bump(VersionBump::Patch);
    assert_eq!(next_version_after(Some("v1.2.3"), intent).unwrap().to_string(), "1.2.4");
    assert_eq!(next_version_after(None, intent).unwrap().to_string(), "0.0.1");
    match next_version_after(Some("release-1"), intent) {
        Err(ReleaserError::VersionParseError(t)) => assert_eq!(t, "release-1"),
        other => panic!("unexpected {:?}", other),
    }
}

#[test]
fn latest_release_version_reads_tag() {
    let g = GitHub::new("octo".to_string(), "tool".to_string(), None);
    assert_eq!(g.latest_release_version(None).unwrap(), None);
    assert_eq!(g.latest_release_version(Some("v0.3.1")).unwrap(), Some(v("0.3.1")));
    match g.latest_release_version(Some("nightly")) {
        Err(ReleaserError::VersionParseError(t)) => assert_eq!(t, "nightly"),
        other => panic!("unexpected {:?}", other),
    }
    let store = Release::GitHub(g);
    assert_eq!(store.version(Some("2.0.0")).unwrap(), Some(v("2.0.0")));
    assert_eq!(store.version(None).unwrap(), None);
}

#[test]
fn github_keeps_its_fields() {
    let g = GitHub::new("octo".to_string(), "tool".to_string(), Some("TOKEN_VAR".to_string()));
    assert_eq!(g.owner(), "octo");
    assert_eq!(g.repo(), "tool");
    assert_eq!(g.token().as_deref(), Some("TOKEN_VAR"));
}
