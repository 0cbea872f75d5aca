use releaser::{
    Action, AssetFile, AssetUpload, Event, Gate, NextVersionOptions, Phase, ReleaseFlow,
    ReleaseOptions, ReleaserError, Version, VersionBump,
};

fn options(auto_accept: bool, assets: &[&str], bump: Option<VersionBump>) -> ReleaseOptions {
    ReleaseOptions {
        auto_accept,
        assets: if assets.is_empty() {
            None
        } else {
            Some(assets.iter().map(|a| a.to_string()).collect())
        },
        next_version: NextVersionOptions { version: None, bump },
    }
}

fn start(opts: &ReleaseOptions) -> ReleaseFlow {
    let (flow, first) = ReleaseFlow::new(opts);
    assert!(matches!(first, Action::FetchLatest));
    flow
}

fn hello_file() -> AssetFile {
    AssetFile { name: "tool.tar.gz".to_string(), stem: "tool.tar".to_string(), bytes: b"hello".to_vec() }
}

const HELLO_SHA256: &str = "2cf24dba5fb0a30e26e83b2ac5b9e29e1b161e5c1fa7425e73043362938b9824";

#[test]
fn found_release_is_reused_without_create() {
    let opts = options(true, &["dist/tool.tar.gz"], Some(VersionBump::Patch));
    let mut flow = start(&opts);
    match flow.step(Event::Latest(Some("v1.2.3".to_string()))) {
        Action::LookUp(tag) => assert_eq!(tag, "v1.2.4"),
        other => panic!("unexpected {:?}", other),
    }
    let a = flow.step(Event::Found(Some(77)));
    assert!(matches!(a, Action::ReadAsset(0)));
    assert_eq!(flow.phase, Phase::AwaitRead(77, 0));
    match flow.step(Event::AssetRead(hello_file())) {
        Action::Upload(u) => assert_eq!(u.release_id, 77),
        other => panic!("unexpected {:?}", other),
    }
    assert!(matches!(flow.step(Event::Uploaded), Action::Finish(Ok(()))));
    assert_eq!(flow.phase, Phase::Done);
}

#[test]
fn absent_release_is_created_once() {
    let opts = options(true, &[], Some(VersionBump::Patch));
    let mut flow = start(&opts);
    let a = flow.step(Event::Latest(Some("v1.2.3".to_string())));
    assert!(matches!(a, Action::LookUp(_)));
    match flow.step(Event::Found(None)) {
        Action::Create { tag, title } => {
            assert_eq!(tag, "v1.2.4");
            assert_eq!(title, "Release v1.2.4");
        }
        other => panic!("unexpected {:?}", other),
    }
    assert!(matches!(flow.step(Event::Created(5)), Action::Finish(Ok(()))));
    assert!(!flow.accepts_event(&Event::Found(None)));
}

#[test]
fn first_release_asks_then_creates() {
    let opts = options(false, &[], Some(VersionBump::Major));
    let mut flow = start(&opts);
    assert!(matches!(flow.step(Event::Latest(None)), Action::Ask(Gate::FirstRelease)));
    match flow.step(Event::Answer(true)) {
        Action::LookUp(tag) => assert_eq!(tag, "v1.0.0"),
        other => panic!("unexpected {:?}", other),
    }
    match flow.step(Event::Found(None)) {
        Action::Ask(Gate::NewVersion(v)) => assert_eq!(v, Version::forced(1, 0, 0)),
        other => panic!("unexpected {:?}", other),
    }
    match flow.step(Event::Answer(true)) {
        Action::Create { tag, title } => {
            assert_eq!(tag, "v1.0.0");
            assert_eq!(title, "Release v1.0.0");
        }
        other => panic!("unexpected {:?}", other),
    }
}

#[test]
fn declining_first_release_stops() {
    let opts = options(false, &["a.bin"], Some(VersionBump::Minor));
    let mut flow = start(&opts);
    flow.step(Event::Latest(None));
    assert!(matches!(flow.step(Event::Answer(false)), Action::Finish(Ok(()))));
    assert_eq!(flow.phase, Phase::Done);
    assert!(!flow.accepts_event(&Event::Answer(true)));
}

#[test]
fn declining_new_version_stops_before_create() {
    let opts = options(false, &["a.bin"], Some(VersionBump::Minor));
    let mut flow = start(&opts);
    flow.step(Event::Latest(Some("0.4.0".to_string())));
    assert!(matches!(flow.step(Event::Found(None)), Action::Ask(Gate::NewVersion(_))));
    assert!(matches!(flow.step(Event::Answer(false)), Action::Finish(Ok(()))));
    assert_eq!(flow.phase, Phase::Done);
}

#[test]
fn declining_an_asset_stops_remaining_uploads() {
    let opts = options(false, &["a.bin", "b.bin"], Some(VersionBump::Minor));
    let mut flow = start(&opts);
    flow.step(Event::Latest(Some("0.4.0".to_string())));
    assert!(matches!(flow.step(Event::Found(Some(3))), Action::Ask(Gate::Asset(0))));
    assert!(matches!(flow.step(Event::Answer(true)), Action::ReadAsset(0)));
    assert!(matches!(flow.step(Event::AssetRead(hello_file())), Action::Upload(_)));
    assert!(matches!(flow.step(Event::Uploaded), Action::Ask(Gate::Asset(1))));
    assert!(matches!(flow.step(Event::Answer(false)), Action::Finish(Ok(()))));
    assert_eq!(flow.phase, Phase::Done);
}

#[test]
fn digest_sidecar_holds_sha256_of_bytes() {
    let opts = options(true, &["dist/tool.tar.gz"], Some(VersionBump::Patch));
    let mut flow = start(&opts);
    flow.step(Event::Latest(None));
    flow.step(Event::Found(Some(9)));
    match flow.step(Event::AssetRead(hello_file())) {
        Action::Upload(u) => {
            assert_eq!(u.name, "tool.tar.gz");
            assert_eq!(u.bytes, b"hello".to_vec());
            assert_eq!(u.digest_name, "tool.tar.sha256");
            assert_eq!(u.digest, HELLO_SHA256);
        }
        other => panic!("unexpected {:?}", other),
    }
}

#[test]
fn asset_upload_digest_of_empty_file() {
    let file = AssetFile { name: "empty".to_string(), stem: "empty".to_string(), bytes: vec![] };
    let u = AssetUpload::hashed(1, file);
    assert_eq!(u.digest_name, "empty.sha256");
    assert_eq!(u.digest, "e3b0c44298fc1c149afbf4c8996fb92427ae41e4649b934ca495991b7852b855");
}

#[test]
fn asset_upload_with_given_digest() {
    let u = AssetUpload::with_digest(4, hello_file(), "abc".to_string());
    assert_eq!(u.release_id, 4);
    assert_eq!(u.digest, "abc");
    assert_eq!(u.digest_name, "tool.tar.sha256");
}

#[test]
fn missing_intent_ends_with_error() {
    let opts = options(true, &[], None);
    let mut flow = start(&opts);
    assert!(matches!(
        flow.step(Event::Latest(None)),
        Action::Finish(Err(ReleaserError::NoVersionOrBumpError))
    ));
    assert_eq!(flow.phase, Phase::Done);
}

#[test]
fn unreadable_latest_tag_ends_with_error() {
    let opts = options(true, &[], Some(VersionBump::Patch));
    let mut flow = start(&opts);
    match flow.step(Event::Latest(Some("latest".to_string()))) {
        Action::Finish(Err(ReleaserError::VersionParseError(t))) => assert_eq!(t, "latest"),
        other => panic!("unexpected {:?}", other),
    }
}

#[test]
fn explicit_version_ignores_latest() {
    let opts = ReleaseOptions {
        auto_accept: true,
        assets: None,
        next_version: NextVersionOptions { version: Some(Version::forced(9, 9, 9)), bump: None },
    };
    let mut flow = start(&opts);
    match flow.step(Event::Latest(Some("v1.2.3".to_string()))) {
        Action::LookUp(tag) => assert_eq!(tag, "v9.9.9"),
        other => panic!("unexpected {:?}", other),
    }
}
