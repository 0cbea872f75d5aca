use vstd::prelude::*;

use crate::error::ReleaserError;
use crate::resolve::{next_version_after, resolve, resolved, ReleaseIntent, ReleaseOptions};
use crate::version::Version;

verus! {

/// What `sha256::digest` makes of some bytes: their SHA-256 digest in hex.
pub uninterp spec fn sha256_hex_of(b: Seq<u8>) -> Seq<char>;

/// Relies on `sha256::digest`: the hex SHA-256 digest of the bytes, which
/// depends on the bytes alone.
#[verifier::external_body]
fn sha256_hex(b: &Vec<u8>) -> (r: String)
    ensures
        r@ == sha256_hex_of(b@),
{
    sha256::digest(b.as_slice())
}

/// The tag of a release of version `v`.
pub open spec fn tag_text(v: Version) -> Seq<char> {
    seq!['v'] + v.text()
}

/// The title of a release of version `v`.
pub open spec fn title_text(v: Version) -> Seq<char> {
    "Release "@ + tag_text(v)
}

/// The name of the digest sidecar of an asset whose file name has stem `stem`.
pub open spec fn digest_name_text(stem: Seq<char>) -> Seq<char> {
    stem + ".sha256"@
}

/// A local file to attach to a release, as read from disk.
#[derive(Debug, Clone)]
pub struct AssetFile {
    /// The file's name.
    pub name: String,
    /// The file's name without its extension.
    pub stem: String,
    /// The file's contents.
    pub bytes: Vec<u8>,
}

/// The two uploads of one asset: the file under its own name, then its hex
/// digest under `<stem>.sha256`.
#[derive(Debug, Clone)]
pub struct AssetUpload {
    pub release_id: u64,
    pub name: String,
    pub bytes: Vec<u8>,
    pub digest_name: String,
    pub digest: String,
}

impl AssetUpload {
    /// The uploads of `file` to release `release_id`, given the file's digest.
    pub fn with_digest(release_id: u64, file: AssetFile, digest: String) -> (r: AssetUpload)
        ensures
            r.release_id == release_id,
            r.name@ == file.name@,
            r.bytes@ == file.bytes@,
            r.digest_name@ == digest_name_text(file.stem@),
            r.digest@ == digest@,
    {
        let mut digest_name = file.stem;
        digest_name.append(".sha256");
        AssetUpload { release_id, name: file.name, bytes: file.bytes, digest_name, digest }
    }

    /// The uploads of `file` to release `release_id`, with the file's SHA-256 digest.
    pub fn hashed(release_id: u64, file: AssetFile) -> (r: AssetUpload)
        ensures
            r.release_id == release_id,
            r.name@ == file.name@,
            r.bytes@ == file.bytes@,
            r.digest_name@ == digest_name_text(file.stem@),
            r.digest@ == sha256_hex_of(file.bytes@),
    {
        let digest = sha256_hex(&file.bytes);
        AssetUpload::with_digest(release_id, file, digest)
    }
}

/// A point where the user is asked to confirm before the flow goes on.
#[derive(Debug, Clone, Copy, PartialEq, Eq, Structural)]
pub enum Gate {
    /// No release exists yet: create the first one?
    FirstRelease,
    /// Release this new version?
    NewVersion(Version),
    /// Upload the asset at this index?
    Asset(usize),
}

/// Where a release run stands.
#[derive(Debug, Clone, Copy, PartialEq, Eq, Structural)]
pub enum Phase {
    /// Waiting for the latest release.
    AwaitLatest,
    /// Waiting for the answer to `Gate::FirstRelease`.
    ConfirmFirst,
    /// Waiting for the release tagged with this version, if any.
    AwaitLookup(Version),
    /// Waiting for the answer to `Gate::NewVersion`.
    ConfirmCreate(Version),
    /// Waiting for the release of this version to be created.
    AwaitCreate(Version),
    /// Waiting for the answer to `Gate::Asset` for this release and asset.
    ConfirmAsset(u64, usize),
    /// Waiting for the contents of this asset.
    AwaitRead(u64, usize),
    /// Waiting for the uploads of this asset to finish.
    AwaitUpload(u64, usize),
    /// The run is over.
    Done,
}

/// What the outside world reports back to the flow.
#[derive(Debug, Clone)]
pub enum Event {
    /// The tag of the latest release, or none when there is no release.
    Latest(Option<String>),
    /// The user's answer at a gate.
    Answer(bool),
    /// The id of the release with the looked-up tag, or none.
    Found(Option<u64>),
    /// The id of the release just created.
    Created(u64),
    /// The asset that was asked for, read from disk.
    AssetRead(AssetFile),
    /// Both uploads of the current asset succeeded.
    Uploaded,
}

/// What the flow asks the outside world to do next.
#[derive(Debug)]
pub enum Action {
    /// Fetch the latest release.
    FetchLatest,
    /// Ask the user to confirm at a gate.
    Ask(Gate),
    /// Look up the release with this tag.
    LookUp(String),
    /// Create a release with this tag and title.
    Create { tag: String, title: String },
    /// Read the asset at this index.
    ReadAsset(usize),
    /// Upload an asset and then its digest.
    Upload(AssetUpload),
    /// Stop; the run ends with this result.
    Finish(Result<(), ReleaserError>),
}

/// One run of the release command: it finds the next version, reuses the
/// release of that version or creates it, then uploads the assets in order.
#[derive(Debug, Clone)]
pub struct ReleaseFlow {
    pub intent: ReleaseIntent,
    pub auto_accept: bool,
    pub asset_count: usize,
    pub phase: Phase,
}

/// Whether the phase lies after the release was found or created.
pub open spec fn past_creation(p: Phase) -> bool {
    p is ConfirmAsset || p is AwaitRead || p is AwaitUpload || p is Done
}

impl ReleaseFlow {
    /// Whether the flow, in its current phase, waits for this event.
    pub open spec fn accepts(self, e: Event) -> bool {
        match self.phase {
            Phase::AwaitLatest => e is Latest,
            Phase::ConfirmFirst => e is Answer,
            Phase::AwaitLookup(_) => e is Found,
            Phase::ConfirmCreate(_) => e is Answer,
            Phase::AwaitCreate(_) => e is Created,
            Phase::ConfirmAsset(_, _) => e is Answer,
            Phase::AwaitRead(_, _) => e is AssetRead,
            Phase::AwaitUpload(_, _) => e is Uploaded,
            Phase::Done => false,
        }
    }

    /// The run stops here successfully.
    pub open spec fn stops(next: ReleaseFlow, a: Action) -> bool {
        next.phase == Phase::Done && a == Action::Finish(Ok(()))
    }

    /// With the next version decided (or failed), the flow looks up its tag
    /// (or stops with the error).
    pub open spec fn settles(next: ReleaseFlow, a: Action, res: Result<Version, ReleaserError>) -> bool {
        match res {
            Ok(v) => next.phase == Phase::AwaitLookup(v) && a is LookUp && a->LookUp_0@
                == tag_text(v),
            Err(e) => next.phase == Phase::Done && a == Action::Finish(Err(e)),
        }
    }

    /// The flow creates the release of version `v`.
    pub open spec fn creates(next: ReleaseFlow, a: Action, v: Version) -> bool {
        &&& next.phase == Phase::AwaitCreate(v)
        &&& a is Create
        &&& a->Create_tag@ == tag_text(v)
        &&& a->Create_title@ == title_text(v)
    }

    /// The flow goes on with asset `i` of release `id`, or stops when no asset is left.
    pub open spec fn goes_to_asset(self, next: ReleaseFlow, a: Action, id: u64, i: int) -> bool {
        if i >= self.asset_count {
            ReleaseFlow::stops(next, a)
        } else if self.auto_accept {
            next.phase == Phase::AwaitRead(id, i as usize) && a == Action::ReadAsset(i as usize)
        } else {
            next.phase == Phase::ConfirmAsset(id, i as usize) && a == Action::Ask(
                Gate::Asset(i as usize),
            )
        }
    }

    /// One step of the flow: from `self`, event `e` leads to `next`, and the
    /// flow asks for `a`.
    pub open spec fn transition(self, e: Event, next: ReleaseFlow, a: Action) -> bool {
        &&& next.intent == self.intent
        &&& next.auto_accept == self.auto_accept
        &&& next.asset_count == self.asset_count
        &&& match (self.phase, e) {
            (Phase::AwaitLatest, Event::Latest(None)) => if self.auto_accept {
                ReleaseFlow::settles(next, a, resolved(None, self.intent))
            } else {
                next.phase == Phase::ConfirmFirst && a == Action::Ask(Gate::FirstRelease)
            },
            (Phase::AwaitLatest, Event::Latest(Some(t))) => match Version::parsed(t@) {
                Some(p) => ReleaseFlow::settles(next, a, resolved(Some(p), self.intent)),
                None => next.phase == Phase::Done && a is Finish && a->Finish_0 is Err
                    && a->Finish_0->Err_0 is VersionParseError
                    && a->Finish_0->Err_0->VersionParseError_0@ == t@,
            },
            (Phase::ConfirmFirst, Event::Answer(yes)) => if yes {
                ReleaseFlow::settles(next, a, resolved(None, self.intent))
            } else {
                ReleaseFlow::stops(next, a)
            },
            (Phase::AwaitLookup(_), Event::Found(Some(id))) => self.goes_to_asset(next, a, id, 0),
            (Phase::AwaitLookup(v), Event::Found(None)) => if self.auto_accept {
                ReleaseFlow::creates(next, a, v)
            } else {
                next.phase == Phase::ConfirmCreate(v) && a == Action::Ask(Gate::NewVersion(v))
            },
            (Phase::ConfirmCreate(v), Event::Answer(yes)) => if yes {
                ReleaseFlow::creates(next, a, v)
            } else {
                ReleaseFlow::stops(next, a)
            },
            (Phase::AwaitCreate(_), Event::Created(id)) => self.goes_to_asset(next, a, id, 0),
            (Phase::ConfirmAsset(id, i), Event::Answer(yes)) => if yes {
                next.phase == Phase::AwaitRead(id, i) && a == Action::ReadAsset(i)
            } else {
                ReleaseFlow::stops(next, a)
            },
            (Phase::AwaitRead(id, i), Event::AssetRead(f)) => {
                &&& next.phase == Phase::AwaitUpload(id, i)
                &&& a is Upload
                &&& a->Upload_0.release_id == id
                &&& a->Upload_0.name@ == f.name@
                &&& a->Upload_0.bytes@ == f.bytes@
                &&& a->Upload_0.digest_name@ == digest_name_text(f.stem@)
                &&& a->Upload_0.digest@ == sha256_hex_of(f.bytes@)
            },
            (Phase::AwaitUpload(id, i), Event::Uploaded) => self.goes_to_asset(next, a, id, i + 1),
            _ => false,
        }
    }

    /// A run of the release command with the given options; the first thing to
    /// do is to fetch the latest release.
    pub fn new(release_options: &ReleaseOptions) -> (r: (ReleaseFlow, Action))
        ensures
            r.0.intent == release_options.next_version.requested(),
            r.0.auto_accept == release_options.auto_accept,
            r.0.asset_count == match release_options.assets {
                Some(v) => v@.len(),
                None => 0,
            },
            r.0.phase == Phase::AwaitLatest,
            r.1 == Action::FetchLatest,
    {
        let asset_count = match &release_options.assets {
            Some(v) => v.len(),
            None => 0,
        };
        let flow = ReleaseFlow {
            intent: release_options.next_version.intent(),
            auto_accept: release_options.auto_accept,
            asset_count,
            phase: Phase::AwaitLatest,
        };
        (flow, Action::FetchLatest)
    }

    /// Whether the flow waits for this event.
    pub fn accepts_event(&self, e: &Event) -> (r: bool)
        ensures
            r == self.accepts(*e),
    {
        match self.phase {
            Phase::AwaitLatest => matches!(e, Event::Latest(_)),
            Phase::ConfirmFirst => matches!(e, Event::Answer(_)),
            Phase::AwaitLookup(_) => matches!(e, Event::Found(_)),
            Phase::ConfirmCreate(_) => matches!(e, Event::Answer(_)),
            Phase::AwaitCreate(_) => matches!(e, Event::Created(_)),
            Phase::ConfirmAsset(_, _) => matches!(e, Event::Answer(_)),
            Phase::AwaitRead(_, _) => matches!(e, Event::AssetRead(_)),
            Phase::AwaitUpload(_, _) => matches!(e, Event::Uploaded),
            Phase::Done => false,
        }
    }

    fn settle(&mut self, res: Result<Version, ReleaserError>) -> (a: Action)
        ensures
            final(self).intent == old(self).intent,
            final(self).auto_accept == old(self).auto_accept,
            final(self).asset_count == old(self).asset_count,
            ReleaseFlow::settles(*final(self), a, res),
    {
        match res {
            Ok(v) => {
                self.phase = Phase::AwaitLookup(v);
                Action::LookUp(tag_of(&v))
            },
            Err(e) => {
                self.phase = Phase::Done;
                Action::Finish(Err(e))
            },
        }
    }

    fn stop(&mut self) -> (a: Action)
        ensures
            final(self).intent == old(self).intent,
            final(self).auto_accept == old(self).auto_accept,
            final(self).asset_count == old(self).asset_count,
            ReleaseFlow::stops(*final(self), a),
    {
        self.phase = Phase::Done;
        Action::Finish(Ok(()))
    }

    fn create(&mut self, v: Version) -> (a: Action)
        ensures
            final(self).intent == old(self).intent,
            final(self).auto_accept == old(self).auto_accept,
            final(self).asset_count == old(self).asset_count,
            ReleaseFlow::creates(*final(self), a, v),
    {
        self.phase = Phase::AwaitCreate(v);
        let tag = tag_of(&v);
        let mut title = "Release ".to_owned();
        title.append(tag.as_str());
        Action::Create { tag, title }
    }

    fn to_asset(&mut self, id: u64, i: usize) -> (a: Action)
        ensures
            final(self).intent == old(self).intent,
            final(self).auto_accept == old(self).auto_accept,
            final(self).asset_count == old(self).asset_count,
            old(self).goes_to_asset(*final(self), a, id, i as int),
    {
        if i >= self.asset_count {
            self.stop()
        } else if self.auto_accept {
            self.phase = Phase::AwaitRead(id, i);
            Action::ReadAsset(i)
        } else {
            self.phase = Phase::ConfirmAsset(id, i);
            Action::Ask(Gate::Asset(i))
        }
    }

    /// Takes in what the outside world reported and says what to do next.
    pub fn step(&mut self, event: Event) -> (a: Action)
        requires
            old(self).accepts(event),
        ensures
            old(self).transition(event, *final(self), a),
    {
        match (self.phase, event) {
            (Phase::AwaitLatest, Event::Latest(None)) => {
                if self.auto_accept {
                    let res = resolve(None, self.intent);
                    self.settle(res)
                } else {
                    self.phase = Phase::ConfirmFirst;
                    Action::Ask(Gate::FirstRelease)
                }
            },
            (Phase::AwaitLatest, Event::Latest(Some(t))) => {
                let res = next_version_after(Some(t.as_str()), self.intent);
                self.settle(res)
            },
            (Phase::ConfirmFirst, Event::Answer(yes)) => {
                if yes {
                    let res = resolve(None, self.intent);
                    self.settle(res)
                } else {
                    self.stop()
                }
            },
            (Phase::AwaitLookup(_), Event::Found(Some(id))) => self.to_asset(id, 0),
            (Phase::AwaitLookup(v), Event::Found(None)) => {
                if self.auto_accept {
                    self.create(v)
                } else {
                    self.phase = Phase::ConfirmCreate(v);
                    Action::Ask(Gate::NewVersion(v))
                }
            },
            (Phase::ConfirmCreate(v), Event::Answer(yes)) => {
                if yes {
                    self.create(v)
                } else {
                    self.stop()
                }
            },
            (Phase::AwaitCreate(_), Event::Created(id)) => self.to_asset(id, 0),
            (Phase::ConfirmAsset(id, i), Event::Answer(yes)) => {
                if yes {
                    self.phase = Phase::AwaitRead(id, i);
                    Action::ReadAsset(i)
                } else {
                    self.stop()
                }
            },
            (Phase::AwaitRead(id, i), Event::AssetRead(f)) => {
                self.phase = Phase::AwaitUpload(id, i);
                Action::Upload(AssetUpload::hashed(id, f))
            },
            (Phase::AwaitUpload(id, i), Event::Uploaded) => {
                if i < usize::MAX {
                    self.to_asset(id, i + 1)
                } else {
                    self.stop()
                }
            },
            // every other pairing is ruled out by `accepts`
            (_, _) => self.stop(),
        }
    }
}

/// The tag `v{version}` of a release of version `v`.
pub fn tag_of(v: &Version) -> (r: String)
    ensures
        r@ == tag_text(*v),
{
    let mut r = "v".to_owned();
    let text = v.to_string();
    r.append(text.as_str());
    proof {
        reveal_strlit("v");
    }
    r
}

} // verus!

verus! {

/// Whether the flow is busy with the assets of release `id`, or done.
pub open spec fn serving_release(p: Phase, id: u64) -> bool {
    match p {
        Phase::ConfirmAsset(r, _) => r == id,
        Phase::AwaitRead(r, _) => r == id,
        Phase::AwaitUpload(r, _) => r == id,
        Phase::Done => true,
        _ => false,
    }
}

/// Whether the flows, events and actions form a run: each event takes one flow
/// to the next, and the flow asks for the action of the same index. The flows
/// and actions that successive calls of `ReleaseFlow::step` go through form a
/// run, since each call ensures `transition`.
pub open spec fn is_run(flows: Seq<ReleaseFlow>, events: Seq<Event>, actions: Seq<Action>) -> bool {
    &&& flows.len() == events.len() + 1
    &&& actions.len() == events.len()
    &&& forall|i: int|
        0 <= i < events.len() ==> #[trigger] flows[i].transition(events[i], flows[i + 1], actions[i])
}

/// Once the flow serves the assets of release `id`, no step creates a release,
/// and every upload goes to release `id`.
pub proof fn lemma_serving_step(flow: ReleaseFlow, id: u64, e: Event, next: ReleaseFlow, a: Action)
    requires
        serving_release(flow.phase, id),
        flow.transition(e, next, a),
    ensures
        serving_release(next.phase, id),
        !(a is Create),
        !(a is LookUp),
        a is Upload ==> a->Upload_0.release_id == id,
{
}

/// From a flow that serves release `id`, every later step of a run creates
/// nothing and uploads only to release `id`.
pub proof fn lemma_serving_run(
    flows: Seq<ReleaseFlow>,
    events: Seq<Event>,
    actions: Seq<Action>,
    id: u64,
    k: int,
    j: int,
)
    requires
        is_run(flows, events, actions),
        0 <= k <= j < actions.len(),
        serving_release(flows[k].phase, id),
    ensures
        serving_release(flows[j + 1].phase, id),
        !(actions[j] is Create),
        !(actions[j] is LookUp),
        actions[j] is Upload ==> actions[j]->Upload_0.release_id == id,
    decreases j - k,
{
    if k < j {
        lemma_serving_run(flows, events, actions, id, k, j - 1);
    }
    assert(flows[j].transition(events[j], flows[j + 1], actions[j]));
    lemma_serving_step(flows[j], id, events[j], flows[j + 1], actions[j]);
}

/// A release found under the target tag is reused: from then on the run
/// creates no release, looks up no other tag, and every asset goes to the
/// found release.
pub proof fn lemma_found_release_is_reused(
    flows: Seq<ReleaseFlow>,
    events: Seq<Event>,
    actions: Seq<Action>,
    i: int,
    id: u64,
    j: int,
)
    requires
        is_run(flows, events, actions),
        0 <= i <= j < actions.len(),
        flows[i].phase is AwaitLookup,
        events[i] == Event::Found(Some(id)),
    ensures
        !(actions[j] is Create),
        !(actions[j] is LookUp),
        actions[j] is Upload ==> actions[j]->Upload_0.release_id == id,
{
    assert(flows[i].transition(events[i], flows[i + 1], actions[i]));
    if i < j {
        lemma_serving_run(flows, events, actions, id, i + 1, j);
    }
}

/// With no release under the target tag, the flow (once confirmed, or at once
/// when it accepts on its own) creates the release `v{version}` titled
/// `Release v{version}`.
pub proof fn lemma_absent_release_is_created(
    flow: ReleaseFlow,
    v: Version,
    next: ReleaseFlow,
    a: Action,
)
    requires
        flow.phase == Phase::AwaitLookup(v) && flow.auto_accept || flow.phase
            == Phase::ConfirmCreate(v),
        flow.phase == Phase::AwaitLookup(v) ==> flow.transition(Event::Found(None), next, a),
        flow.phase == Phase::ConfirmCreate(v) ==> flow.transition(Event::Answer(true), next, a),
    ensures
        a is Create,
        a->Create_tag@ == tag_text(v),
        a->Create_title@ == title_text(v),
        next.phase == Phase::AwaitCreate(v),
{
}

/// A run creates at most one release: after a creation, no later step creates
/// another, and every later upload goes to the release just created.
pub proof fn lemma_create_at_most_once(
    flows: Seq<ReleaseFlow>,
    events: Seq<Event>,
    actions: Seq<Action>,
    i: int,
    j: int,
)
    requires
        is_run(flows, events, actions),
        0 <= i < j < actions.len(),
        actions[i] is Create,
    ensures
        !(actions[j] is Create),
        events[i + 1] is Created,
        actions[j] is Upload ==> actions[j]->Upload_0.release_id == events[i + 1]->Created_0,
{
    assert(flows[i].transition(events[i], flows[i + 1], actions[i]));
    assert(flows[i + 1].phase is AwaitCreate);
    let k = i + 1;
    assert(flows[k].transition(events[k], flows[k + 1], actions[k]));
    let id = events[k]->Created_0;
    assert(serving_release(flows[k + 1].phase, id));
    if k < j {
        lemma_serving_run(flows, events, actions, id, k + 1, j);
    }
}

/// Declining at any gate ends the run successfully on the spot: the declined
/// step is the last one, so nothing more is created or uploaded.
pub proof fn lemma_decline_halts(
    flows: Seq<ReleaseFlow>,
    events: Seq<Event>,
    actions: Seq<Action>,
    i: int,
)
    requires
        is_run(flows, events, actions),
        0 <= i < actions.len(),
        flows[i].phase is ConfirmFirst || flows[i].phase is ConfirmCreate
            || flows[i].phase is ConfirmAsset,
        events[i] == Event::Answer(false),
    ensures
        actions[i] == Action::Finish(Ok(())),
        flows[i + 1].phase == Phase::Done,
        i == actions.len() - 1,
{
    assert(flows[i].transition(events[i], flows[i + 1], actions[i]));
    let k = i + 1;
    if k < actions.len() {
        assert(flows[k].transition(events[k], flows[k + 1], actions[k]));
    }
}

/// Each asset is uploaded with a sidecar `<stem>.sha256` that holds the SHA-256
/// hex digest of exactly the asset's bytes.
pub proof fn lemma_digest_sidecar(flow: ReleaseFlow, f: AssetFile, next: ReleaseFlow, a: Action)
    requires
        flow.phase is AwaitRead,
        flow.transition(Event::AssetRead(f), next, a),
    ensures
        a is Upload,
        a->Upload_0.name@ == f.name@,
        a->Upload_0.bytes@ == f.bytes@,
        a->Upload_0.digest_name@ == f.stem@ + ".sha256"@,
        a->Upload_0.digest@ == sha256_hex_of(f.bytes@),
{
}

} // verus!
