use vstd::prelude::*;

use crate::error::ReleaserError;

verus! {

/// The character of a decimal digit.
pub open spec fn digit_char(d: nat) -> char {
    if d == 0 {
        '0'
    } else if d == 1 {
        '1'
    } else if d == 2 {
        '2'
    } else if d == 3 {
        '3'
    } else if d == 4 {
        '4'
    } else if d == 5 {
        '5'
    } else if d == 6 {
        '6'
    } else if d == 7 {
        '7'
    } else if d == 8 {
        '8'
    } else {
        '9'
    }
}

/// The canonical decimal numeral of `n`: no sign, no leading zeros.
pub open spec fn decimal_text(n: nat) -> Seq<char>
    decreases n,
{
    if n < 10 {
        seq![digit_char(n)]
    } else {
        decimal_text(n / 10).push(digit_char(n % 10))
    }
}

/// The canonical text `"{major}.{minor}.{patch}"` of a version triple.
pub open spec fn version_text(major: nat, minor: nat, patch: nat) -> Seq<char> {
    decimal_text(major) + seq!['.'] + decimal_text(minor) + seq!['.'] + decimal_text(patch)
}

/// A text with one leading `v` taken off, when there is one.
pub open spec fn without_v(s: Seq<char>) -> Seq<char> {
    if s.len() > 0 && s[0] == 'v' {
        s.subrange(1, s.len() as int)
    } else {
        s
    }
}

/// Whether `s` is the canonical triple `a.b.c` followed by nothing, or by a
/// pre-release (`-...`) or build (`+...`) suffix.
pub open spec fn starts_with_triple(s: Seq<char>, a: nat, b: nat, c: nat) -> bool {
    exists|rest: Seq<char>|
        s == version_text(a, b, c) + rest && (rest.len() == 0 || rest[0] == '-' || rest[0]
            == '+')
}

/// What `semver::Version::parse` makes of a text: its major, minor and patch
/// numbers, or nothing when it refuses the text.
pub uninterp spec fn semver_numbers_of(s: Seq<char>) -> Option<(u64, u64, u64)>;

#[verifier::external_type_specification]
#[verifier::external_body]
pub struct ExSemverError(semver::Error);

/// Relies on `semver::Version::parse`: whether it accepts a text, and the three
/// numbers it reads, depend on the text alone; a canonical `MAJOR.MINOR.PATCH`
/// triple of `u64` numerals is accepted with those numbers, and an accepted text
/// starts with the canonical numerals of the numbers read, followed by nothing
/// or by a `-` or `+` suffix.
#[verifier::external_body]
fn semver_numbers(text: &str) -> (r: Result<(u64, u64, u64), semver::Error>)
    ensures
        r is Ok <==> semver_numbers_of(text@) is Some,
        r is Ok ==> semver_numbers_of(text@) == Some(r->Ok_0),
        forall|a: nat, b: nat, c: nat|
            a <= u64::MAX && b <= u64::MAX && c <= u64::MAX && text@ == #[trigger] version_text(
                a,
                b,
                c,
            ) ==> r is Ok && r->Ok_0 == (a as u64, b as u64, c as u64),
        r is Ok ==> starts_with_triple(
            text@,
            r->Ok_0.0 as nat,
            r->Ok_0.1 as nat,
            r->Ok_0.2 as nat,
        ),
{
    semver::Version::parse(text).map(|v| (v.major, v.minor, v.patch))
}

/// The significance level of a version bump.
#[derive(Debug, Clone, Copy, PartialEq, Eq, Structural)]
pub enum VersionBump {
    Major,
    Minor,
    Patch,
}

/// The canonical lowercase name of a bump kind.
pub open spec fn bump_name(b: VersionBump) -> Seq<char> {
    match b {
        VersionBump::Major => "major"@,
        VersionBump::Minor => "minor"@,
        VersionBump::Patch => "patch"@,
    }
}

/// The bump kind whose canonical name is exactly `t`, if any.
pub open spec fn bump_of_name(t: Seq<char>) -> Option<VersionBump> {
    if t == "major"@ {
        Some(VersionBump::Major)
    } else if t == "minor"@ {
        Some(VersionBump::Minor)
    } else if t == "patch"@ {
        Some(VersionBump::Patch)
    } else {
        None
    }
}

/// What `str::to_lowercase` makes of a text.
pub uninterp spec fn lower_of(s: Seq<char>) -> Seq<char>;

/// Relies on `str::to_lowercase`: the result depends on the characters alone.
#[verifier::external_body]
fn lowercase(s: &str) -> (r: String)
    ensures
        r@ == lower_of(s@),
{
    s.to_lowercase()
}

/// The one-character text of a decimal digit.
fn digit_text(d: u64) -> (r: &'static str)
    requires
        d < 10,
    ensures
        r@ == seq![digit_char(d as nat)],
{
    proof {
        reveal_strlit("0");
        reveal_strlit("1");
        reveal_strlit("2");
        reveal_strlit("3");
        reveal_strlit("4");
        reveal_strlit("5");
        reveal_strlit("6");
        reveal_strlit("7");
        reveal_strlit("8");
        reveal_strlit("9");
    }
    match d {
        0 => "0",
        1 => "1",
        2 => "2",
        3 => "3",
        4 => "4",
        5 => "5",
        6 => "6",
        7 => "7",
        8 => "8",
        _ => "9",
    }
}

/// Writes `n` in decimal.
fn decimal(n: u64) -> (r: String)
    ensures
        r@ == decimal_text(n as nat),
    decreases n,
{
    if n < 10 {
        digit_text(n).to_owned()
    } else {
        let mut r = decimal(n / 10);
        r.append(digit_text(n % 10));
        r
    }
}

/// Takes one leading `v` off a text, when there is one.
fn strip_v(s: &str) -> (r: &str)
    ensures
        r@ == without_v(s@),
{
    let n = s.unicode_len();
    if n > 0 && s.get_char(0) == 'v' {
        s.substring_char(1, n)
    } else {
        s
    }
}

/// A semantic version `major.minor.patch`.
#[derive(Debug, Clone, Copy, PartialEq, Eq, Structural)]
pub struct Version {
    pub major: u64,
    pub minor: u64,
    pub patch: u64,
}

impl Version {
    /// The first version released under a bump kind when nothing was released before.
    pub open spec fn initial(bump: VersionBump) -> Version {
        match bump {
            VersionBump::Major => Version { major: 1, minor: 0, patch: 0 },
            VersionBump::Minor => Version { major: 0, minor: 1, patch: 0 },
            VersionBump::Patch => Version { major: 0, minor: 0, patch: 1 },
        }
    }

    /// Whether the component that `bump` increments is below its largest value.
    pub open spec fn can_bump(self, bump: VersionBump) -> bool {
        match bump {
            VersionBump::Major => self.major < u64::MAX,
            VersionBump::Minor => self.minor < u64::MAX,
            VersionBump::Patch => self.patch < u64::MAX,
        }
    }

    /// Standard semantic-version bump: increment one component, zero the lower ones.
    pub open spec fn bumped(self, bump: VersionBump) -> Version {
        match bump {
            VersionBump::Major => Version { major: (self.major + 1) as u64, minor: 0, patch: 0 },
            VersionBump::Minor => Version {
                major: self.major,
                minor: (self.minor + 1) as u64,
                patch: 0,
            },
            VersionBump::Patch => Version {
                major: self.major,
                minor: self.minor,
                patch: (self.patch + 1) as u64,
            },
        }
    }

    /// The canonical text of this version.
    pub open spec fn text(self) -> Seq<char> {
        version_text(self.major as nat, self.minor as nat, self.patch as nat)
    }

    /// The version read from `s`: one leading `v` is dropped, and the rest goes
    /// through semver's parser.
    pub open spec fn parsed(s: Seq<char>) -> Option<Version> {
        match semver_numbers_of(without_v(s)) {
            Some(t) => Some(Version { major: t.0, minor: t.1, patch: t.2 }),
            None => None,
        }
    }
}

} // verus!

verus! {

impl Version {
    /// Reads a version from `MAJOR.MINOR.PATCH` text with an optional leading `v`.
    /// A text that semver refuses gives `VersionParseError` holding the text as given.
    pub fn parse(version: &str) -> (r: Result<Version, ReleaserError>)
        ensures
            match Version::parsed(version@) {
                Some(v) => r == Ok::<Version, ReleaserError>(v),
                None => r is Err && r->Err_0 is VersionParseError
                    && r->Err_0->VersionParseError_0@ == version@,
            },
            // a canonical triple, with or without a leading `v`, reads back as the
            // version whose canonical text it is
            forall|a: nat, b: nat, c: nat|
                a <= u64::MAX && b <= u64::MAX && c <= u64::MAX && without_v(version@)
                    == #[trigger] version_text(a, b, c) ==> r is Ok && r->Ok_0 == (Version {
                    major: a as u64,
                    minor: b as u64,
                    patch: c as u64,
                }) && r->Ok_0.text() == without_v(version@),
            // an accepted text is the version's canonical text, after an optional
            // leading `v`, followed by nothing or by a `-` or `+` suffix
            r is Ok ==> starts_with_triple(
                without_v(version@),
                r->Ok_0.major as nat,
                r->Ok_0.minor as nat,
                r->Ok_0.patch as nat,
            ),
    {
        let text = strip_v(version);
        match semver_numbers(text) {
            Ok((major, minor, patch)) => Ok(Version::forced(major, minor, patch)),
            Err(_) => Err(ReleaserError::VersionParseError(version.to_owned())),
        }
    }

    /// The first version for a bump kind: `1.0.0`, `0.1.0` or `0.0.1`.
    pub fn new(bump: VersionBump) -> (r: Version)
        ensures
            r == Version::initial(bump),
    {
        match bump {
            VersionBump::Major => Version::forced(1, 0, 0),
            VersionBump::Minor => Version::forced(0, 1, 0),
            VersionBump::Patch => Version::forced(0, 0, 1),
        }
    }

    /// The version with exactly the given components.
    pub fn forced(major: u64, minor: u64, patch: u64) -> (r: Version)
        ensures
            r.major == major,
            r.minor == minor,
            r.patch == patch,
    {
        Version { major, minor, patch }
    }

    /// The version after a bump of the given kind.
    pub fn bump(&self, bump: VersionBump) -> (r: Version)
        requires
            self.can_bump(bump),
        ensures
            r == self.bumped(bump),
    {
        match bump {
            VersionBump::Major => Version::forced(self.major() + 1, 0, 0),
            VersionBump::Minor => Version::forced(self.major(), self.minor() + 1, 0),
            VersionBump::Patch => Version::forced(self.major(), self.minor(), self.patch() + 1),
        }
    }

    /// Whether `bump` can be applied without overflow.
    pub fn can_be_bumped(&self, bump: VersionBump) -> (r: bool)
        ensures
            r == self.can_bump(bump),
    {
        match bump {
            VersionBump::Major => self.major < u64::MAX,
            VersionBump::Minor => self.minor < u64::MAX,
            VersionBump::Patch => self.patch < u64::MAX,
        }
    }

    pub fn major(&self) -> (r: u64)
        ensures
            r == self.major,
    {
        self.major
    }

    pub fn minor(&self) -> (r: u64)
        ensures
            r == self.minor,
    {
        self.minor
    }

    pub fn patch(&self) -> (r: u64)
        ensures
            r == self.patch,
    {
        self.patch
    }

    /// The canonical text `"{major}.{minor}.{patch}"`, without a leading `v`.
    pub fn to_string(&self) -> (r: String)
        ensures
            r@ == self.text(),
    {
        let mut r = decimal(self.major);
        r.append(".");
        let minor = decimal(self.minor);
        r.append(minor.as_str());
        r.append(".");
        let patch = decimal(self.patch);
        r.append(patch.as_str());
        proof {
            reveal_strlit(".");
        }
        r
    }
}

impl std::str::FromStr for Version {
    type Err = ReleaserError;

    fn from_str(s: &str) -> (r: Result<Version, ReleaserError>)
        ensures
            match Version::parsed(s@) {
                Some(v) => r == Ok::<Version, ReleaserError>(v),
                None => r is Err && r->Err_0 is VersionParseError
                    && r->Err_0->VersionParseError_0@ == s@,
            },
            // a canonical triple, with or without a leading `v`, reads back as the
            // version whose canonical text it is
            forall|a: nat, b: nat, c: nat|
                a <= u64::MAX && b <= u64::MAX && c <= u64::MAX && without_v(s@)
                    == #[trigger] version_text(a, b, c) ==> r is Ok && r->Ok_0 == (Version {
                    major: a as u64,
                    minor: b as u64,
                    patch: c as u64,
                }) && r->Ok_0.text() == without_v(s@),
            // an accepted text is the version's canonical text, after an optional
            // leading `v`, followed by nothing or by a `-` or `+` suffix
            r is Ok ==> starts_with_triple(
                without_v(s@),
                r->Ok_0.major as nat,
                r->Ok_0.minor as nat,
                r->Ok_0.patch as nat,
            ),
    {
        Version::parse(s)
    }
}

impl VersionBump {
    /// The canonical lowercase name of this bump kind.
    pub fn to_str(&self) -> (r: &'static str)
        ensures
            r@ == bump_name(*self),
    {
        proof {
            reveal_strlit("major");
            reveal_strlit("minor");
            reveal_strlit("patch");
        }
        match self {
            VersionBump::Major => "major",
            VersionBump::Minor => "minor",
            VersionBump::Patch => "patch",
        }
    }

    /// The canonical name of this bump kind, as an owned string.
    pub fn to_string(&self) -> (r: String)
        ensures
            r@ == bump_name(*self),
    {
        self.to_str().to_owned()
    }

    /// The canonical names of all bump kinds, most significant first.
    pub fn variants() -> (r: &'static [&'static str])
        ensures
            r@.len() == 3,
            r@[0]@ == bump_name(VersionBump::Major),
            r@[1]@ == bump_name(VersionBump::Minor),
            r@[2]@ == bump_name(VersionBump::Patch),
    {
        proof {
            reveal_strlit("major");
            reveal_strlit("minor");
            reveal_strlit("patch");
        }
        &["major", "minor", "patch"]
    }

    /// The bump kind whose canonical name is exactly `t`.
    pub fn from_name(t: &str) -> (r: Option<VersionBump>)
        ensures
            r == bump_of_name(t@),
    {
        let t = t.to_owned();
        proof {
            reveal_strlit("major");
            reveal_strlit("minor");
            reveal_strlit("patch");
        }
        if t == "major".to_owned() {
            Some(VersionBump::Major)
        } else if t == "minor".to_owned() {
            Some(VersionBump::Minor)
        } else if t == "patch".to_owned() {
            Some(VersionBump::Patch)
        } else {
            None
        }
    }

    /// Reads a bump kind, ignoring case. Any other text gives
    /// `VersionBumpParseError` holding the text as given.
    pub fn parse(s: &str) -> (r: Result<VersionBump, ReleaserError>)
        ensures
            match bump_of_name(lower_of(s@)) {
                Some(k) => r == Ok::<VersionBump, ReleaserError>(k),
                None => r is Err && r->Err_0 is VersionBumpParseError
                    && r->Err_0->VersionBumpParseError_0@ == s@,
            },
    {
        let lower = lowercase(s);
        match VersionBump::from_name(lower.as_str()) {
            Some(k) => Ok(k),
            None => Err(ReleaserError::VersionBumpParseError(s.to_owned())),
        }
    }
}

impl std::str::FromStr for VersionBump {
    type Err = ReleaserError;

    fn from_str(s: &str) -> (r: Result<VersionBump, ReleaserError>)
        ensures
            match bump_of_name(lower_of(s@)) {
                Some(k) => r == Ok::<VersionBump, ReleaserError>(k),
                None => r is Err && r->Err_0 is VersionBumpParseError
                    && r->Err_0->VersionBumpParseError_0@ == s@,
            },
    {
        VersionBump::parse(s)
    }
}

} // verus!

verus! {

/// A bump increments the component it names by exactly one, zeroes the less
/// significant components and leaves the more significant ones as they were.
pub proof fn lemma_bump_fields(v: Version, k: VersionBump)
    requires
        v.can_bump(k),
    ensures
        k == VersionBump::Major ==> v.bumped(k).major == v.major + 1 && v.bumped(k).minor == 0
            && v.bumped(k).patch == 0,
        k == VersionBump::Minor ==> v.bumped(k).major == v.major && v.bumped(k).minor == v.minor
            + 1 && v.bumped(k).patch == 0,
        k == VersionBump::Patch ==> v.bumped(k).major == v.major && v.bumped(k).minor == v.minor
            && v.bumped(k).patch == v.patch + 1,
{
}

/// Bump parsing ignores case: two texts with the same lowercase form name the
/// same bump kind, or are both refused.
pub proof fn lemma_bump_parse_ignores_case(a: Seq<char>, b: Seq<char>)
    requires
        lower_of(a) == lower_of(b),
    ensures
        bump_of_name(lower_of(a)) == bump_of_name(lower_of(b)),
{
}

} // verus!
