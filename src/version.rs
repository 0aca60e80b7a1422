use std::cmp::Ordering;

use vstd::prelude::*;
use vstd::string::StringExecFns;

verus! {

/// What `semver::Version::parse` yields for a text: `None` when the text is
/// rejected, else major, minor, patch, pre-release and build metadata.
pub uninterp spec fn semver_parse(text: Seq<char>) -> Option<(u64, u64, u64, Seq<char>, Seq<char>)>;

/// How semver orders the versions parsed from two accepted texts.
pub uninterp spec fn semver_order(a: Seq<char>, b: Seq<char>) -> Ordering;

/// The decimal digit for `d < 10`.
pub open spec fn digit(d: nat) -> char {
    if d == 0 {
        '0'
    } else if d == 1 {
        '1'
    } else if d == 2 {
        '2'
    } else if d == 3 {
        '3'
    } else if d == 4 {
        '4'
    } else if d == 5 {
        '5'
    } else if d == 6 {
        '6'
    } else if d == 7 {
        '7'
    } else if d == 8 {
        '8'
    } else {
        '9'
    }
}

/// The decimal notation of `n`, without leading zeros.
pub open spec fn decimal(n: nat) -> Seq<char>
    decreases n,
{
    if n < 10 {
        seq![digit(n)]
    } else {
        decimal(n / 10).push(digit(n % 10))
    }
}

/// The text of a version: `MAJOR.MINOR.PATCH`, then `-PRE` and `+BUILD` when
/// those parts are not empty.
pub open spec fn version_text(major: u64, minor: u64, patch: u64, pre: Seq<char>, build: Seq<char>) -> Seq<char> {
    decimal(major as nat) + "."@ + decimal(minor as nat) + "."@ + decimal(patch as nat) + (if pre.len()
        == 0 {
        Seq::<char>::empty()
    } else {
        "-"@ + pre
    }) + (if build.len() == 0 {
        Seq::<char>::empty()
    } else {
        "+"@ + build
    })
}

/// Lexicographic order on (major, minor, patch).
pub open spec fn triple_order(a: (u64, u64, u64), b: (u64, u64, u64)) -> Ordering {
    if a.0 < b.0 {
        Ordering::Less
    } else if a.0 > b.0 {
        Ordering::Greater
    } else if a.1 < b.1 {
        Ordering::Less
    } else if a.1 > b.1 {
        Ordering::Greater
    } else if a.2 < b.2 {
        Ordering::Less
    } else if a.2 > b.2 {
        Ordering::Greater
    } else {
        Ordering::Equal
    }
}

/// Relies on `semver::Version::parse` for acceptance and parts, and on
/// semver's `Display` for the text, whose format is `version_text`.
#[verifier::external_body]
fn parse_semver(text: &str) -> (r: Result<(u64, u64, u64, String, String, String), String>)
    ensures
        r is Ok <==> semver_parse(text@) is Some,
        r matches Ok((ma, mi, pa, pre, build, shown)) ==> semver_parse(text@) == Some(
            (ma, mi, pa, pre@, build@),
        ) && shown@ == version_text(ma, mi, pa, pre@, build@),
{
    semver::Version::parse(text).map(
        |v|
            (v.major, v.minor, v.patch, v.pre.as_str().to_string(), v.build.as_str().to_string(), v.to_string()),
    ).map_err(|e| e.to_string())
}

/// Relies on semver's `Ord` for `semver::Version`, applied to the versions
/// that `semver::Version::parse` yields for two accepted texts.
#[verifier::external_body]
fn cmp_semver(a: &str, b: &str) -> (r: Ordering)
    requires
        semver_parse(a@) is Some,
        semver_parse(b@) is Some,
    ensures
        r == semver_order(a@, b@),
{
    semver::Version::parse(a).unwrap().cmp(&semver::Version::parse(b).unwrap())
}

/// A semantic version, as parsed from its text.
#[derive(Clone, Debug)]
pub struct Version {
    pub major: u64,
    pub minor: u64,
    pub patch: u64,
    /// Pre-release identifiers; empty for a release.
    pub pre: String,
    /// Build metadata; empty when there is none.
    pub build: String,
    /// The canonical text of the version.
    pub text: String,
    /// The text the version was parsed from.
    pub source: String,
}

/// Major, minor and patch of a text that semver accepts.
pub open spec fn triple_of(text: Seq<char>) -> (u64, u64, u64) {
    let p = semver_parse(text).unwrap();
    (p.0, p.1, p.2)
}

/// Order of the versions parsed from two accepted texts: by (major, minor,
/// patch); on a tie, equal when pre-release and build metadata agree, else as
/// semver orders them.
pub open spec fn text_version_order(a: Seq<char>, b: Seq<char>) -> Ordering {
    let pa = semver_parse(a).unwrap();
    let pb = semver_parse(b).unwrap();
    let t = triple_order(triple_of(a), triple_of(b));
    if t != Ordering::Equal {
        t
    } else if pa.3 == pb.3 && pa.4 == pb.4 {
        Ordering::Equal
    } else {
        semver_order(a, b)
    }
}

/// Order of two versions, by the texts they were parsed from.
pub open spec fn version_order(a: Version, b: Version) -> Ordering {
    text_version_order(a.source@, b.source@)
}

impl Version {
    /// A version is well formed when it is what semver parsed from its source text.
    pub open spec fn wf(&self) -> bool {
        &&& semver_parse(self.source@) == Some(
            (self.major, self.minor, self.patch, self.pre@, self.build@),
        )
        &&& self.text@ == version_text(self.major, self.minor, self.patch, self.pre@, self.build@)
    }

    /// Whether this is a plain release: no pre-release and no build metadata.
    pub open spec fn is_release(&self) -> bool {
        self.pre@.len() == 0 && self.build@.len() == 0
    }

    /// Parse a semantic version strictly; the error holds semver's reason.
    pub fn parse(text: &str) -> (r: Result<Version, String>)
        ensures
            r is Ok <==> semver_parse(text@) is Some,
            r matches Ok(v) ==> v.wf() && v.source@ == text@,
    {
        match parse_semver(text) {
            Ok((major, minor, patch, pre, build, shown)) => Ok(
                Version { major, minor, patch, pre, build, text: shown, source: String::from_str(text) },
            ),
            Err(reason) => Err(reason),
        }
    }

    /// Return a copy of the version.
    pub fn duplicate(&self) -> (r: Version)
        ensures
            r == *self,
    {
        Version {
            major: self.major,
            minor: self.minor,
            patch: self.patch,
            pre: self.pre.clone(),
            build: self.build.clone(),
            text: self.text.clone(),
            source: self.source.clone(),
        }
    }

    /// Return the canonical text of the version.
    pub fn to_text(&self) -> (r: String)
        requires
            self.wf(),
        ensures
            r@ == version_text(self.major, self.minor, self.patch, self.pre@, self.build@),
    {
        self.text.clone()
    }

    /// Compare two versions.
    pub fn compare(&self, other: &Version) -> (r: Ordering)
        requires
            self.wf(),
            other.wf(),
        ensures
            r == version_order(*self, *other),
    {
        if self.major != other.major {
            if self.major < other.major { Ordering::Less } else { Ordering::Greater }
        } else if self.minor != other.minor {
            if self.minor < other.minor { Ordering::Less } else { Ordering::Greater }
        } else if self.patch != other.patch {
            if self.patch < other.patch { Ordering::Less } else { Ordering::Greater }
        } else if self.pre == other.pre && self.build == other.build {
            Ordering::Equal
        } else {
            cmp_semver(self.source.as_str(), other.source.as_str())
        }
    }
}

} // verus!
