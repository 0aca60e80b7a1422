use std::cmp::Ordering;

use vstd::prelude::*;
use vstd::string::{StrSliceExecFns, StringExecFns};

use vstd::utf8::char_u32_cast;

use crate::error::Error;
use crate::state::State;
use crate::version::{semver_parse, triple_of, triple_order, version_order, Version};

verus! {

/// Lexicographic order of two texts by code point, from position `i` on.
pub open spec fn text_order_from(a: Seq<char>, b: Seq<char>, i: int) -> Ordering
    decreases a.len() - i,
{
    if i >= a.len() {
        if i >= b.len() {
            Ordering::Equal
        } else {
            Ordering::Less
        }
    } else if i >= b.len() {
        Ordering::Greater
    } else if (a[i] as u32) < (b[i] as u32) {
        Ordering::Less
    } else if (a[i] as u32) > (b[i] as u32) {
        Ordering::Greater
    } else {
        text_order_from(a, b, i + 1)
    }
}

/// Lexicographic order of two texts by code point, which is the order of
/// their UTF-8 bytes.
pub open spec fn text_order(a: Seq<char>, b: Seq<char>) -> Ordering {
    text_order_from(a, b, 0)
}

/// Compare two texts lexicographically by code point.
pub fn compare_text(a: &str, b: &str) -> (r: Ordering)
    ensures
        r == text_order(a@, b@),
{
    let la = a.unicode_len();
    let lb = b.unicode_len();
    let mut i: usize = 0;
    while i < la && i < lb
        invariant
            la == a@.len(),
            lb == b@.len(),
            i <= la,
            i <= lb,
            text_order(a@, b@) == text_order_from(a@, b@, i as int),
        decreases la - i,
    {
        let ca = a.get_char(i);
        let cb = b.get_char(i);
        if (ca as u32) < (cb as u32) {
            return Ordering::Less;
        } else if (ca as u32) > (cb as u32) {
            return Ordering::Greater;
        }
        i = i + 1;
    }
    if i < la {
        Ordering::Greater
    } else if i < lb {
        Ordering::Less
    } else {
        Ordering::Equal
    }
}

/// Whether two texts are equal.
pub fn same_text(a: &str, b: &str) -> (r: bool)
    ensures
        r <==> a@ == b@,
{
    proof {
        lemma_text_order_total(a@, b@, b@);
    }
    match compare_text(a, b) {
        Ordering::Equal => true,
        _ => false,
    }
}

/// What follows the installer's completion of a bundle.
#[derive(Clone, Debug)]
pub enum InstallStep {
    /// The install failed: report it with the installer's last error.
    ReportFailure,
    /// Rename the installed bundle `from` to `to`, then post `then`.
    Rename { from: String, to: String, then: State },
    /// Post this state.
    Post(State),
}

/// The error that reports a failed install with the installer's last error.
pub fn install_error(last_error: String) -> (r: Error)
    ensures
        r matches Error::UpdateFailed(m) && m@ == last_error@,
{
    Error::UpdateFailed(last_error)
}

/// An update bundle on disk: its path, the compatible it targets, its
/// version and whether it was found in an override location.
#[derive(Clone, Debug)]
pub struct UpdateBundle {
    pub path: String,
    pub compatible: String,
    pub version: Version,
    pub is_override: bool,
}

/// Order of bundles: by compatible, then by version.
pub open spec fn bundle_order(a: UpdateBundle, b: UpdateBundle) -> Ordering {
    let c = text_order(a.compatible@, b.compatible@);
    if c != Ordering::Equal {
        c
    } else {
        version_order(a.version, b.version)
    }
}

/// Whether the installer's answer for a bundle (compatible and version text)
/// makes a bundle: it was given and its version parses.
pub open spec fn info_usable(info: Result<(String, String), String>) -> bool {
    info matches Ok((_, v)) && semver_parse(v@) is Some
}

/// Whether `b` is the bundle made from `path`, `is_override` and the
/// installer's answer `info`.
pub open spec fn made_from(
    b: UpdateBundle,
    path: Seq<char>,
    is_override: bool,
    info: Result<(String, String), String>,
) -> bool {
    &&& info matches Ok((c, v))
    &&& b.path@ == path
    &&& b.compatible@ == c@
    &&& b.version.wf()
    &&& b.version.source@ == v@
    &&& b.is_override == is_override
}

impl UpdateBundle {
    /// Whether the bundle's version is well formed.
    pub open spec fn wf(&self) -> bool {
        self.version.wf()
    }

    /// Make a bundle from its path, whether it is an override, and the
    /// installer's answer for it (compatible and version text, or the reason
    /// the installer gave for failing).
    pub fn new(path: &str, is_override: bool, info: &Result<(String, String), String>) -> (r:
        Result<UpdateBundle, Error>)
        ensures
            r is Ok <==> info_usable(*info),
            r matches Ok(b) ==> made_from(b, path@, is_override, *info) && b.wf(),
            *info matches Err(why) ==> r matches Err(Error::BundleInfo(p, w)) && p@ == path@ && w@
                == why@,
            *info matches Ok((_, v)) ==> (!info_usable(*info) ==> (r matches Err(
                Error::BundleVersion(ve, p, _),
            ) && ve@ == v@ && p@ == path@)),
    {
        match info {
            Ok((compatible, version_text)) => match Version::parse(version_text.as_str()) {
                Ok(version) => Ok(
                    UpdateBundle {
                        path: String::from_str(path),
                        compatible: compatible.clone(),
                        version,
                        is_override,
                    },
                ),
                Err(why) => Err(
                    Error::BundleVersion(version_text.clone(), String::from_str(path), why),
                ),
            },
            Err(why) => Err(Error::BundleInfo(String::from_str(path), why.clone())),
        }
    }

    /// Return a copy of the bundle.
    pub fn duplicate(&self) -> (r: UpdateBundle)
        ensures
            r == *self,
    {
        UpdateBundle {
            path: self.path.clone(),
            compatible: self.compatible.clone(),
            version: self.version.duplicate(),
            is_override: self.is_override,
        }
    }

    /// Get the compatible of the bundle.
    pub fn compatible(&self) -> (r: &str)
        ensures
            r@ == self.compatible@,
    {
        self.compatible.as_str()
    }

    /// Get the path of the bundle.
    pub fn path(&self) -> (r: String)
        ensures
            r@ == self.path@,
    {
        self.path.clone()
    }

    /// Return the bundle's version.
    pub fn version(&self) -> (r: &Version)
        ensures
            *r == self.version,
    {
        &self.version
    }

    /// Return whether the bundle was found in an override location.
    pub fn is_override(&self) -> (r: bool)
        ensures
            r == self.is_override,
    {
        self.is_override
    }

    /// The path an installed override bundle is renamed to, so that later
    /// searches do not find it again; `None` for a regular bundle.
    pub fn installed_path(&self) -> (r: Option<String>)
        ensures
            self.is_override <==> r is Some,
            r matches Some(p) ==> p@ == self.path@ + ".installed"@,
    {
        if self.is_override {
            Some(self.path.clone().concat(".installed"))
        } else {
            None
        }
    }

    /// Return the text that describes the bundle.
    pub fn describe(&self) -> (r: String)
        ensures
            r@ == self.path@ + " (variant: "@ + self.compatible@ + "; version: "@ + self.version.text@
                + ")"@,
    {
        self.path.clone().concat(" (variant: ").concat(self.compatible.as_str()).concat(
            "; version: ",
        ).concat(self.version.text.as_str()).concat(")")
    }

    /// Decide what follows the installer's completion `result` for this
    /// bundle, installed for a search in iteration `iteration` with
    /// `updated` and the requested `reboot`: a positive result is a failure,
    /// to be reported with the installer's last error and without a new
    /// state; on success an override bundle is renamed with the suffix
    /// `.installed` before `Updated` is posted, a regular one is not.
    pub fn after_install(&self, result: i32, updated: bool, iteration: usize, reboot: bool) -> (r:
        InstallStep)
        ensures
            result > 0 ==> r is ReportFailure,
            result <= 0 && self.is_override ==> (r matches InstallStep::Rename { from, to, then }
                && from@ == self.path@ && to@ == self.path@ + ".installed"@ && then == State::Updated(
                updated,
                iteration,
                reboot,
            )),
            result <= 0 && !self.is_override ==> r == InstallStep::Post(
                State::Updated(updated, iteration, reboot),
            ),
    {
        if result > 0 {
            InstallStep::ReportFailure
        } else {
            let then = State::Updated(updated, iteration, reboot);
            match self.installed_path() {
                Some(to) => InstallStep::Rename { from: self.path.clone(), to, then },
                None => InstallStep::Post(then),
            }
        }
    }

    /// Compare two bundles: by compatible, then by version.
    pub fn cmp(&self, other: &UpdateBundle) -> (r: Ordering)
        requires
            self.wf(),
            other.wf(),
        ensures
            r == bundle_order(*self, *other),
    {
        let c = compare_text(self.compatible.as_str(), other.compatible.as_str());
        match c {
            Ordering::Equal => self.version.compare(&other.version),
            _ => c,
        }
    }

    /// Compare two bundles, always with a result.
    pub fn partial_cmp(&self, other: &UpdateBundle) -> (r: Option<Ordering>)
        requires
            self.wf(),
            other.wf(),
        ensures
            r == Some(bundle_order(*self, *other)),
    {
        Some(self.cmp(other))
    }
}

proof fn lemma_text_order_pair(a: Seq<char>, b: Seq<char>, i: int)
    requires
        0 <= i <= a.len(),
        i <= b.len(),
    ensures
        text_order_from(a, b, i) == Ordering::Less <==> text_order_from(b, a, i)
            == Ordering::Greater,
        text_order_from(a, b, i) == Ordering::Equal <==> (a.len() == b.len() && forall|j: int|
            i <= j < a.len() ==> a[j] == b[j]),
    decreases a.len() - i,
{
    if i < a.len() && i < b.len() {
        lemma_text_order_pair(a, b, i + 1);
        char_u32_cast(a[i], a[i] as u32);
        char_u32_cast(b[i], b[i] as u32);
        if text_order_from(a, b, i) == Ordering::Equal {
            assert forall|j: int| i <= j < a.len() implies a[j] == b[j] by {
                if j > i {
                }
            }
        }
    }
}

proof fn lemma_text_order_trans(a: Seq<char>, b: Seq<char>, c: Seq<char>, i: int)
    requires
        0 <= i,
    ensures
        text_order_from(a, b, i) == Ordering::Less && text_order_from(b, c, i) == Ordering::Less
            ==> text_order_from(a, c, i) == Ordering::Less,
    decreases a.len() - i,
{
    if i < a.len() && i < b.len() && i < c.len() && (a[i] as u32) == (b[i] as u32) && (b[i] as u32) == (c[i] as u32) {
        lemma_text_order_trans(a, b, c, i + 1);
    }
}

/// Texts are totally ordered by `text_order`: it is antisymmetric, equal
/// only on equal texts, and transitive.
pub proof fn lemma_text_order_total(a: Seq<char>, b: Seq<char>, c: Seq<char>)
    ensures
        text_order(a, b) == Ordering::Less <==> text_order(b, a) == Ordering::Greater,
        text_order(a, b) == Ordering::Equal <==> a == b,
        text_order(a, b) == Ordering::Less && text_order(b, c) == Ordering::Less ==> text_order(
            a,
            c,
        ) == Ordering::Less,
{
    lemma_text_order_pair(a, b, 0);
    lemma_text_order_trans(a, b, c, 0);
    if text_order(a, b) == Ordering::Equal {
        assert(a =~= b);
    }
    if a == b {
        assert(forall|j: int| 0 <= j < a.len() ==> a[j] == b[j]);
    }
}

/// Bundles are ordered by compatible first and by version second: where the
/// compatibles differ their order decides, and where they agree but the
/// (major, minor, patch) triples differ, the triples decide. Every bundle is
/// equal to itself.
pub proof fn lemma_bundle_order_lexicographic(a: UpdateBundle, b: UpdateBundle)
    requires
        a.wf(),
        b.wf(),
    ensures
        a.compatible@ != b.compatible@ ==> bundle_order(a, b) == text_order(
            a.compatible@,
            b.compatible@,
        ),
        a.compatible@ == b.compatible@ && triple_of(a.version.source@) != triple_of(
            b.version.source@,
        ) ==> bundle_order(a, b) == triple_order(
            triple_of(a.version.source@),
            triple_of(b.version.source@),
        ),
        bundle_order(a, a) == Ordering::Equal,
{
    lemma_text_order_total(a.compatible@, b.compatible@, b.compatible@);
    lemma_text_order_total(a.compatible@, a.compatible@, a.compatible@);
}

/// On bundles whose versions are plain releases, the bundle order is a total
/// order: antisymmetric, transitive, and equal exactly on bundles with the
/// same compatible and the same version.
pub proof fn lemma_bundle_order_total(a: UpdateBundle, b: UpdateBundle, c: UpdateBundle)
    requires
        a.wf(),
        b.wf(),
        c.wf(),
        a.version.is_release(),
        b.version.is_release(),
        c.version.is_release(),
    ensures
        bundle_order(a, b) == Ordering::Less <==> bundle_order(b, a) == Ordering::Greater,
        bundle_order(a, b) == Ordering::Equal <==> (a.compatible@ == b.compatible@ && triple_of(
            a.version.source@,
        ) == triple_of(b.version.source@)),
        bundle_order(a, b) == Ordering::Less && bundle_order(b, c) == Ordering::Less
            ==> bundle_order(a, c) == Ordering::Less,
        bundle_order(a, b) != Ordering::Less && bundle_order(b, c) != Ordering::Less
            ==> bundle_order(a, c) != Ordering::Less,
{
    lemma_text_order_total(a.compatible@, b.compatible@, c.compatible@);
    lemma_text_order_total(b.compatible@, a.compatible@, c.compatible@);
    lemma_text_order_total(a.compatible@, c.compatible@, b.compatible@);
    lemma_text_order_total(b.compatible@, c.compatible@, a.compatible@);
    lemma_text_order_total(c.compatible@, b.compatible@, a.compatible@);
    lemma_text_order_total(c.compatible@, a.compatible@, b.compatible@);
    assert(a.version.pre@ =~= b.version.pre@);
    assert(a.version.build@ =~= b.version.build@);
    assert(b.version.pre@ =~= c.version.pre@);
    assert(b.version.build@ =~= c.version.build@);
}

} // verus!
