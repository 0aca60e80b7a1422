use std::cmp::Ordering;

use vstd::prelude::*;

use crate::bundle::{info_usable, lemma_text_order_total, made_from, same_text, UpdateBundle};
use crate::error::Error;
use crate::version::{text_version_order, triple_of, triple_order, version_order, Version};

verus! {

/// A bundle location found on a device, with the installer's answer for it:
/// its compatible and version text, or the reason the installer gave.
#[derive(Debug)]
pub struct Candidate {
    pub path: String,
    pub info: Result<(String, String), String>,
}

/// The version text the installer reported for a candidate.
pub open spec fn candidate_version(c: Candidate) -> Seq<char> {
    match c.info {
        Ok((_, v)) => v@,
        Err(_) => Seq::empty(),
    }
}

/// Whether the installer's answer for a candidate names this compatible.
pub open spec fn candidate_compatible_is(c: Candidate, compatible: Seq<char>) -> bool {
    c.info matches Ok((comp, _)) && comp@ == compatible
}

/// Whether a regular candidate may be installed on a system with this
/// compatible and version: it makes a bundle, its compatible is the
/// system's, and its version is newer than the system's when the system has
/// one.
pub open spec fn eligible(c: Candidate, compatible: Seq<char>, version: Option<Version>) -> bool {
    &&& info_usable(c.info)
    &&& candidate_compatible_is(c, compatible)
    &&& version matches Some(v) ==> text_version_order(candidate_version(c), v.source@)
        == Ordering::Greater
}

/// Whether the eligible candidate `k` is at least as high as every other
/// eligible candidate in the full version order.
pub open spec fn highest(bs: Seq<Candidate>, k: int, compatible: Seq<char>, version: Option<Version>) -> bool {
    &&& eligible(bs[k], compatible, version)
    &&& forall|k2: int|
        0 <= k2 < bs.len() && #[trigger] eligible(bs[k2], compatible, version) ==> text_version_order(
            candidate_version(bs[k]),
            candidate_version(bs[k2]),
        ) != Ordering::Less
}

/// Whether bundle `c` is at least as high as every bundle of `e` in version order.
pub open spec fn highest_among(e: Seq<UpdateBundle>, c: int) -> bool {
    forall|t: int| 0 <= t < e.len() ==> version_order(e[c].version, #[trigger] e[t].version) != Ordering::Less
}

/// Whether `elig[j]` is at least as high as every bundle of `elig` in version order.
fn is_highest(elig: &Vec<UpdateBundle>, j: usize) -> (r: bool)
    requires
        j < elig.len(),
        forall|t: int| 0 <= t < elig@.len() ==> (#[trigger] elig@[t]).wf(),
    ensures
        r == highest_among(elig@, j as int),
{
    let mut l: usize = 0;
    while l < elig.len()
        invariant
            j < elig.len(),
            l <= elig.len(),
            forall|t: int| 0 <= t < elig@.len() ==> (#[trigger] elig@[t]).wf(),
            forall|t: int|
                0 <= t < l ==> version_order(elig@[j as int].version, #[trigger] elig@[t].version)
                    != Ordering::Less,
        decreases elig.len() - l,
    {
        match elig[j].version.compare(&elig[l].version) {
            Ordering::Less => {
                return false;
            },
            _ => {},
        }
        l = l + 1;
    }
    true
}

/// Whether the single override candidate is taken: there is exactly one, it
/// makes a bundle, and its compatible is the system's.
pub open spec fn override_wins(overrides: Seq<Candidate>, compatible: Seq<char>) -> bool {
    &&& overrides.len() == 1
    &&& info_usable(overrides[0].info)
    &&& candidate_compatible_is(overrides[0], compatible)
}

/// Select the bundle to install on a system with the given compatible and
/// version, among the override candidates and the regular candidates found
/// on all devices.
///
/// Two or more override candidates are an error. A single override whose
/// compatible is the system's is taken whatever its version. Otherwise the
/// regular candidates that are compatible and newer than the system are
/// considered, and one with the highest version is taken: its (major, minor,
/// patch) is the highest, and wherever some candidate is at least as high as
/// all others in the full version order (always, as semver's order is total),
/// the one taken is such a candidate.
pub fn get_update_bundle(
    compatible: &str,
    version: &Option<Version>,
    overrides: &Vec<Candidate>,
    bundles: &Vec<Candidate>,
) -> (r: Result<Option<UpdateBundle>, Error>)
    requires
        version matches Some(v) ==> v.wf(),
    ensures
        r is Err <==> overrides.len() >= 2,
        r matches Err(e) ==> (e matches Error::TooManyOverrides(ps) && ps@.len() == overrides.len()
            && forall|k: int| 0 <= k < ps@.len() ==> #[trigger] ps@[k]@ == overrides@[k].path@),
        override_wins(overrides@, compatible@) ==> (r matches Ok(Some(b)) && made_from(
            b,
            overrides@[0].path@,
            true,
            overrides@[0].info,
        )),
        overrides.len() < 2 && !override_wins(overrides@, compatible@) ==> {
            &&& r matches Ok(Some(b)) ==> exists|k: int|
                0 <= k < bundles.len() && #[trigger] eligible(bundles@[k], compatible@, *version)
                    && made_from(b, bundles@[k].path@, false, bundles@[k].info)
            &&& r matches Ok(Some(b)) ==> forall|k: int|
                0 <= k < bundles.len() && #[trigger] eligible(bundles@[k], compatible@, *version)
                    ==> triple_order(
                    triple_of(b.version.source@),
                    triple_of(candidate_version(bundles@[k])),
                ) != Ordering::Less
            &&& r matches Ok(Some(b)) ==> (exists|k: int|
                0 <= k < bundles.len() && #[trigger] highest(bundles@, k, compatible@, *version))
                ==> forall|k: int|
                0 <= k < bundles.len() && #[trigger] eligible(bundles@[k], compatible@, *version)
                    ==> text_version_order(b.version.source@, candidate_version(bundles@[k]))
                    != Ordering::Less
            &&& (r matches Ok(None)) <==> forall|k: int|
                0 <= k < bundles.len() ==> !#[trigger] eligible(bundles@[k], compatible@, *version)
        },
{
    if overrides.len() >= 2 {
        let mut paths: Vec<String> = Vec::new();
        let mut i: usize = 0;
        while i < overrides.len()
            invariant
                i <= overrides.len(),
                paths@.len() == i,
                forall|k: int| 0 <= k < i ==> #[trigger] paths@[k]@ == overrides@[k].path@,
            decreases overrides.len() - i,
        {
            paths.push(overrides[i].path.clone());
            i = i + 1;
        }
        return Err(Error::TooManyOverrides(paths));
    }
    if overrides.len() == 1 {
        let c = &overrides[0];
        match UpdateBundle::new(c.path.as_str(), true, &c.info) {
            Ok(b) => {
                if same_text(b.compatible.as_str(), compatible) {
                    return Ok(Some(b));
                }
            },
            Err(_) => {},
        }
    }
    let mut elig: Vec<UpdateBundle> = Vec::new();
    let ghost mut idx: Seq<int> = Seq::empty();
    let mut best: usize = 0;
    let mut i: usize = 0;
    while i < bundles.len()
        invariant
            i <= bundles.len(),
            version matches Some(v) ==> v.wf(),
            elig@.len() == idx.len(),
            forall|t: int| 0 <= t < idx.len() ==> 0 <= #[trigger] idx[t] < i,
            forall|t: int|
                0 <= t < idx.len() ==> eligible(bundles@[#[trigger] idx[t]], compatible@, *version),
            forall|t: int|
                0 <= t < idx.len() ==> made_from(
                    #[trigger] elig@[t],
                    bundles@[idx[t]].path@,
                    false,
                    bundles@[idx[t]].info,
                ) && elig@[t].wf() && elig@[t].compatible@ == compatible@,
            forall|k: int|
                0 <= k < i && #[trigger] eligible(bundles@[k], compatible@, *version) ==> exists|
                    t: int,
                | 0 <= t < idx.len() && #[trigger] idx[t] == k,
            elig@.len() > 0 ==> best < elig@.len(),
            elig@.len() > 0 ==> forall|t: int|
                0 <= t < elig@.len() ==> triple_order(
                    triple_of(elig@[best as int].version.source@),
                    triple_of(#[trigger] elig@[t].version.source@),
                ) != Ordering::Less,
        decreases bundles.len() - i,
    {
        let c = &bundles[i];
        match UpdateBundle::new(c.path.as_str(), false, &c.info) {
            Ok(b) => {
                let newer = match version {
                    Some(v) => match b.version.compare(v) {
                        Ordering::Greater => true,
                        _ => false,
                    },
                    None => true,
                };
                if same_text(b.compatible.as_str(), compatible) && newer {
                    assert(eligible(bundles@[i as int], compatible@, *version));
                    let take = if elig.len() == 0 {
                        true
                    } else {
                        match elig[best].version.compare(&b.version) {
                            Ordering::Less => true,
                            _ => false,
                        }
                    };
                    let ghost old_idx = idx;
                    elig.push(b);
                    proof {
                        idx = idx.push(i as int);
                        assert(idx[idx.len() - 1] == i as int);
                        assert forall|k: int|
                            0 <= k < i + 1 && #[trigger] eligible(
                                bundles@[k],
                                compatible@,
                                *version,
                            ) implies exists|t: int| 0 <= t < idx.len() && #[trigger] idx[t] == k by {
                            if k < i {
                                let t = choose|t: int| 0 <= t < old_idx.len() && old_idx[t] == k;
                                assert(idx[t] == k);
                            } else {
                                assert(idx[idx.len() - 1] == k);
                            }
                        }
                    }
                    if take {
                        best = elig.len() - 1;
                    }
                }
            },
            Err(_) => {},
        }
        i = i + 1;
    }
    if elig.len() == 0 {
        return Ok(None);
    }
    let mut chosen: Option<usize> = None;
    let mut j: usize = 0;
    while j < elig.len()
        invariant
            j <= elig.len(),
            forall|t: int| 0 <= t < elig@.len() ==> (#[trigger] elig@[t]).wf(),
            chosen matches Some(x) ==> x < elig@.len() && highest_among(elig@, x as int),
            forall|t: int| 0 <= t < j && #[trigger] highest_among(elig@, t) ==> chosen is Some,
        decreases elig.len() - j,
    {
        if is_highest(&elig, j) {
            chosen = Some(j);
        }
        j = j + 1;
    }
    let pick = match chosen {
        Some(x) => x,
        None => best,
    };
    let r = elig[pick].duplicate();
    proof {
        let t0 = pick as int;
        assert(made_from(r, bundles@[idx[t0]].path@, false, bundles@[idx[t0]].info));
        assert(eligible(bundles@[idx[t0]], compatible@, *version));
        assert forall|k: int|
            0 <= k < bundles.len() && #[trigger] eligible(
                bundles@[k],
                compatible@,
                *version,
            ) implies triple_order(
            triple_of(r.version.source@),
            triple_of(candidate_version(bundles@[k])),
        ) != Ordering::Less by {
            let t = choose|t: int| 0 <= t < idx.len() && idx[t] == k;
            assert(elig@[t].version.source@ == candidate_version(bundles@[k]));
            if chosen is Some {
                assert(version_order(elig@[t0].version, elig@[t].version) != Ordering::Less);
            }
        }
        if exists|k: int| 0 <= k < bundles.len() && #[trigger] highest(bundles@, k, compatible@, *version) {
            let k = choose|k: int| 0 <= k < bundles.len() && #[trigger] highest(bundles@, k, compatible@, *version);
            let t = choose|t: int| 0 <= t < idx.len() && idx[t] == k;
            assert forall|t2: int| 0 <= t2 < elig@.len() implies version_order(
                elig@[t].version,
                #[trigger] elig@[t2].version,
            ) != Ordering::Less by {
                assert(eligible(bundles@[idx[t2]], compatible@, *version));
            }
            assert(highest_among(elig@, t));
            assert(chosen is Some);
            assert forall|k2: int|
                0 <= k2 < bundles.len() && #[trigger] eligible(
                    bundles@[k2],
                    compatible@,
                    *version,
                ) implies text_version_order(
                r.version.source@,
                candidate_version(bundles@[k2]),
            ) != Ordering::Less by {
                let t2 = choose|t2: int| 0 <= t2 < idx.len() && idx[t2] == k2;
                assert(version_order(elig@[t0].version, elig@[t2].version) != Ordering::Less);
            }
        }
    }
    Ok(Some(r))
}

} // verus!
