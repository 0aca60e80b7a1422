use std::cmp::Ordering;

use caterpillar::{get_update_bundle, install_error, Candidate, Error, InstallStep, State, UpdateBundle, Version};

fn cand(path: &str, compatible: &str, version: &str) -> Candidate {
    Candidate { path: path.to_string(), info: Ok((compatible.to_string(), version.to_string())) }
}

fn bundle(path: &str, compatible: &str, version: &str) -> UpdateBundle {
    UpdateBundle::new(path, false, &Ok((compatible.to_string(), version.to_string()))).unwrap()
}

#[test]
fn version_parse_parts_and_text() {
    let v = Version::parse("1.2.3-rc.1+build5").unwrap();
    assert_eq!((v.major, v.minor, v.patch), (1, 2, 3));
    assert_eq!(v.pre, "rc.1");
    assert_eq!(v.build, "build5");
    assert_eq!(v.to_text(), "1.2.3-rc.1+build5");
    assert_eq!(Version::parse("10.0.7").unwrap().to_text(), "10.0.7");
}

#[test]
fn version_parse_is_strict() {
    assert!(Version::parse("1.0").is_err());
    assert!(Version::parse("v1.0.0").is_err());
    assert!(Version::parse("01.0.0").is_err());
    assert!(Version::parse("").is_err());
}

#[test]
fn version_compare() {
    let a = Version::parse("1.2.3").unwrap();
    let b = Version::parse("1.10.0").unwrap();
    let pre = Version::parse("1.2.3-alpha").unwrap();
    assert_eq!(a.compare(&b), Ordering::Less);
    assert_eq!(b.compare(&a), Ordering::Greater);
    assert_eq!(a.compare(&a), Ordering::Equal);
    assert_eq!(pre.compare(&a), Ordering::Less);
    assert_eq!(a.compare(&pre), Ordering::Greater);
}

#[test]
fn bundle_order_compatible_then_version() {
    let a = bundle("/a", "alpha", "9.0.0");
    let b = bundle("/b", "beta", "1.0.0");
    let c = bundle("/c", "beta", "2.0.0");
    assert_eq!(a.cmp(&b), Ordering::Less);
    assert_eq!(b.cmp(&a), Ordering::Greater);
    assert_eq!(b.cmp(&c), Ordering::Less);
    assert_eq!(a.cmp(&c), Ordering::Less);
    assert_eq!(c.cmp(&c), Ordering::Equal);
    assert_eq!(b.partial_cmp(&c), Some(Ordering::Less));
    let d = bundle("/d", "beta", "2.0.0");
    assert_eq!(c.cmp(&d), Ordering::Equal);
}

#[test]
fn bundle_errors() {
    match UpdateBundle::new("/x.raucb", false, &Err("not found".to_string())) {
        Err(Error::BundleInfo(p, why)) => {
            assert_eq!(p, "/x.raucb");
            assert_eq!(why, "not found");
        }
        _ => panic!("expected a bundle info error"),
    }
    match UpdateBundle::new("/x.raucb", false, &Ok(("system".to_string(), "1.x".to_string()))) {
        Err(Error::BundleVersion(v, p, _)) => {
            assert_eq!(v, "1.x");
            assert_eq!(p, "/x.raucb");
        }
        _ => panic!("expected a bundle version error"),
    }
}

#[test]
fn installed_path_only_for_overrides() {
    let o = UpdateBundle::new("/m/override/o.raucb", true, &Ok(("s".to_string(), "1.0.0".to_string()))).unwrap();
    assert_eq!(o.installed_path(), Some("/m/override/o.raucb.installed".to_string()));
    assert_eq!(bundle("/m/u.raucb", "s", "1.0.0").installed_path(), None);
}

#[test]
fn selects_newer_compatible_only() {
    let system = Some(Version::parse("1.5.0").unwrap());
    let bundles = vec![
        cand("/m/old.raucb", "system", "1.0.0"),
        cand("/m/same.raucb", "system", "1.5.0"),
        cand("/m/new.raucb", "system", "1.6.0"),
        cand("/m/other.raucb", "other", "9.0.0"),
        cand("/m/broken.raucb", "system", "x"),
        Candidate { path: "/m/gone.raucb".to_string(), info: Err("not found".to_string()) },
    ];
    let r = get_update_bundle("system", &system, &vec![], &bundles).unwrap().unwrap();
    assert_eq!(r.path(), "/m/new.raucb");
    assert!(!r.is_override());
}

#[test]
fn nothing_newer_gives_none() {
    let system = Some(Version::parse("3.0.0").unwrap());
    let bundles = vec![cand("/m/a.raucb", "system", "1.0.0"), cand("/m/b.raucb", "system", "3.0.0")];
    assert!(get_update_bundle("system", &system, &vec![], &bundles).unwrap().is_none());
    assert!(get_update_bundle("system", &None, &vec![], &vec![]).unwrap().is_none());
}

#[test]
fn without_system_version_any_compatible_wins() {
    let bundles = vec![cand("/m/a.raucb", "system", "0.0.1"), cand("/m/b.raucb", "other", "5.0.0")];
    let r = get_update_bundle("system", &None, &vec![], &bundles).unwrap().unwrap();
    assert_eq!(r.path(), "/m/a.raucb");
}

#[test]
fn single_override_wins_regardless_of_version() {
    let system = Some(Version::parse("2.0.0").unwrap());
    let overrides = vec![cand("/m/override/o.raucb", "system", "0.1.0")];
    let bundles = vec![cand("/m/a.raucb", "system", "3.0.0")];
    let r = get_update_bundle("system", &system, &overrides, &bundles).unwrap().unwrap();
    assert_eq!(r.path(), "/m/override/o.raucb");
    assert!(r.is_override());
}

#[test]
fn incompatible_override_falls_through() {
    let overrides = vec![cand("/m/override/o.raucb", "other", "0.1.0")];
    let bundles = vec![cand("/m/a.raucb", "system", "3.0.0")];
    let r = get_update_bundle("system", &None, &overrides, &bundles).unwrap().unwrap();
    assert_eq!(r.path(), "/m/a.raucb");
}

#[test]
fn two_overrides_are_refused() {
    let overrides = vec![cand("/m/override/a.raucb", "system", "1.0.0"), cand("/n/override/b.raucb", "system", "2.0.0")];
    let bundles = vec![cand("/m/a.raucb", "system", "3.0.0")];
    match get_update_bundle("system", &None, &overrides, &bundles) {
        Err(Error::TooManyOverrides(paths)) => {
            assert_eq!(paths, vec!["/m/override/a.raucb".to_string(), "/n/override/b.raucb".to_string()])
        }
        _ => panic!("expected too many overrides"),
    }
}

#[test]
fn bundle_description_and_completion() {
    let b = bundle("/m/u.raucb", "system", "1.2.3");
    assert_eq!(b.describe(), "/m/u.raucb (variant: system; version: 1.2.3)");
    assert!(matches!(b.after_install(1, false, 1, true), InstallStep::ReportFailure));
    match b.after_install(0, false, 1, true) {
        InstallStep::Post(s) => assert_eq!(s, State::Updated(false, 1, true)),
        _ => panic!("expected a post"),
    }
    let o = UpdateBundle::new("/m/override/o.raucb", true, &Ok(("s".to_string(), "1.0.0".to_string()))).unwrap();
    match o.after_install(-1, false, 2, false) {
        InstallStep::Rename { from, to, then } => {
            assert_eq!(from, "/m/override/o.raucb");
            assert_eq!(to, "/m/override/o.raucb.installed");
            assert_eq!(then, State::Updated(false, 2, false));
        }
        _ => panic!("expected a rename"),
    }
    match install_error("boom".to_string()) {
        Error::UpdateFailed(m) => assert_eq!(m, "boom"),
        _ => panic!("expected an update failure"),
    }
}

#[test]
fn release_beats_prerelease_of_same_numbers() {
    let bundles = vec![
        cand("/m/rel.raucb", "system", "2.0.0"),
        cand("/m/pre.raucb", "system", "2.0.0-rc.1"),
        cand("/m/old.raucb", "system", "1.0.0"),
    ];
    let r = get_update_bundle("system", &None, &vec![], &bundles).unwrap().unwrap();
    assert_eq!(r.path(), "/m/rel.raucb");
    let bundles = vec![cand("/m/a.raucb", "system", "2.0.0-alpha"), cand("/m/b.raucb", "system", "2.0.0-beta")];
    let r = get_update_bundle("system", &None, &vec![], &bundles).unwrap().unwrap();
    assert_eq!(r.path(), "/m/b.raucb");
}
