use caterpillar::{get_slot_names, unwrap_slot_status, Error, RaucInfo, SlotStatus};

fn status(name: &str, pairs: &[(&str, &str)]) -> SlotStatus {
    (name.to_string(), pairs.iter().map(|(k, v)| (k.to_string(), v.to_string())).collect())
}

#[test]
fn slot_names_in_order() {
    let s = vec![status("A", &[("foo", "value")]), status("B", &[])];
    assert_eq!(get_slot_names(&s), vec!["A".to_string(), "B".to_string()]);
}

#[test]
fn slot_status_of_named_slot() {
    let s = vec![status("A", &[("foo", "value")])];
    assert_eq!(unwrap_slot_status("A", &s), Some(vec![("foo".to_string(), "value".to_string())]));
    assert_eq!(unwrap_slot_status("B", &s), None);
}

#[test]
fn system_version_from_primary_slot() {
    let s = vec![
        status("rootfs.0", &[("state", "booted"), ("bundle.version", "1.2.0")]),
        status("rootfs.1", &[("state", "inactive"), ("bundle.version", "1.1.0")]),
    ];
    let info = RaucInfo::new(
        "idle".to_string(),
        "system".to_string(),
        "foo".to_string(),
        "A".to_string(),
        "rootfs.0",
        &s,
    )
    .unwrap();
    assert_eq!(info.operation(), Some("idle"));
    assert_eq!(info.compatible(), "system");
    assert_eq!(info.variant(), "foo");
    assert_eq!(info.boot_slot(), "A");
    assert_eq!(info.version_string(), "1.2.0");
    assert_eq!(info.slots().len(), 2);
    assert!(info.slots()[0].primary && info.slots()[0].booted);
    assert!(!info.slots()[1].primary && !info.slots()[1].booted);
    assert_eq!(info.slots()[1].version_string(), "1.1.0");
}

#[test]
fn no_version_without_primary_version() {
    let s = vec![status("A", &[("state", "active")])];
    let info = RaucInfo::new("idle".into(), "c".into(), "v".into(), "A".into(), "A", &s).unwrap();
    assert!(info.version().is_none());
    assert_eq!(info.version_string(), "");
    assert!(info.slots()[0].booted);
}

#[test]
fn invalid_slot_version_is_an_error() {
    let s = vec![status("A", &[("bundle.version", "one")])];
    match RaucInfo::new("idle".into(), "c".into(), "v".into(), "A".into(), "A", &s) {
        Err(Error::SlotVersion(v, slot, _)) => {
            assert_eq!(v, "one");
            assert_eq!(slot, "A");
        }
        _ => panic!("expected a slot version error"),
    }
}

#[test]
fn rauc_info_description() {
    let s = vec![status("A", &[("bundle.version", "1.0.0")])];
    let info = RaucInfo::new("idle".into(), "c".into(), "v".into(), "A".into(), "A", &s).unwrap();
    assert_eq!(
        info.describe(),
        "RAUC (idle) for compatible \"c\" (variant: \"v\") on boot slot \"A\" in version \"1.0.0\""
    );
}
