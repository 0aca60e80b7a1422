use std::collections::VecDeque;

use caterpillar::{
    collect_bundle_paths, get_update_bundle, Candidate, Caterpillar, DirEntry, Effect, Error,
    InstallStep, MountAction, MountAnswer, Request, Settings, State, UdisksInfo, Update, Version,
    DEVICE_REGEX,
};

/// A bundle file on the medium: its name, compatible and version text.
struct Bundle {
    name: &'static str,
    compatible: &'static str,
    version: &'static str,
}

struct Outcome {
    trace: Vec<State>,
    rebooted: bool,
    renamed: Vec<(String, String)>,
    announced: Vec<Update>,
    selection_error: Option<Error>,
}

const MOUNTPOINT: &str = "/media/sda1";

fn info_for(media: &[Bundle], overrides: &[Bundle], path: &str) -> Result<(String, String), String> {
    for b in media.iter() {
        if path == format!("{}/{}", MOUNTPOINT, b.name) {
            return Ok((b.compatible.to_string(), b.version.to_string()));
        }
    }
    for b in overrides.iter() {
        if path == format!("{}/override/{}", MOUNTPOINT, b.name) {
            return Ok((b.compatible.to_string(), b.version.to_string()));
        }
    }
    Err("not found".to_string())
}

fn run(media: &[Bundle], overrides: &[Bundle], system_version: Option<&str>) -> Outcome {
    let settings = Settings::default();
    let autorun = settings.autorun;
    let mut c = Caterpillar::new(settings);
    let system = "system";
    let version: Option<Version> = system_version.map(|v| Version::parse(v).unwrap());
    let mut queue: VecDeque<State> = VecDeque::new();
    let mut out = Outcome {
        trace: vec![c.state()],
        rebooted: false,
        renamed: vec![],
        announced: vec![],
        selection_error: None,
    };
    let mut searched = false;
    queue.push_back(State::Idle(false, 0));
    while let Some(posted) = queue.pop_front() {
        let r = c.receive(posted);
        out.trace.push(r.state);
        match r.effect {
            Effect::AnnounceUpdate { install } => {
                let bundle = c.get_update().unwrap();
                out.announced.push(Update::from_bundle(&bundle, &version));
                if install {
                    if let Ok(Request::Install { updated, iteration, reboot }) = c.install_update(true, true) {
                        queue.push_back(State::Updating(updated, iteration));
                        match bundle.after_install(0, updated, iteration, reboot) {
                            InstallStep::Rename { from, to, then } => {
                                out.renamed.push((from, to));
                                queue.push_back(then);
                            }
                            InstallStep::Post(then) => queue.push_back(then),
                            InstallStep::ReportFailure => panic!("install reported as failed"),
                        }
                    }
                }
            }
            Effect::UnmountDevices => {
                for index in c.devices_to_unmount() {
                    c.finish_unmount(index, true).unwrap();
                }
            }
            Effect::Reboot => {
                out.rebooted = true;
                break;
            }
            _ => {}
        }
        if let Some(p) = r.post {
            queue.push_back(p);
        }
        if autorun && !searched && matches!(c.state(), State::Idle(false, _)) {
            searched = true;
            let (u, i) = c.search_for_update().unwrap();
            queue.push_back(State::Mounting(u, i));
            let paths = vec!["/org/freedesktop/UDisks2/block_devices/sda1".to_string()];
            let mut devices = UdisksInfo::get_block_devices(&paths, DEVICE_REGEX).unwrap();
            for d in devices.iter_mut() {
                let mut action = MountAction::AskUsage;
                loop {
                    let answer = match action {
                        MountAction::AskUsage => MountAnswer::Usage("filesystem".to_string()),
                        MountAction::AskPartitionNumber => MountAnswer::PartitionNumber(1),
                        MountAction::AskPartitionType => MountAnswer::PartitionType("0x83".to_string()),
                        MountAction::AskMountpoints => MountAnswer::Mountpoints(vec![]),
                        MountAction::Mount => MountAnswer::Mounted(MOUNTPOINT.to_string()),
                        MountAction::Done(_) => break,
                    };
                    action = d.mount_progress(answer).unwrap();
                }
                assert_eq!(d.mounted_by_us(), Some(true));
                let entries: Vec<DirEntry> = media
                    .iter()
                    .map(|b| DirEntry { path: format!("{}/{}", MOUNTPOINT, b.name), is_file: true })
                    .collect();
                d.find_bundles(&entries, "raucb").unwrap();
                let location = d.override_location("override").unwrap();
                let entries: Vec<DirEntry> = overrides
                    .iter()
                    .map(|b| DirEntry { path: format!("{}/{}", location, b.name), is_file: true })
                    .collect();
                d.find_override_bundles(&entries, "raucb").unwrap();
            }
            queue.push_back(State::Mounted(u, i));
            queue.push_back(State::Searching(u, i));
            let candidates = |paths: Vec<String>| -> Vec<Candidate> {
                paths
                    .into_iter()
                    .map(|p| {
                        let info = info_for(media, overrides, &p);
                        Candidate { path: p, info }
                    })
                    .collect()
            };
            let override_candidates = candidates(collect_bundle_paths(&devices, true));
            let regular = candidates(collect_bundle_paths(&devices, false));
            c.set_devices(devices);
            let outcome = get_update_bundle(system, &version, &override_candidates, &regular);
            let (next, error) = c.record_search(u, i, outcome);
            out.selection_error = error;
            queue.push_back(next);
        }
    }
    out
}

fn names(trace: &[State]) -> Vec<String> {
    trace.iter().map(|s| s.name()).collect()
}

fn check_trace_laws(trace: &[State]) {
    let mut idle = 0;
    for k in 1..trace.len() {
        assert!(!trace[k - 1].get_updated() || trace[k].get_updated());
        assert!(trace[k - 1].get_iteration() <= trace[k].get_iteration());
        if matches!(trace[k], State::Idle(..)) {
            idle += 1;
        }
        assert_eq!(trace[k].get_iteration(), idle);
    }
}

#[test]
fn single_match_installs_and_reboots() {
    let media = [Bundle { name: "update.raucb", compatible: "system", version: "1.0.0" }];
    let out = run(&media, &[], None);
    assert_eq!(
        names(&out.trace),
        vec![
            "init", "idle", "mounting", "mounted", "searching", "updatefound", "updating", "updated",
            "unmounting", "unmounted"
        ]
    );
    assert_eq!(out.trace[5], State::UpdateFound(false, 1));
    assert_eq!(out.trace[9], State::Unmounted(true, 1, true));
    assert!(out.rebooted);
    assert_eq!(out.announced[0].old_version, "0.0.0");
    assert_eq!(out.announced[0].new_version, "1.0.0");
    assert_eq!(out.announced[0].name, "/media/sda1/update.raucb");
    assert!(!out.announced[0].force);
    assert!(out.renamed.is_empty());
    check_trace_laws(&out.trace);
}

#[test]
fn no_bundle_returns_to_idle() {
    let out = run(&[], &[], None);
    assert_eq!(
        names(&out.trace),
        vec!["init", "idle", "mounting", "mounted", "searching", "noupdatefound", "unmounting", "unmounted", "idle"]
    );
    assert_eq!(*out.trace.last().unwrap(), State::Idle(false, 2));
    assert!(!out.rebooted);
    check_trace_laws(&out.trace);
}

#[test]
fn two_compatible_picks_highest() {
    let media = [
        Bundle { name: "update.raucb", compatible: "system", version: "1.0.0" },
        Bundle { name: "update2.raucb", compatible: "system", version: "2.0.0" },
    ];
    let out = run(&media, &[], None);
    assert_eq!(out.announced[0].name, "/media/sda1/update2.raucb");
    assert_eq!(out.announced[0].new_version, "2.0.0");
    check_trace_laws(&out.trace);
}

#[test]
fn override_wins_and_is_renamed() {
    let media = [Bundle { name: "update.raucb", compatible: "system", version: "1.0.0" }];
    let overrides = [Bundle { name: "other.raucb", compatible: "system", version: "0.5.0" }];
    let out = run(&media, &overrides, Some("2.0.0"));
    assert_eq!(out.announced[0].name, "/media/sda1/override/other.raucb");
    assert_eq!(out.announced[0].old_version, "2.0.0");
    assert_eq!(out.announced[0].new_version, "0.5.0");
    assert!(out.announced[0].force);
    assert_eq!(
        out.renamed,
        vec![(
            "/media/sda1/override/other.raucb".to_string(),
            "/media/sda1/override/other.raucb.installed".to_string()
        )]
    );
    assert!(out.rebooted);
    check_trace_laws(&out.trace);
}

#[test]
fn too_many_overrides_returns_to_idle() {
    let overrides = [
        Bundle { name: "a.raucb", compatible: "system", version: "1.0.0" },
        Bundle { name: "b.raucb", compatible: "system", version: "2.0.0" },
    ];
    let out = run(&[], &overrides, None);
    match out.selection_error {
        Some(Error::TooManyOverrides(paths)) => assert_eq!(
            paths,
            vec!["/media/sda1/override/a.raucb".to_string(), "/media/sda1/override/b.raucb".to_string()]
        ),
        _ => panic!("expected too many overrides"),
    }
    assert!(out.announced.is_empty());
    assert!(out.renamed.is_empty());
    assert_eq!(
        names(&out.trace)[5..].to_vec(),
        vec!["noupdatefound", "unmounting", "unmounted", "idle"]
    );
    assert!(!out.rebooted);
    check_trace_laws(&out.trace);
}

#[test]
fn incompatible_only_finds_nothing() {
    let media = [Bundle { name: "update.raucb", compatible: "other-system", version: "1.0.0" }];
    let out = run(&media, &[], None);
    assert!(out.announced.is_empty());
    assert_eq!(out.trace[5], State::NoUpdateFound(false, 1));
    assert_eq!(*out.trace.last().unwrap(), State::Idle(false, 2));
    check_trace_laws(&out.trace);
}
