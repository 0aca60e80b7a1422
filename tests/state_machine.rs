use caterpillar::{
    accept_install, accept_search, react, search_finished, Caterpillar, Effect, Error, Request,
    Settings, State,
};

#[test]
fn getters_read_payload() {
    let s = State::Unmounting(true, 3, true);
    assert!(s.get_updated());
    assert_eq!(s.get_iteration(), 3);
    assert!(s.get_marked_for_reboot());
    assert!(!State::Init.get_updated());
    assert_eq!(State::Init.get_iteration(), 0);
    assert_eq!(State::Idle(false, 7).get_iteration(), 7);
}

#[test]
fn marked_for_reboot_only_in_teardown_states() {
    assert!(State::Unmounting(false, 1, true).get_marked_for_reboot());
    assert!(State::Unmounted(false, 1, true).get_marked_for_reboot());
    assert!(State::Updated(false, 1, true).get_marked_for_reboot());
    assert!(!State::Unmounting(true, 1, false).get_marked_for_reboot());
    assert!(!State::UpdateFound(true, 1).get_marked_for_reboot());
    assert!(!State::Done(true, 1).get_marked_for_reboot());
    assert!(!State::Init.get_marked_for_reboot());
}

#[test]
fn state_names() {
    assert_eq!(State::Init.name(), "init");
    assert_eq!(State::NoUpdateFound(false, 1).name(), "noupdatefound");
    assert_eq!(State::UpdateFound(false, 1).name(), "updatefound");
    assert_eq!(State::Unmounted(false, 1, false).name(), "unmounted");
    assert_eq!(State::Done(false, 1).name(), "done");
}

#[test]
fn idle_increments_iteration_in_place() {
    let r = react(State::Idle(false, 0), true);
    assert_eq!(r.state, State::Idle(false, 1));
    assert_eq!(r.post, None);
    assert_eq!(r.effect, Effect::Nothing);
}

#[test]
fn reactions_post_successors() {
    assert_eq!(react(State::NoUpdateFound(false, 2), true).post, Some(State::Unmounting(false, 2, false)));
    assert_eq!(react(State::Skip(true, 2), true).post, Some(State::Unmounting(true, 2, false)));
    let r = react(State::Unmounting(false, 2, true), true);
    assert_eq!(r.effect, Effect::UnmountDevices);
    assert_eq!(r.post, Some(State::Unmounted(false, 2, true)));
    assert_eq!(react(State::Updated(false, 4, false), true).post, Some(State::Unmounting(true, 4, false)));
    assert_eq!(react(State::Done(false, 4), true).effect, Effect::Finish);
    assert_eq!(react(State::Mounting(false, 4), true).post, None);
}

#[test]
fn update_found_installs_only_on_first_autorun_iteration() {
    assert_eq!(react(State::UpdateFound(false, 1), true).effect, Effect::AnnounceUpdate { install: true });
    assert_eq!(react(State::UpdateFound(false, 2), true).effect, Effect::AnnounceUpdate { install: false });
    assert_eq!(react(State::UpdateFound(false, 1), false).effect, Effect::AnnounceUpdate { install: false });
}

#[test]
fn unmounted_reboots_or_returns_to_idle() {
    let r = react(State::Unmounted(true, 1, false), true);
    assert_eq!(r.effect, Effect::Reboot);
    assert_eq!(r.post, None);
    assert!(r.reset);
    let r = react(State::Unmounted(true, 2, true), false);
    assert_eq!(r.effect, Effect::Reboot);
    let r = react(State::Unmounted(true, 2, false), true);
    assert_eq!(r.effect, Effect::Nothing);
    assert_eq!(r.post, Some(State::Idle(true, 2)));
    let r = react(State::Unmounted(false, 1, true), true);
    assert_eq!(r.post, Some(State::Idle(false, 1)));
    assert!(r.reset);
}

#[test]
fn search_accepted_only_when_idle_and_not_updated() {
    assert_eq!(accept_search(&State::Idle(false, 3)).unwrap(), (false, 3));
    let refused = [
        State::Idle(true, 3),
        State::Init,
        State::Mounting(false, 1),
        State::UpdateFound(false, 1),
        State::Unmounted(false, 1, false),
        State::Done(false, 1),
    ];
    for s in refused.iter() {
        match accept_search(s) {
            Err(Error::AccessDenied(m)) => assert_eq!(m, format!("Already in state {}", s.name())),
            _ => panic!("search accepted in {:?}", s),
        }
    }
}

#[test]
fn install_guard() {
    assert_eq!(
        accept_install(&State::UpdateFound(false, 1), true, true).unwrap(),
        Request::Install { updated: false, iteration: 1, reboot: true }
    );
    assert_eq!(
        accept_install(&State::UpdateFound(false, 1), false, true).unwrap(),
        Request::Post(State::Skip(false, 1))
    );
    assert_eq!(
        accept_install(&State::NoUpdateFound(true, 2), false, false).unwrap(),
        Request::Post(State::Skip(true, 2))
    );
    match accept_install(&State::UpdateFound(true, 1), true, true) {
        Err(Error::WrongState(m)) => assert_eq!(m, "System is updated already, waiting for reboot"),
        _ => panic!("install accepted after update"),
    }
    match accept_install(&State::Idle(false, 1), true, true) {
        Err(Error::WrongState(m)) => assert_eq!(m, "idle"),
        _ => panic!("install accepted in idle"),
    }
    match accept_install(&State::NoUpdateFound(false, 1), true, true) {
        Err(Error::WrongState(m)) => assert_eq!(m, "noupdatefound"),
        _ => panic!("install accepted without update"),
    }
}

#[test]
fn search_finished_states() {
    assert_eq!(search_finished(false, 1, true), State::UpdateFound(false, 1));
    assert_eq!(search_finished(false, 1, false), State::NoUpdateFound(false, 1));
}

#[test]
fn caterpillar_refuses_install_without_candidate() {
    let mut c = Caterpillar::new(Settings::default());
    c.receive(State::UpdateFound(false, 1));
    assert!(matches!(c.install_update(true, true), Err(Error::NoUpdateBundle)));
    assert!(matches!(c.search_for_update(), Err(Error::AccessDenied(_))));
    assert_eq!(c.state(), State::UpdateFound(false, 1));
}

#[test]
fn settings_defaults() {
    let s = Settings::default();
    assert!(s.autorun);
    assert_eq!(s.bundle_extension, "raucb");
    assert_eq!(s.override_dir, "override");
    assert_eq!(s.device_regex, "^/org/freedesktop/UDisks2/block_devices/sd[a-z]{1}[1-9]{1}[0-9]*?$");
}
