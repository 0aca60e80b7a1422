use vstd::prelude::*;
use vstd::string::StringExecFns;

use crate::bundle::UpdateBundle;
use crate::device::{texts, Device, DeviceView};
use crate::error::Error;
use crate::machine::{
    accept_install, accept_search, committed, react, reaction, search_finished, wrong_state_message,
    Reaction, Request,
};
use crate::state::State;
use crate::version::Version;

verus! {

/// The default selector over block device object paths.
pub const DEVICE_REGEX: &'static str = "^/org/freedesktop/UDisks2/block_devices/sd[a-z]{1}[1-9]{1}[0-9]*?$";

/// The settings of the orchestration, read once at start-up.
#[derive(Clone, Debug)]
pub struct Settings {
    /// search on the first iteration and install a found update with reboot
    pub autorun: bool,
    /// the file extension of update bundles
    pub bundle_extension: String,
    /// the selector over block device object paths
    pub device_regex: String,
    /// the directory below a mountpoint that holds override bundles
    pub override_dir: String,
}

impl Default for Settings {
    fn default() -> (r: Settings)
        ensures
            r.autorun,
            r.bundle_extension@ == "raucb"@,
            r.device_regex@ == DEVICE_REGEX@,
            r.override_dir@ == "override"@,
    {
        Settings {
            autorun: true,
            bundle_extension: String::from_str("raucb"),
            device_regex: String::from_str(DEVICE_REGEX),
            override_dir: String::from_str("override"),
        }
    }
}

/// A found update as it is announced: the bundle's path, the system's
/// version (or `0.0.0`), the bundle's version and whether it is an override.
#[derive(Clone, Debug)]
pub struct Update {
    pub name: String,
    pub old_version: String,
    pub new_version: String,
    pub force: bool,
}

impl Update {
    /// Describe a found bundle for a system with the given version.
    pub fn from_bundle(bundle: &UpdateBundle, current_version: &Option<Version>) -> (r: Update)
        requires
            bundle.wf(),
            current_version matches Some(v) ==> v.wf(),
        ensures
            r.name@ == bundle.path@,
            r.old_version@ == (match current_version {
                Some(v) => v.text@,
                None => "0.0.0"@,
            }),
            r.new_version@ == bundle.version.text@,
            r.force == bundle.is_override,
    {
        Update {
            name: bundle.path.clone(),
            old_version: match current_version {
                Some(v) => v.to_text(),
                None => String::from_str("0.0.0"),
            },
            new_version: bundle.version.to_text(),
            force: bundle.is_override,
        }
    }
}

/// The bundle locations found on a sequence of devices, device by device.
pub open spec fn all_bundles(ds: Seq<DeviceView>, overrides: bool) -> Seq<Seq<char>>
    decreases ds.len(),
{
    if ds.len() == 0 {
        Seq::empty()
    } else {
        all_bundles(ds.drop_last(), overrides) + if overrides {
            ds.last().override_bundles
        } else {
            ds.last().bundles
        }
    }
}

/// The views of a sequence of devices.
pub open spec fn device_views(ds: Seq<Device>) -> Seq<DeviceView> {
    ds.map_values(|d: Device| d@)
}

/// Collect the bundle locations of all devices, in order: the override
/// locations when `overrides` is set, else the top-level ones.
pub fn collect_bundle_paths(devices: &Vec<Device>, overrides: bool) -> (r: Vec<String>)
    ensures
        texts(r@) == all_bundles(device_views(devices@), overrides),
{
    let mut paths: Vec<String> = Vec::new();
    let mut i: usize = 0;
    while i < devices.len()
        invariant
            i <= devices.len(),
            texts(paths@) == all_bundles(device_views(devices@.take(i as int)), overrides),
        decreases devices.len() - i,
    {
        let found = if overrides {
            devices[i].override_bundles()
        } else {
            devices[i].bundles()
        };
        let ghost before = paths@;
        let ghost added = if overrides {
            devices@[i as int]@.override_bundles
        } else {
            devices@[i as int]@.bundles
        };
        match found {
            Some(v) => {
                let mut j: usize = 0;
                while j < v.len()
                    invariant
                        j <= v.len(),
                        texts(v@) == added,
                        texts(paths@) == texts(before) + added.take(j as int),
                    decreases v.len() - j,
                {
                    let ghost prev = paths@;
                    paths.push(v[j].clone());
                    assert(texts(paths@) =~= texts(prev).push(v@[j as int]@));
                    assert(added.take(j + 1) =~= added.take(j as int).push(added[j as int]));
                    j = j + 1;
                }
                assert(added.take(v.len() as int) =~= added);
            },
            None => {
                assert(added =~= Seq::<Seq<char>>::empty());
            },
        }
        assert(device_views(devices@.take(i + 1)).drop_last() =~= device_views(devices@.take(i as int)));
        assert(device_views(devices@.take(i + 1)).last() == devices@[i as int]@);
        assert(texts(paths@) =~= all_bundles(device_views(devices@.take(i + 1)), overrides));
        i = i + 1;
    }
    assert(devices@.take(devices.len() as int) =~= devices@);
    paths
}

/// The orchestrator's data: settings, the committed state, the devices of
/// the current search and the candidate bundles it found.
pub struct Caterpillar {
    settings: Settings,
    state: State,
    devices: Vec<Device>,
    updates: Vec<UpdateBundle>,
}

impl Caterpillar {
    /// The committed state.
    pub closed spec fn state_view(&self) -> State {
        self.state
    }

    /// Whether automatic search and install are on.
    pub open spec fn autorun(&self) -> bool {
        self.settings_view().autorun
    }

    /// The settings the orchestrator was created with.
    pub closed spec fn settings_view(&self) -> Settings {
        self.settings
    }

    /// The devices of the current search.
    pub closed spec fn device_list(&self) -> Seq<DeviceView> {
        device_views(self.devices@)
    }

    /// The candidate bundles found by the current search.
    pub closed spec fn update_list(&self) -> Seq<UpdateBundle> {
        self.updates@
    }

    /// Whether the candidate bundles are well formed.
    pub closed spec fn wf(&self) -> bool {
        forall|k: int| 0 <= k < self.updates@.len() ==> (#[trigger] self.updates@[k]).wf()
    }

    /// Create the orchestrator in `Init`, with no devices and no candidates.
    pub fn new(settings: Settings) -> (r: Caterpillar)
        ensures
            r.wf(),
            r.state_view() == State::Init,
            r.settings_view() == settings,
            r.device_list().len() == 0,
            r.update_list().len() == 0,
    {
        Caterpillar { settings, state: State::Init, devices: Vec::new(), updates: Vec::new() }
    }

    /// Return the settings.
    pub fn config(&self) -> (r: &Settings)
        ensures
            *r == self.settings_view(),
    {
        &self.settings
    }

    /// Return the committed state.
    pub fn state(&self) -> (r: State)
        ensures
            r == self.state_view(),
    {
        self.state
    }

    /// Whether the system has been updated.
    pub fn updated(&self) -> (r: bool)
        ensures
            r == self.state_view().updated(),
    {
        self.state.get_updated()
    }

    /// Whether the system is marked for reboot.
    pub fn marked_for_reboot(&self) -> (r: bool)
        ensures
            r == self.state_view().marked_for_reboot(),
    {
        self.state.get_marked_for_reboot()
    }

    /// Receive a posted state: commit it, and on entering `Unmounted` drop
    /// the devices and candidates. Returns what to do and what to post.
    pub fn receive(&mut self, posted: State) -> (r: Reaction)
        requires
            old(self).wf(),
            posted is Idle ==> posted.iteration() < usize::MAX,
        ensures
            final(self).wf(),
            r == reaction(posted, old(self).autorun()),
            final(self).state_view() == committed(posted),
            final(self).settings_view() == old(self).settings_view(),
            r.reset ==> final(self).device_list().len() == 0 && final(self).update_list().len() == 0,
            !r.reset ==> final(self).device_list() == old(self).device_list()
                && final(self).update_list() == old(self).update_list(),
    {
        let r = react(posted, self.settings.autorun);
        self.state = r.state;
        if r.reset {
            self.devices = Vec::new();
            self.updates = Vec::new();
        }
        r
    }

    /// Decide on a request to search for an update (see `accept_search`).
    pub fn search_for_update(&self) -> (r: Result<(bool, usize), Error>)
        ensures
            r is Ok <==> self.state_view() matches State::Idle(false, _),
            r matches Ok((u, i)) ==> self.state_view() == State::Idle(u, i),
            r matches Err(e) ==> (e matches Error::AccessDenied(m) && m@ == "Already in state "@
                + self.state_view().name_of()),
    {
        accept_search(&self.state)
    }

    /// Decide on a request to install or skip the found update (see
    /// `accept_install`); an install needs a candidate bundle.
    pub fn install_update(&self, update: bool, reboot: bool) -> (r: Result<Request, Error>)
        ensures
            (update && (self.state_view() matches State::UpdateFound(false, _)) && self.update_list().len() > 0)
                ==> r == Ok::<Request, Error>(Request::Install {
                    updated: false,
                    iteration: self.state_view().iteration(),
                    reboot,
                }),
            (update && (self.state_view() matches State::UpdateFound(false, _)) && self.update_list().len() == 0)
                ==> r matches Err(Error::NoUpdateBundle),
            (!update && (self.state_view() matches State::UpdateFound(_, _)
                || self.state_view() matches State::NoUpdateFound(_, _))) ==> r == Ok::<Request, Error>(
                Request::Post(State::Skip(self.state_view().updated(), self.state_view().iteration())),
            ),
            !((update && self.state_view() matches State::UpdateFound(false, _)) || (!update && (
            self.state_view() matches State::UpdateFound(_, _) || self.state_view() matches State::NoUpdateFound(_, _))))
                ==> (r matches Err(Error::WrongState(m)) && m@ == wrong_state_message(self.state_view())),
    {
        let r = accept_install(&self.state, update, reboot);
        match r {
            Ok(Request::Install { .. }) => {
                if self.updates.len() == 0 {
                    Err(Error::NoUpdateBundle)
                } else {
                    r
                }
            },
            _ => r,
        }
    }

    /// Return the candidate bundle found last, if any.
    pub fn get_update(&self) -> (r: Option<UpdateBundle>)
        requires
            self.wf(),
        ensures
            r is None <==> self.update_list().len() == 0,
            r matches Some(b) ==> b == self.update_list().last() && b.wf(),
    {
        if self.updates.len() == 0 {
            None
        } else {
            Some(self.updates[self.updates.len() - 1].duplicate())
        }
    }

    /// Keep the devices of the current search.
    pub fn set_devices(&mut self, devices: Vec<Device>)
        ensures
            final(self).device_list() == device_views(devices@),
            final(self).state_view() == old(self).state_view(),
            final(self).settings_view() == old(self).settings_view(),
            final(self).update_list() == old(self).update_list(),
            final(self).wf() == old(self).wf(),
    {
        self.devices = devices;
    }

    /// Return the devices of the current search.
    pub fn devices(&self) -> (r: &Vec<Device>)
        ensures
            device_views(r@) == self.device_list(),
    {
        &self.devices
    }

    /// Record the outcome of bundle selection for a search started in
    /// `Idle(updated, iteration)`: a selected bundle joins the candidates.
    /// Returns the state to post: `UpdateFound` when a bundle was selected,
    /// `NoUpdateFound` when none was or selection failed, so that a failed
    /// selection returns to `Idle` through teardown; and the error, if any,
    /// for reporting.
    pub fn record_search(
        &mut self,
        updated: bool,
        iteration: usize,
        outcome: Result<Option<UpdateBundle>, Error>,
    ) -> (r: (State, Option<Error>))
        requires
            old(self).wf(),
            outcome matches Ok(Some(b)) ==> b.wf(),
        ensures
            final(self).wf(),
            r.0 == search_finished_state(updated, iteration, outcome matches Ok(Some(_))),
            outcome matches Ok(Some(b)) ==> final(self).update_list() == old(self).update_list().push(b),
            !(outcome matches Ok(Some(_))) ==> final(self).update_list() == old(self).update_list(),
            outcome is Ok <==> r.1 is None,
            outcome matches Err(e) ==> r.1 == Some(e),
            final(self).state_view() == old(self).state_view(),
            final(self).settings_view() == old(self).settings_view(),
            final(self).device_list() == old(self).device_list(),
    {
        match outcome {
            Ok(Some(b)) => {
                self.updates.push(b);
                (search_finished(updated, iteration, true), None)
            },
            Ok(None) => (search_finished(updated, iteration, false), None),
            Err(e) => (search_finished(updated, iteration, false), Some(e)),
        }
    }

    /// The indices of the devices that teardown unmounts: those that are
    /// mounted and were not found mounted by someone else.
    pub fn devices_to_unmount(&self) -> (r: Vec<usize>)
        ensures
            forall|k: int| 0 <= k < r@.len() ==> (r@[k] as int) < self.device_list().len(),
            r@.no_duplicates(),
            forall|k: int| 0 <= k < r@.len() ==> {
                let d = #[trigger] self.device_list()[r@[k] as int];
                d.mountpoint is Some && d.mounted_by_us != Some(false)
            },
            forall|j: int|
                0 <= j < self.device_list().len() && (#[trigger] self.device_list()[j]).mountpoint is Some
                    && self.device_list()[j].mounted_by_us != Some(false) ==> r@.contains(j as usize),
    {
        let mut r: Vec<usize> = Vec::new();
        let mut i: usize = 0;
        while i < self.devices.len()
            invariant
                i <= self.devices.len(),
                forall|k: int| 0 <= k < r@.len() ==> (r@[k] as int) < i,
                r@.no_duplicates(),
                forall|k: int| 0 <= k < r@.len() ==> {
                    let d = #[trigger] device_views(self.devices@)[r@[k] as int];
                    d.mountpoint is Some && d.mounted_by_us != Some(false)
                },
                forall|j: int|
                    0 <= j < i && (#[trigger] device_views(self.devices@)[j]).mountpoint is Some
                        && device_views(self.devices@)[j].mounted_by_us != Some(false) ==> r@.contains(j as usize),
            decreases self.devices.len() - i,
        {
            let ghost prev = r@;
            assert(device_views(self.devices@)[i as int] == self.devices@[i as int]@);
            if self.devices[i].unmount_needed() {
                r.push(i);
                assert(r@[r@.len() - 1] == i);
                assert(r@.contains(i));
                assert forall|x: usize| prev.contains(x) implies r@.contains(x) by {
                    let k = choose|k: int| 0 <= k < prev.len() && prev[k] == x;
                    assert(r@[k] == x);
                }
            }
            i = i + 1;
        }
        r
    }

    /// Record the outcome of unmounting device `index` (see
    /// `Device::unmount_finished`).
    pub fn finish_unmount(&mut self, index: usize, success: bool) -> (r: Result<(), Error>)
        requires
            index < old(self).device_list().len(),
        ensures
            r is Ok <==> success,
            final(self).device_list().len() == old(self).device_list().len(),
            success ==> final(self).device_list()[index as int] == (DeviceView {
                mountpoint: None,
                ..old(self).device_list()[index as int]
            }),
            !success ==> final(self).device_list() == old(self).device_list(),
            forall|k: int| 0 <= k < old(self).device_list().len() && k != index ==> final(self).device_list()[k] == old(self).device_list()[k],
            final(self).state_view() == old(self).state_view(),
            final(self).settings_view() == old(self).settings_view(),
            final(self).update_list() == old(self).update_list(),
            final(self).wf() == old(self).wf(),
    {
        let mut d = self.devices.remove(index);
        let r = d.unmount_finished(success);
        self.devices.insert(index, d);
        proof {
            assert(!success ==> device_views(self.devices@) =~= old(self).device_list());
        }
        r
    }
}

/// The state a search posts once selection is done.
pub open spec fn search_finished_state(updated: bool, iteration: usize, found: bool) -> State {
    if found {
        State::UpdateFound(updated, iteration)
    } else {
        State::NoUpdateFound(updated, iteration)
    }
}

} // verus!
