use vstd::prelude::*;
use vstd::string::StringExecFns;

verus! {

/// The state of the update orchestration.
///
/// Most states carry whether the system has been updated and the iteration
/// the machine is in; the three teardown-side states also carry whether a
/// reboot was requested.
#[derive(Clone, Copy, Debug, PartialEq, Eq, Structural)]
#[non_exhaustive]
pub enum State {
    Done(bool, usize),
    Idle(bool, usize),
    Init,
    Mounted(bool, usize),
    Mounting(bool, usize),
    NoUpdateFound(bool, usize),
    Searching(bool, usize),
    Skip(bool, usize),
    Unmounted(bool, usize, bool),
    Unmounting(bool, usize, bool),
    Updated(bool, usize, bool),
    UpdateFound(bool, usize),
    Updating(bool, usize),
}

impl State {
    /// Whether the system has been updated in this state.
    pub open spec fn updated(self) -> bool {
        match self {
            State::Init => false,
            State::Done(u, _) | State::Idle(u, _) | State::Mounted(u, _) | State::Mounting(u, _)
            | State::NoUpdateFound(u, _) | State::Searching(u, _) | State::Skip(u, _)
            | State::UpdateFound(u, _) | State::Updating(u, _) => u,
            State::Unmounted(u, _, _) | State::Unmounting(u, _, _) | State::Updated(u, _, _) => u,
        }
    }

    /// The iteration carried by this state (zero for `Init`).
    pub open spec fn iteration(self) -> usize {
        match self {
            State::Init => 0,
            State::Done(_, i) | State::Idle(_, i) | State::Mounted(_, i) | State::Mounting(_, i)
            | State::NoUpdateFound(_, i) | State::Searching(_, i) | State::Skip(_, i)
            | State::UpdateFound(_, i) | State::Updating(_, i) => i,
            State::Unmounted(_, i, _) | State::Unmounting(_, i, _) | State::Updated(_, i, _) => i,
        }
    }

    /// Whether a reboot is requested: only the teardown-side states carry it.
    pub open spec fn marked_for_reboot(self) -> bool {
        match self {
            State::Unmounted(_, _, r) | State::Unmounting(_, _, r) | State::Updated(_, _, r) => r,
            _ => false,
        }
    }

    /// Return whether the system has been updated successfully.
    pub fn get_updated(&self) -> (r: bool)
        ensures
            r == self.updated(),
    {
        match self {
            State::Init => false,
            State::Done(u, _) | State::Idle(u, _) | State::Mounted(u, _) | State::Mounting(u, _)
            | State::NoUpdateFound(u, _) | State::Searching(u, _) | State::Skip(u, _)
            | State::UpdateFound(u, _) | State::Updating(u, _) => *u,
            State::Unmounted(u, _, _) | State::Unmounting(u, _, _) | State::Updated(u, _, _) => *u,
        }
    }

    /// Return the iteration the machine is currently in.
    pub fn get_iteration(&self) -> (r: usize)
        ensures
            r == self.iteration(),
    {
        match self {
            State::Init => 0,
            State::Done(_, i) | State::Idle(_, i) | State::Mounted(_, i) | State::Mounting(_, i)
            | State::NoUpdateFound(_, i) | State::Searching(_, i) | State::Skip(_, i)
            | State::UpdateFound(_, i) | State::Updating(_, i) => *i,
            State::Unmounted(_, i, _) | State::Unmounting(_, i, _) | State::Updated(_, i, _) => *i,
        }
    }

    /// Return whether the system is marked for reboot: true exactly in
    /// `Unmounting`, `Unmounted` and `Updated` with the reboot flag set.
    pub fn get_marked_for_reboot(&self) -> (r: bool)
        ensures
            r == self.marked_for_reboot(),
            r <==> (self matches State::Unmounting(_, _, true) || self matches State::Unmounted(
                _,
                _,
                true,
            ) || self matches State::Updated(_, _, true)),
    {
        match self {
            State::Unmounted(_, _, r) | State::Unmounting(_, _, r) | State::Updated(_, _, r) => *r,
            _ => false,
        }
    }
    /// The tag name of this state, as published on the bus.
    pub open spec fn name_of(self) -> Seq<char> {
        match self {
            State::Done(..) => "done"@,
            State::Idle(..) => "idle"@,
            State::Init => "init"@,
            State::Mounted(..) => "mounted"@,
            State::Mounting(..) => "mounting"@,
            State::NoUpdateFound(..) => "noupdatefound"@,
            State::Searching(..) => "searching"@,
            State::Skip(..) => "skip"@,
            State::Unmounted(..) => "unmounted"@,
            State::Unmounting(..) => "unmounting"@,
            State::Updated(..) => "updated"@,
            State::UpdateFound(..) => "updatefound"@,
            State::Updating(..) => "updating"@,
        }
    }

    /// Return the tag name of this state.
    pub fn name(&self) -> (r: String)
        ensures
            r@ == self.name_of(),
    {
        match self {
            State::Done(..) => String::from_str("done"),
            State::Idle(..) => String::from_str("idle"),
            State::Init => String::from_str("init"),
            State::Mounted(..) => String::from_str("mounted"),
            State::Mounting(..) => String::from_str("mounting"),
            State::NoUpdateFound(..) => String::from_str("noupdatefound"),
            State::Searching(..) => String::from_str("searching"),
            State::Skip(..) => String::from_str("skip"),
            State::Unmounted(..) => String::from_str("unmounted"),
            State::Unmounting(..) => String::from_str("unmounting"),
            State::Updated(..) => String::from_str("updated"),
            State::UpdateFound(..) => String::from_str("updatefound"),
            State::Updating(..) => String::from_str("updating"),
        }
    }
}

} // verus!
