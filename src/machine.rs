use vstd::prelude::*;
use vstd::string::StringExecFns;

use crate::error::Error;
use crate::state::State;

verus! {

/// What the drain worker does after committing a state.
#[derive(Clone, Copy, Debug, PartialEq, Eq, Structural)]
pub enum Effect {
    /// Nothing beyond the commit.
    Nothing,
    /// Signal completion: the worker exits.
    Finish,
    /// Broadcast the found update; with `install` set, request its
    /// installation (with reboot) through the bus.
    AnnounceUpdate { install: bool },
    /// Unmount every mounted device.
    UnmountDevices,
    /// Ask the session manager for a non-interactive reboot.
    Reboot,
}

/// The outcome of receiving a state from the inbox.
#[derive(Clone, Copy, Debug, PartialEq, Eq, Structural)]
pub struct Reaction {
    /// The state that stands committed once the reaction is done.
    pub state: State,
    /// The action to perform.
    pub effect: Effect,
    /// The successor to post to the inbox, if any.
    pub post: Option<State>,
    /// Whether the device and candidate collections are to be emptied.
    pub reset: bool,
}

/// A control request that was accepted by the state guard.
#[derive(Clone, Copy, Debug, PartialEq, Eq, Structural)]
pub enum Request {
    /// Install the selected bundle; on success post `Updated(updated, iteration, reboot)`.
    Install { updated: bool, iteration: usize, reboot: bool },
    /// Post this state.
    Post(State),
}

/// The state that stands committed once `posted` has been received: entering
/// `Idle` increments the iteration in place, every other state stays as posted.
pub open spec fn committed(posted: State) -> State {
    match posted {
        State::Idle(u, i) => State::Idle(u, (i + 1) as usize),
        _ => posted,
    }
}

/// Whether an `Unmounted` state with these values leads to a reboot.
pub open spec fn reboot_due(updated: bool, iteration: usize, reboot: bool, autorun: bool) -> bool {
    updated && ((iteration == 1 && autorun) || reboot)
}

/// How the drain worker reacts to receiving `received`.
pub open spec fn reaction(received: State, autorun: bool) -> Reaction {
    match received {
        State::Idle(u, i) => Reaction {
            state: State::Idle(u, (i + 1) as usize),
            effect: Effect::Nothing,
            post: None,
            reset: false,
        },
        State::UpdateFound(_, i) => Reaction {
            state: received,
            effect: Effect::AnnounceUpdate { install: i == 1 && autorun },
            post: None,
            reset: false,
        },
        State::NoUpdateFound(u, i) | State::Skip(u, i) => Reaction {
            state: received,
            effect: Effect::Nothing,
            post: Some(State::Unmounting(u, i, false)),
            reset: false,
        },
        State::Unmounting(u, i, r) => Reaction {
            state: received,
            effect: Effect::UnmountDevices,
            post: Some(State::Unmounted(u, i, r)),
            reset: false,
        },
        State::Unmounted(u, i, r) => if reboot_due(u, i, r, autorun) {
            Reaction { state: received, effect: Effect::Reboot, post: None, reset: true }
        } else {
            Reaction { state: received, effect: Effect::Nothing, post: Some(State::Idle(u, i)), reset: true }
        },
        State::Updated(_, i, r) => Reaction {
            state: received,
            effect: Effect::Nothing,
            post: Some(State::Unmounting(true, i, r)),
            reset: false,
        },
        State::Done(..) => Reaction { state: received, effect: Effect::Finish, post: None, reset: false },
        _ => Reaction { state: received, effect: Effect::Nothing, post: None, reset: false },
    }
}

/// One observable step of the machine: `b` can be the next committed state
/// after `a`, whether posted by the drain worker, a worker task or a control
/// request.
pub open spec fn step(a: State, b: State, autorun: bool) -> bool {
    match a {
        State::Init => b == State::Idle(false, 1),
        State::Idle(u, i) => !u && b == State::Mounting(u, i),
        State::Mounting(u, i) => b == State::Mounted(u, i),
        State::Mounted(u, i) => b == State::Searching(u, i),
        State::Searching(u, i) => b == State::UpdateFound(u, i) || b == State::NoUpdateFound(u, i),
        State::UpdateFound(u, i) => (!u && b == State::Updating(u, i)) || b == State::Skip(u, i),
        State::NoUpdateFound(u, i) => b == State::Unmounting(u, i, false) || b == State::Skip(u, i),
        State::Skip(u, i) => b == State::Unmounting(u, i, false),
        State::Updating(u, i) => b == State::Updated(u, i, true) || b == State::Updated(u, i, false),
        State::Updated(_, i, r) => b == State::Unmounting(true, i, r),
        State::Unmounting(u, i, r) => b == State::Unmounted(u, i, r),
        State::Unmounted(u, i, r) => !reboot_due(u, i, r, autorun) && i < usize::MAX && b
            == State::Idle(u, (i + 1) as usize),
        State::Done(..) => false,
    }
}

/// React to a state received from the inbox: commit it (entering `Idle`
/// increments the iteration in place) and say what to do and what to post.
pub fn react(received: State, autorun: bool) -> (r: Reaction)
    requires
        received is Idle ==> received.iteration() < usize::MAX,
    ensures
        r == reaction(received, autorun),
        r.state == committed(received),
        r.post matches Some(p) ==> p.iteration() < usize::MAX ==> step(
            r.state,
            committed(p),
            autorun,
        ),
{
    match received {
        State::Idle(u, i) => Reaction {
            state: State::Idle(u, i + 1),
            effect: Effect::Nothing,
            post: None,
            reset: false,
        },
        State::UpdateFound(_, i) => Reaction {
            state: received,
            effect: Effect::AnnounceUpdate { install: i == 1 && autorun },
            post: None,
            reset: false,
        },
        State::NoUpdateFound(u, i) | State::Skip(u, i) => Reaction {
            state: received,
            effect: Effect::Nothing,
            post: Some(State::Unmounting(u, i, false)),
            reset: false,
        },
        State::Unmounting(u, i, r) => Reaction {
            state: received,
            effect: Effect::UnmountDevices,
            post: Some(State::Unmounted(u, i, r)),
            reset: false,
        },
        State::Unmounted(u, i, r) => {
            if u && ((i == 1 && autorun) || r) {
                Reaction { state: received, effect: Effect::Reboot, post: None, reset: true }
            } else {
                Reaction {
                    state: received,
                    effect: Effect::Nothing,
                    post: Some(State::Idle(u, i)),
                    reset: true,
                }
            }
        },
        State::Updated(_, i, r) => Reaction {
            state: received,
            effect: Effect::Nothing,
            post: Some(State::Unmounting(true, i, r)),
            reset: false,
        },
        State::Done(..) => Reaction {
            state: received,
            effect: Effect::Finish,
            post: None,
            reset: false,
        },
        _ => Reaction { state: received, effect: Effect::Nothing, post: None, reset: false },
    }
}

/// Decide on a request to search for an update: accepted only in `Idle`
/// with `updated == false`, answered with the values the search carries.
pub fn accept_search(state: &State) -> (r: Result<(bool, usize), Error>)
    ensures
        r is Ok <==> state matches State::Idle(false, _),
        r matches Ok((u, i)) ==> *state == State::Idle(u, i) && step(
            *state,
            State::Mounting(u, i),
            true,
        ) && step(*state, State::Mounting(u, i), false),
        r matches Err(e) ==> e matches Error::AccessDenied(m) && m@ == "Already in state "@
            + state.name_of(),
{
    match state {
        State::Idle(false, i) => Ok((false, *i)),
        _ => {
            let m = String::from_str("Already in state ").concat(state.name().as_str());
            Err(Error::AccessDenied(m))
        },
    }
}

/// The message of the error returned for an install request in a wrong state.
pub open spec fn wrong_state_message(state: State) -> Seq<char> {
    if state.updated() {
        "System is updated already, waiting for reboot"@
    } else {
        state.name_of()
    }
}

/// Decide on a request to install (`update`) or skip (`!update`) the found
/// update, rebooting afterwards if `reboot` is set.
pub fn accept_install(state: &State, update: bool, reboot: bool) -> (r: Result<Request, Error>)
    ensures
        (update && *state matches State::UpdateFound(false, _)) ==> r == Ok::<Request, Error>(
            Request::Install { updated: false, iteration: state.iteration(), reboot },
        ),
        (!update && (*state matches State::UpdateFound(_, _) || *state matches State::NoUpdateFound(
            _,
            _,
        ))) ==> r == Ok::<Request, Error>(
            Request::Post(State::Skip(state.updated(), state.iteration())),
        ),
        r is Err <==> !((update && *state matches State::UpdateFound(false, _)) || (!update && (
        *state matches State::UpdateFound(_, _) || *state matches State::NoUpdateFound(_, _)))),
        r matches Err(e) ==> e matches Error::WrongState(m) && m@ == wrong_state_message(*state),
        r matches Ok(Request::Post(p)) ==> step(*state, p, true) && step(*state, p, false),
        r matches Ok(Request::Install { updated, iteration, reboot: rb }) ==> step(
            *state,
            State::Updating(updated, iteration),
            true,
        ) && step(State::Updating(updated, iteration), State::Updated(updated, iteration, rb), true)
            && step(State::Updating(updated, iteration), State::Updated(updated, iteration, rb), false),
{
    match state {
        State::UpdateFound(false, i) if update => Ok(
            Request::Install { updated: false, iteration: *i, reboot },
        ),
        State::UpdateFound(u, i) if !update => Ok(Request::Post(State::Skip(*u, *i))),
        State::NoUpdateFound(u, i) if !update => Ok(Request::Post(State::Skip(*u, *i))),
        _ => {
            if state.get_updated() {
                Err(
                    Error::WrongState(
                        String::from_str("System is updated already, waiting for reboot"),
                    ),
                )
            } else {
                Err(Error::WrongState(state.name()))
            }
        },
    }
}

/// The state a search posts once selection is done: `UpdateFound` when a
/// bundle was selected, `NoUpdateFound` when none was or selection failed.
pub fn search_finished(updated: bool, iteration: usize, found: bool) -> (r: State)
    ensures
        r == (if found {
            State::UpdateFound(updated, iteration)
        } else {
            State::NoUpdateFound(updated, iteration)
        }),
        step(State::Searching(updated, iteration), r, true),
        step(State::Searching(updated, iteration), r, false),
{
    if found {
        State::UpdateFound(updated, iteration)
    } else {
        State::NoUpdateFound(updated, iteration)
    }
}

/// A trace of committed states from start-up: it begins in `Init` and each
/// state is a step from the one before.
pub open spec fn is_trace(t: Seq<State>, autorun: bool) -> bool {
    &&& t.len() > 0
    &&& t[0] == State::Init
    &&& forall|k: int| 0 <= k < t.len() - 1 ==> #[trigger] step(t[k], t[k + 1], autorun)
}

/// How many times `Idle` is entered in `t[1..=k]`.
pub open spec fn idle_entries(t: Seq<State>, k: int) -> nat
    decreases k,
{
    if k <= 0 {
        0
    } else {
        idle_entries(t, k - 1) + if t[k] is Idle {
            1nat
        } else {
            0nat
        }
    }
}

/// Along every step, `updated` never goes from true to false and the
/// iteration never decreases.
pub proof fn lemma_step_monotone(a: State, b: State, autorun: bool)
    requires
        step(a, b, autorun),
    ensures
        a.updated() ==> b.updated(),
        a.iteration() <= b.iteration(),
{
}

/// Along every trace from `Init`, `updated` and the iteration are monotone:
/// for every earlier position `j` and later position `k`.
pub proof fn lemma_trace_monotone(t: Seq<State>, autorun: bool, j: int, k: int)
    requires
        is_trace(t, autorun),
        0 <= j <= k < t.len(),
    ensures
        t[j].updated() ==> t[k].updated(),
        t[j].iteration() <= t[k].iteration(),
    decreases k - j,
{
    if j < k {
        lemma_trace_monotone(t, autorun, j, k - 1);
        let p = k - 1;
        assert(step(t[p], t[p + 1], autorun));
        lemma_step_monotone(t[p], t[p + 1], autorun);
    }
}

/// The iteration changes only on entering `Idle`, by exactly one: at every
/// position of a trace from `Init` it equals the number of times `Idle` has
/// been entered so far.
pub proof fn lemma_iteration_counts_idle(t: Seq<State>, autorun: bool, k: int)
    requires
        is_trace(t, autorun),
        0 <= k < t.len(),
    ensures
        t[k].iteration() == idle_entries(t, k),
    decreases k,
{
    if k > 0 {
        lemma_iteration_counts_idle(t, autorun, k - 1);
        let p = k - 1;
        assert(step(t[p], t[p + 1], autorun));
    }
}

/// Committing a received state changes the iteration only on entering
/// `Idle`, and there by exactly one; every state the drain worker posts
/// carries the iteration of the state that caused it.
pub proof fn lemma_commit_increments_only_idle(received: State, autorun: bool)
    requires
        received is Idle ==> received.iteration() < usize::MAX,
    ensures
        received is Idle ==> committed(received).iteration() == received.iteration() + 1,
        !(received is Idle) ==> committed(received) == received,
        reaction(received, autorun).state == committed(received),
        reaction(received, autorun).post matches Some(p) ==> p.iteration() == received.iteration(),
{
}

/// A search whose selection failed (it posts `NoUpdateFound`) returns to
/// `Idle` through teardown, without a reboot and without an install.
pub proof fn lemma_failed_selection_returns_to_idle(iteration: usize, autorun: bool)
    ensures
        reaction(State::NoUpdateFound(false, iteration), autorun).post == Some(
            State::Unmounting(false, iteration, false),
        ),
        reaction(State::Unmounting(false, iteration, false), autorun).post == Some(
            State::Unmounted(false, iteration, false),
        ),
        reaction(State::Unmounted(false, iteration, false), autorun).post == Some(
            State::Idle(false, iteration),
        ),
        reaction(State::Unmounted(false, iteration, false), autorun).effect != Effect::Reboot,
{
}

} // verus!
