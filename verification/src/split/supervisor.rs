//! The search for split peripherals as the user sees it: searching, connected or idle.
//!
//! Times are microseconds since boot.

use vstd::prelude::*;

verus! {

/// Visible state of the search.
#[derive(Clone, Copy, Debug, PartialEq, Eq, Structural)]
pub enum SplitConnectionState {
    Searching,
    Connected,
    Idle,
}

/// A state that is made known. `done` names the search window that it ends.
#[derive(Clone, Copy, Debug, PartialEq, Eq, Structural)]
pub struct SplitPublication {
    pub state: SplitConnectionState,
    pub done: Option<u32>,
}

/// What ended a wait.
#[derive(Clone, Copy, Debug, PartialEq, Eq, Structural)]
pub enum SupervisorEvent {
    /// A peripheral was connected or lost.
    ConnectionChanged,
    /// A new search window was opened.
    Restart(u32),
    /// The deadline of the search passed.
    DeadlineReached,
}

/// State of the search, the window it belongs to and its deadline.
#[derive(Clone, Copy, Debug, PartialEq, Eq, Structural)]
pub struct SplitSupervisor {
    pub state: SplitConnectionState,
    pub generation: u32,
    pub deadline: u64,
}

/// State without or with all peripherals.
pub open spec fn search_state(all_connected: bool) -> SplitConnectionState {
    if all_connected {
        SplitConnectionState::Connected
    } else {
        SplitConnectionState::Searching
    }
}

/// How a state is made known: every state but searching ends the window.
pub open spec fn publication(state: SplitConnectionState, generation: u32) -> SplitPublication {
    SplitPublication {
        state,
        done: if state == SplitConnectionState::Searching {
            None
        } else {
            Some(generation)
        },
    }
}

/// End of a search that starts now.
pub open spec fn search_deadline(now: u64, timeout_secs: u32) -> int {
    now + timeout_secs * 1_000_000
}

/// Next state of the search, and what is made known. A timeout of zero means that a
/// search never ends by itself; its deadline is then left alone while searching.
pub open spec fn supervisor_step(
    s: SplitSupervisor,
    event: SupervisorEvent,
    all_connected: bool,
    now: u64,
    timeout_secs: u32,
) -> (SplitSupervisor, Option<SplitPublication>) {
    let deadline = search_deadline(now, timeout_secs) as u64;
    match event {
        SupervisorEvent::ConnectionChanged => if s.state == SplitConnectionState::Connected {
            if all_connected {
                (s, None)
            } else {
                let next = SplitSupervisor { state: SplitConnectionState::Searching, generation: s.generation, deadline };
                (next, Some(publication(next.state, next.generation)))
            }
        } else if all_connected {
            let next = SplitSupervisor { state: SplitConnectionState::Connected, ..s };
            (next, Some(publication(next.state, next.generation)))
        } else {
            (s, None)
        },
        SupervisorEvent::Restart(generation) => {
            let keeps_deadline = match s.state {
                SplitConnectionState::Searching => timeout_secs == 0,
                SplitConnectionState::Connected => all_connected,
                SplitConnectionState::Idle => false,
            };
            let next = SplitSupervisor {
                state: search_state(all_connected),
                generation,
                deadline: if keeps_deadline {
                    s.deadline
                } else {
                    deadline
                },
            };
            (next, Some(publication(next.state, next.generation)))
        },
        SupervisorEvent::DeadlineReached => {
            let next = SplitSupervisor { state: SplitConnectionState::Idle, ..s };
            (next, Some(publication(next.state, next.generation)))
        },
    }
}

/// Start of the search, and what is made known.
pub open spec fn search_begun(generation: u32, all_connected: bool, now: u64, timeout_secs: u32) -> (
    SplitSupervisor,
    SplitPublication,
) {
    (
        SplitSupervisor {
            state: search_state(all_connected),
            generation,
            deadline: search_deadline(now, timeout_secs) as u64,
        },
        publication(search_state(all_connected), generation),
    )
}

/// Whether the deadline ends the next wait.
pub open spec fn awaits_deadline(s: SplitSupervisor, timeout_secs: u32) -> bool {
    s.state == SplitConnectionState::Searching && timeout_secs != 0
}

/// Window that is opened, if any, and the number of the last window then.
pub open spec fn window_opened(last_generation: u32, all_connected: bool, timeout_secs: u32) -> (Option<u32>, u32) {
    if timeout_secs == 0 || all_connected {
        (None, last_generation)
    } else if last_generation == u32::MAX {
        (Some(0), 0)
    } else {
        (Some((last_generation + 1) as u32), (last_generation + 1) as u32)
    }
}

/// How a state is made known.
fn publish(state: SplitConnectionState, generation: u32) -> (p: SplitPublication)
    ensures
        p == publication(state, generation),
{
    let done = match state {
        SplitConnectionState::Searching => None,
        _ => Some(generation),
    };
    SplitPublication { state, done }
}

/// State without or with all peripherals.
fn state_for(all_connected: bool) -> (state: SplitConnectionState)
    ensures
        state == search_state(all_connected),
{
    if all_connected {
        SplitConnectionState::Connected
    } else {
        SplitConnectionState::Searching
    }
}

/// Whether the deadline of a search that starts now can be told.
pub fn can_search(now: u64, timeout_secs: u32) -> (can: bool)
    ensures
        can == (search_deadline(now, timeout_secs) <= u64::MAX),
{
    now <= u64::MAX - timeout_secs as u64 * 1_000_000
}

impl SplitSupervisor {
    /// Starts the search.
    pub fn new(generation: u32, all_connected: bool, now: u64, timeout_secs: u32) -> (result: (Self, SplitPublication))
        requires
            search_deadline(now, timeout_secs) <= u64::MAX,
        ensures
            result == search_begun(generation, all_connected, now, timeout_secs),
    {
        let state = state_for(all_connected);
        let deadline: u64 = now + timeout_secs as u64 * 1_000_000;
        (SplitSupervisor { state, generation, deadline }, publish(state, generation))
    }

    /// Whether the deadline ends the next wait.
    pub fn has_deadline(&self, timeout_secs: u32) -> (has: bool)
        ensures
            has == awaits_deadline(*self, timeout_secs),
    {
        self.state == SplitConnectionState::Searching && timeout_secs != 0
    }

    /// Goes on after a wait. Returns what is to be made known.
    pub fn step(&mut self, event: SupervisorEvent, all_connected: bool, now: u64, timeout_secs: u32) -> (published:
        Option<SplitPublication>)
        requires
            search_deadline(now, timeout_secs) <= u64::MAX,
            event is DeadlineReached ==> old(self).state == SplitConnectionState::Searching && timeout_secs != 0,
        ensures
            (*final(self), published) == supervisor_step(*old(self), event, all_connected, now, timeout_secs),
    {
        let deadline: u64 = now + timeout_secs as u64 * 1_000_000;
        match event {
            SupervisorEvent::ConnectionChanged => {
                if self.state == SplitConnectionState::Connected {
                    if all_connected {
                        return None;
                    }
                    self.state = SplitConnectionState::Searching;
                    self.deadline = deadline;
                } else {
                    if !all_connected {
                        return None;
                    }
                    self.state = SplitConnectionState::Connected;
                }
            },
            SupervisorEvent::Restart(generation) => {
                let keeps_deadline = match self.state {
                    SplitConnectionState::Searching => timeout_secs == 0,
                    SplitConnectionState::Connected => all_connected,
                    SplitConnectionState::Idle => false,
                };
                self.generation = generation;
                if !keeps_deadline {
                    self.deadline = deadline;
                }
                self.state = state_for(all_connected);
            },
            SupervisorEvent::DeadlineReached => {
                self.state = SplitConnectionState::Idle;
            },
        }
        Some(publish(self.state, self.generation))
    }
}

/// Opens a search window and returns its number, unless a search would be pointless or
/// endless: with all peripherals connected, or without a timeout. Whoever opened the
/// window waits until it is done.
pub fn open_split_connection_window(last_generation: &mut u32, all_connected: bool, timeout_secs: u32) -> (window:
    Option<u32>)
    ensures
        (window, *final(last_generation)) == window_opened(*old(last_generation), all_connected, timeout_secs),
{
    if timeout_secs == 0 || all_connected {
        return None;
    }
    *last_generation = if *last_generation == u32::MAX {
        0
    } else {
        *last_generation + 1
    };
    Some(*last_generation)
}

/// What is made known is the state the search is in; it ends the window the search
/// belongs to if and only if the search is over; and `Connected` is made known only with
/// all peripherals connected, `Searching` only without.
pub proof fn law_publications_are_honest(
    s: SplitSupervisor,
    event: SupervisorEvent,
    all_connected: bool,
    now: u64,
    timeout_secs: u32,
)
    ensures
        ({
            let (next, published) = supervisor_step(s, event, all_connected, now, timeout_secs);
            published matches Some(p) ==> {
                &&& p.state == next.state
                &&& p.done is Some <==> next.state != SplitConnectionState::Searching
                &&& p.done matches Some(window) ==> window == next.generation
                &&& p.state == SplitConnectionState::Connected ==> all_connected
                &&& p.state == SplitConnectionState::Searching ==> !all_connected
            }
        }),
        supervisor_step(s, event, all_connected, now, timeout_secs).1 is None ==> supervisor_step(
            s,
            event,
            all_connected,
            now,
            timeout_secs,
        ).0 == s,
{
}

/// A window that was opened is ended by the deadline at the latest, and the end carries
/// its number.
pub proof fn law_windows_end(s: SplitSupervisor, window: u32, now: u64, later: u64, timeout_secs: u32)
    requires
        timeout_secs != 0,
        search_deadline(now, timeout_secs) <= u64::MAX,
    ensures
        ({
            let (open, _) = supervisor_step(s, SupervisorEvent::Restart(window), false, now, timeout_secs);
            let (_, end) = supervisor_step(open, SupervisorEvent::DeadlineReached, false, later, timeout_secs);
            &&& open.state == SplitConnectionState::Searching
            &&& open.deadline == search_deadline(now, timeout_secs)
            &&& end == Some(SplitPublication { state: SplitConnectionState::Idle, done: Some(window) })
        }),
        ({
            let (open, _) = supervisor_step(s, SupervisorEvent::Restart(window), false, now, timeout_secs);
            let (_, end) = supervisor_step(open, SupervisorEvent::ConnectionChanged, true, later, timeout_secs);
            end == Some(SplitPublication { state: SplitConnectionState::Connected, done: Some(window) })
        }),
        supervisor_step(s, SupervisorEvent::Restart(window), true, now, timeout_secs).1 == Some(
            SplitPublication { state: SplitConnectionState::Connected, done: Some(window) },
        ),
{
}

/// A search belongs to its window until it ends: whatever happens, short of a new window,
/// either leaves it as it is or ends exactly that window, and the deadline always ends it.
pub proof fn law_searches_keep_their_window(
    s: SplitSupervisor,
    event: SupervisorEvent,
    all_connected: bool,
    now: u64,
    timeout_secs: u32,
)
    requires
        s.state == SplitConnectionState::Searching,
        !(event is Restart),
    ensures
        ({
            let (next, published) = supervisor_step(s, event, all_connected, now, timeout_secs);
            &&& published is None ==> next == s
            &&& published matches Some(p) ==> p.done == Some(s.generation)
            &&& event is DeadlineReached || all_connected ==> published is Some
        }),
{
}

/// The search follows the peripherals: it starts connected or searching, as they are;
/// losing one starts a search, and finding the last one ends it, also after it was given
/// up; the deadline gives it up; and a new window looks at them afresh. Any search but an
/// endless one has the timeout in full, a million microseconds for each second.
pub proof fn law_searches_follow_the_peripherals(
    s: SplitSupervisor,
    event: SupervisorEvent,
    generation: u32,
    all_connected: bool,
    now: u64,
    timeout_secs: u32,
)
    requires
        now + 1_000_000 * timeout_secs <= u64::MAX,
    ensures
        ({
            let (begun, published) = search_begun(generation, all_connected, now, timeout_secs);
            &&& all_connected ==> begun.state == SplitConnectionState::Connected
            &&& !all_connected ==> begun.state == SplitConnectionState::Searching
            &&& begun.generation == generation
            &&& begun.deadline == now + 1_000_000 * timeout_secs
            &&& published.state == begun.state
            &&& all_connected ==> published.done == Some(generation)
            &&& !all_connected ==> published.done is None
        }),
        ({
            let (next, published) = supervisor_step(s, event, all_connected, now, timeout_secs);
            let whole = next.deadline == now + 1_000_000 * timeout_secs;
            let connected = s.state == SplitConnectionState::Connected;
            &&& event is ConnectionChanged && (connected == all_connected) ==> next == s && published is None
            &&& event is ConnectionChanged && connected && !all_connected ==> next.state
                == SplitConnectionState::Searching && next.generation == s.generation && whole && published is Some
            &&& event is ConnectionChanged && !connected && all_connected ==> next.state
                == SplitConnectionState::Connected && next.generation == s.generation && published is Some
            &&& event is DeadlineReached ==> next.state == SplitConnectionState::Idle && next.generation
                == s.generation && published is Some
            &&& event matches SupervisorEvent::Restart(window) ==> {
                &&& next.generation == window
                &&& all_connected ==> next.state == SplitConnectionState::Connected
                &&& !all_connected ==> next.state == SplitConnectionState::Searching
                &&& !all_connected && timeout_secs != 0 ==> whole
                &&& published is Some
            }
        }),
        awaits_deadline(s, timeout_secs) <==> s.state == SplitConnectionState::Searching && timeout_secs > 0,
{
}

/// A window is opened, under the next number, if and only if a peripheral is missing and
/// a search ends some time.
pub proof fn law_windows_are_numbered(last_generation: u32, all_connected: bool, timeout_secs: u32)
    ensures
        ({
            let (window, last) = window_opened(last_generation, all_connected, timeout_secs);
            &&& window is Some <==> !all_connected && timeout_secs > 0
            &&& window is None ==> last == last_generation
            &&& window matches Some(number) ==> {
                &&& number == last
                &&& last == (last_generation + 1) % 0x1_0000_0000
            }
        }),
{
}

} // verus!
