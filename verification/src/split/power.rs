//! Power of the split links: activity, and the connection parameters that follow it.
//!
//! Clocks are milliseconds since boot in 32 bits, and wrap around.

use vstd::prelude::*;

use crate::ble::link;
use crate::ble::link::RequestedConnParams;
use crate::num;

verus! {

/// Time that a link stays in pointing mode after motion.
pub const SPLIT_POINTING_ACTIVE_WINDOW_MS: u32 = 500;

/// Time that a link stays in active mode after any activity.
pub const SPLIT_ACTIVE_WINDOW_MS: u32 = 2_000;

/// Time between two looks at the activity.
pub const SPLIT_POWER_POLL_MS: u64 = 100;

/// Power mode of a split link.
#[derive(Clone, Copy, Debug, PartialEq, Eq, Structural)]
pub enum SplitPowerMode {
    Pointing,
    Active,
    Idle,
    Sleeping,
}

/// Time without activity after which the keyboard sleeps; `None` if it never does.
pub open spec fn sleep_after_ms(sleep_timeout_secs: u32) -> Option<int> {
    if sleep_timeout_secs == 0 {
        None
    } else if sleep_timeout_secs * 1000 > u32::MAX {
        Some(u32::MAX as int)
    } else {
        Some(sleep_timeout_secs * 1000)
    }
}

/// Mode that the recent activity calls for.
pub open spec fn power_mode(
    now_ms: u32,
    last_activity_ms: u32,
    last_pointing_activity_ms: u32,
    sleep_requested: bool,
    sleep_timeout_secs: u32,
) -> SplitPowerMode {
    let inactive = num::wrapping_elapsed(now_ms, last_activity_ms);
    if sleep_requested || (sleep_after_ms(sleep_timeout_secs) matches Some(limit) && inactive >= limit) {
        SplitPowerMode::Sleeping
    } else if last_pointing_activity_ms != 0 && num::wrapping_elapsed(now_ms, last_pointing_activity_ms)
        < SPLIT_POINTING_ACTIVE_WINDOW_MS {
        SplitPowerMode::Pointing
    } else if inactive >= SPLIT_ACTIVE_WINDOW_MS {
        SplitPowerMode::Idle
    } else {
        SplitPowerMode::Active
    }
}

/// Mode that the recent activity calls for. A pointing time of zero means that there was
/// no motion yet; a timeout of zero means that the keyboard does not sleep by itself.
pub fn desired_split_power_mode(
    now_ms: u32,
    last_activity_ms: u32,
    last_pointing_activity_ms: u32,
    sleep_requested: bool,
    sleep_timeout_secs: u32,
) -> (mode: SplitPowerMode)
    ensures
        mode == power_mode(
            now_ms,
            last_activity_ms,
            last_pointing_activity_ms,
            sleep_requested,
            sleep_timeout_secs,
        ),
{
    let inactive_ms: u32 = num::elapsed_ms(now_ms, last_activity_ms);
    let limit_ms: u32 = if sleep_timeout_secs > u32::MAX / 1000 {
        u32::MAX
    } else {
        sleep_timeout_secs * 1000
    };
    if sleep_requested || (sleep_timeout_secs != 0 && inactive_ms >= limit_ms) {
        SplitPowerMode::Sleeping
    } else if last_pointing_activity_ms != 0 && num::elapsed_ms(now_ms, last_pointing_activity_ms)
        < SPLIT_POINTING_ACTIVE_WINDOW_MS {
        SplitPowerMode::Pointing
    } else if inactive_ms >= SPLIT_ACTIVE_WINDOW_MS {
        SplitPowerMode::Idle
    } else {
        SplitPowerMode::Active
    }
}

/// What is known of the user's activity.
#[derive(Clone, Copy, Debug, PartialEq, Eq, Structural)]
pub struct SplitActivity {
    pub last_activity_ms: u32,
    pub last_pointing_activity_ms: u32,
    pub sleep_requested: bool,
}

/// Activity after a key was used.
pub open spec fn key_noted(activity: SplitActivity, now_ms: u32) -> SplitActivity {
    SplitActivity {
        last_activity_ms: now_ms,
        last_pointing_activity_ms: activity.last_pointing_activity_ms,
        sleep_requested: false,
    }
}

/// Activity after a pointing device moved.
pub open spec fn motion_noted(activity: SplitActivity, now_ms: u32) -> SplitActivity {
    SplitActivity { last_activity_ms: now_ms, last_pointing_activity_ms: now_ms, sleep_requested: false }
}

/// Activity after sleep was requested.
pub open spec fn sleep_noted(activity: SplitActivity) -> SplitActivity {
    SplitActivity { sleep_requested: true, ..activity }
}

/// Activity after the clock started.
pub open spec fn clock_started(activity: SplitActivity, now_ms: u32) -> SplitActivity {
    if activity.last_activity_ms == 0 {
        key_noted(activity, now_ms)
    } else {
        activity
    }
}

impl SplitActivity {
    /// Mode that this activity calls for.
    pub open spec fn mode_at(&self, now_ms: u32, sleep_timeout_secs: u32) -> SplitPowerMode {
        power_mode(
            now_ms,
            self.last_activity_ms,
            self.last_pointing_activity_ms,
            self.sleep_requested,
            sleep_timeout_secs,
        )
    }

    /// Nothing happened yet.
    pub fn new() -> (this: Self)
        ensures
            this == (SplitActivity {
                last_activity_ms: 0,
                last_pointing_activity_ms: 0,
                sleep_requested: false,
            }),
    {
        SplitActivity { last_activity_ms: 0, last_pointing_activity_ms: 0, sleep_requested: false }
    }

    /// Mode that this activity calls for.
    pub fn mode(&self, now_ms: u32, sleep_timeout_secs: u32) -> (mode: SplitPowerMode)
        ensures
            mode == self.mode_at(now_ms, sleep_timeout_secs),
    {
        desired_split_power_mode(
            now_ms,
            self.last_activity_ms,
            self.last_pointing_activity_ms,
            self.sleep_requested,
            sleep_timeout_secs,
        )
    }

    /// The user did something: a requested sleep is over.
    pub fn update_activity_time(&mut self, now_ms: u32)
        ensures
            *final(self) == key_noted(*old(self), now_ms),
    {
        self.last_activity_ms = now_ms;
        self.sleep_requested = false;
    }

    /// A pointing device moved.
    pub fn update_pointing_activity_time(&mut self, now_ms: u32)
        ensures
            *final(self) == motion_noted(*old(self), now_ms),
    {
        self.last_pointing_activity_ms = now_ms;
        self.last_activity_ms = now_ms;
        self.sleep_requested = false;
    }

    /// A host suspended or no host answered.
    pub fn request_sleep(&mut self)
        ensures
            *final(self) == sleep_noted(*old(self)),
    {
        self.sleep_requested = true;
    }

    /// The clock starts: where nothing happened yet, this counts as activity.
    pub fn start(&mut self, now_ms: u32)
        ensures
            *final(self) == clock_started(*old(self), now_ms),
    {
        if self.last_activity_ms == 0 {
            self.last_activity_ms = now_ms;
            self.sleep_requested = false;
        }
    }
}

/// Parameters of a link with a fixed interval and no latency.
fn link_params(interval: u64, supervision_timeout: u64) -> (params: RequestedConnParams)
    ensures
        params == link::fixed_params(interval, 0, supervision_timeout),
{
    let (min_event_length, max_event_length): (u64, u64) = link::default_event_lengths();
    RequestedConnParams {
        min_connection_interval: interval,
        max_connection_interval: interval,
        max_latency: 0,
        min_event_length,
        max_event_length,
        supervision_timeout,
    }
}

/// Parameters of a new or active link: every interval is attended, so that layer and
/// state updates reach the peripherals without delay.
pub fn defaul_central_conn_param() -> (params: RequestedConnParams)
    ensures
        params == mode_params(SplitPowerMode::Active),
{
    link_params(15_000, 5_000_000)
}

/// Parameters of a link that carries motion.
pub fn pointing_central_conn_param() -> (params: RequestedConnParams)
    ensures
        params == mode_params(SplitPowerMode::Pointing),
{
    link_params(7_500, 5_000_000)
}

/// Parameters of an idle link.
pub fn idle_central_conn_param() -> (params: RequestedConnParams)
    ensures
        params == mode_params(SplitPowerMode::Idle),
{
    link_params(30_000, 5_000_000)
}

/// Parameters of a sleeping link. The interval bounds the first packet after a long
/// pause and the return to the active parameters.
pub fn sleeping_central_conn_param() -> (params: RequestedConnParams)
    ensures
        params == mode_params(SplitPowerMode::Sleeping),
{
    link_params(100_000, 11_000_000)
}

/// Parameters of a mode.
pub open spec fn mode_params(mode: SplitPowerMode) -> RequestedConnParams {
    match mode {
        SplitPowerMode::Pointing => link::fixed_params(7_500, 0, 5_000_000),
        SplitPowerMode::Active => link::fixed_params(15_000, 0, 5_000_000),
        SplitPowerMode::Idle => link::fixed_params(30_000, 0, 5_000_000),
        SplitPowerMode::Sleeping => link::fixed_params(100_000, 0, 11_000_000),
    }
}

/// Mode to enter and its parameters, when another mode is wanted than the one in force.
pub open spec fn next_mode(mode: SplitPowerMode, wanted: SplitPowerMode) -> Option<
    (SplitPowerMode, RequestedConnParams),
> {
    if wanted == mode {
        None
    } else {
        Some((wanted, mode_params(wanted)))
    }
}

/// Change of the sleep state that is to be announced.
pub open spec fn announcement(before: bool, after: bool) -> Option<bool> {
    if before != after {
        Some(after)
    } else {
        None
    }
}

/// Sleep state of the keyboard after one of its links changed its mode.
pub open spec fn sleep_after_entering(
    mode: SplitPowerMode,
    next_mode: SplitPowerMode,
    peripherals_num: usize,
    sleeping: bool,
) -> bool {
    if peripherals_num == 1 && next_mode == SplitPowerMode::Sleeping {
        true
    } else if peripherals_num == 1 && mode == SplitPowerMode::Sleeping {
        false
    } else {
        sleeping
    }
}

/// Whether the manager takes the keyboard for asleep at first, and the sleep state then.
pub open spec fn sleep_at_start(wanted: SplitPowerMode, sleeping: bool) -> (bool, bool) {
    (wanted == SplitPowerMode::Sleeping, sleeping || wanted == SplitPowerMode::Sleeping)
}

/// Whether the manager takes the keyboard for asleep after a look at the activity, and
/// the sleep state then.
pub open spec fn sleep_after_look(wanted: SplitPowerMode, asleep: bool, sleeping: bool) -> (bool, bool) {
    let next = wanted == SplitPowerMode::Sleeping;
    (
        next,
        if next != asleep {
            next
        } else {
            sleeping
        },
    )
}

/// Adapts the parameters of one split link to the activity.
#[derive(Clone, Copy, Debug, PartialEq, Eq, Structural)]
pub struct LinkPowerManager {
    pub mode: SplitPowerMode,
}

impl LinkPowerManager {
    /// A link starts out active.
    pub fn new() -> (this: Self)
        ensures
            this.mode == SplitPowerMode::Active,
    {
        LinkPowerManager { mode: SplitPowerMode::Active }
    }

    /// Mode to enter and its parameters, when the activity calls for another mode.
    pub fn next(&self, activity: &SplitActivity, now_ms: u32, sleep_timeout_secs: u32) -> (next: Option<
        (SplitPowerMode, RequestedConnParams),
    >)
        ensures
            next == next_mode(self.mode, activity.mode_at(now_ms, sleep_timeout_secs)),
    {
        let next_mode = activity.mode(now_ms, sleep_timeout_secs);
        if next_mode == self.mode {
            return None;
        }
        let params = match next_mode {
            SplitPowerMode::Pointing => pointing_central_conn_param(),
            SplitPowerMode::Active => defaul_central_conn_param(),
            SplitPowerMode::Idle => idle_central_conn_param(),
            SplitPowerMode::Sleeping => sleeping_central_conn_param(),
        };
        Some((next_mode, params))
    }

    /// The parameters of a mode were requested. `sleeping` is the sleep state of the
    /// whole keyboard; the link of a keyboard with one peripheral owns it. Returns a
    /// change of that state that is to be announced.
    pub fn entered(&mut self, next_mode: SplitPowerMode, peripherals_num: usize, sleeping: &mut bool) -> (announce:
        Option<bool>)
        ensures
            final(self).mode == next_mode,
            *final(sleeping) == sleep_after_entering(old(self).mode, next_mode, peripherals_num, *old(sleeping)),
            announce == announcement(*old(sleeping), *final(sleeping)),
    {
        let mut announce: Option<bool> = None;
        if peripherals_num == 1 {
            if next_mode == SplitPowerMode::Sleeping {
                if !*sleeping {
                    announce = Some(true);
                }
                *sleeping = true;
            } else if self.mode == SplitPowerMode::Sleeping {
                if *sleeping {
                    announce = Some(false);
                }
                *sleeping = false;
            }
        }
        self.mode = next_mode;
        announce
    }
}

/// Owns the sleep state of a keyboard with several peripherals.
#[derive(Clone, Copy, Debug, PartialEq, Eq, Structural)]
pub struct PowerStateManager {
    pub asleep: bool,
}

impl PowerStateManager {
    /// Starts the clock and takes over the sleep state. Returns a change of that state
    /// that is to be announced.
    pub fn start(activity: &mut SplitActivity, now_ms: u32, sleep_timeout_secs: u32, sleeping: &mut bool) -> (result: (
        Self,
        Option<bool>,
    ))
        ensures
            *final(activity) == clock_started(*old(activity), now_ms),
            (result.0.asleep, *final(sleeping)) == sleep_at_start(
                final(activity).mode_at(now_ms, sleep_timeout_secs),
                *old(sleeping),
            ),
            result.1 == announcement(*old(sleeping), *final(sleeping)),
    {
        activity.start(now_ms);
        let asleep = activity.mode(now_ms, sleep_timeout_secs) == SplitPowerMode::Sleeping;
        let mut announce: Option<bool> = None;
        if asleep {
            if !*sleeping {
                announce = Some(true);
            }
            *sleeping = true;
        }
        (PowerStateManager { asleep }, announce)
    }

    /// Looks at the activity. Returns a change of the sleep state that is to be
    /// announced.
    pub fn step(&mut self, activity: &SplitActivity, now_ms: u32, sleep_timeout_secs: u32, sleeping: &mut bool) -> (
        announce: Option<bool>)
        ensures
            (final(self).asleep, *final(sleeping)) == sleep_after_look(
                activity.mode_at(now_ms, sleep_timeout_secs),
                old(self).asleep,
                *old(sleeping),
            ),
            announce == announcement(*old(sleeping), *final(sleeping)),
    {
        let next = activity.mode(now_ms, sleep_timeout_secs) == SplitPowerMode::Sleeping;
        if next == self.asleep {
            return None;
        }
        self.asleep = next;
        let changed = *sleeping != next;
        *sleeping = next;
        if changed {
            Some(next)
        } else {
            None
        }
    }
}

/// Activity wakes the links at once, whatever was requested before; motion puts them in
/// pointing mode, except in the very first millisecond of the clock.
pub proof fn law_activity_wakes(activity: SplitActivity, now_ms: u32, sleep_timeout_secs: u32)
    ensures
        ({
            let key = key_noted(activity, now_ms);
            let mode = key.mode_at(now_ms, sleep_timeout_secs);
            mode == SplitPowerMode::Active || mode == SplitPowerMode::Pointing
        }),
        ({
            let motion = motion_noted(activity, now_ms);
            motion.mode_at(now_ms, sleep_timeout_secs) == (if now_ms != 0 {
                SplitPowerMode::Pointing
            } else {
                SplitPowerMode::Active
            })
        }),
{
}

/// A requested sleep holds at any time until there is activity.
pub proof fn law_requested_sleep_holds(activity: SplitActivity, now_ms: u32, sleep_timeout_secs: u32)
    ensures
        sleep_noted(activity).mode_at(now_ms, sleep_timeout_secs) == SplitPowerMode::Sleeping,
        sleep_noted(activity).last_activity_ms == activity.last_activity_ms,
        sleep_noted(activity).last_pointing_activity_ms == activity.last_pointing_activity_ms,
{
}

/// No mode lets a peripheral skip connection events, and every mode's supervision
/// timeout spans more than two intervals.
pub proof fn law_links_are_attended(mode: SplitPowerMode)
    ensures
        mode_params(mode).max_latency == 0,
        mode_params(mode).min_connection_interval == mode_params(mode).max_connection_interval,
        mode_params(mode).supervision_timeout > 2 * mode_params(mode).max_connection_interval,
{
}

/// The links sleep if sleep was requested or if at least the timeout, 1000 ms for
/// each second and at most what the clock can tell, has passed since the last activity; a
/// timeout of zero never passes. Otherwise motion in the last 500 ms calls for pointing
/// mode, any activity in the last 2000 ms for active mode, and none for idle mode.
pub proof fn law_modes_follow_the_time(
    now_ms: u32,
    last_activity_ms: u32,
    last_pointing_activity_ms: u32,
    sleep_requested: bool,
    sleep_timeout_secs: u32,
)
    ensures
        ({
            let mode = power_mode(
                now_ms,
                last_activity_ms,
                last_pointing_activity_ms,
                sleep_requested,
                sleep_timeout_secs,
            );
            let inactive = (now_ms - last_activity_ms) % 0x1_0000_0000;
            let still = (now_ms - last_pointing_activity_ms) % 0x1_0000_0000;
            let moved = last_pointing_activity_ms != 0 && still < 500;
            &&& sleep_requested ==> mode == SplitPowerMode::Sleeping
            &&& !sleep_requested && 0 < sleep_timeout_secs <= 4_294_967 ==> (mode == SplitPowerMode::Sleeping
                <==> inactive >= 1000 * sleep_timeout_secs)
            &&& !sleep_requested && sleep_timeout_secs > 4_294_967 ==> (mode == SplitPowerMode::Sleeping <==> inactive
                == 4_294_967_295)
            &&& !sleep_requested && sleep_timeout_secs == 0 ==> mode != SplitPowerMode::Sleeping
            &&& mode != SplitPowerMode::Sleeping ==> {
                &&& mode == SplitPowerMode::Pointing <==> moved
                &&& mode == SplitPowerMode::Active <==> !moved && inactive < 2000
                &&& mode == SplitPowerMode::Idle <==> !moved && inactive >= 2000
            }
        }),
{
    num::law_elapsed_time_leads_to_now(now_ms, last_activity_ms);
    num::law_elapsed_time_leads_to_now(now_ms, last_pointing_activity_ms);
    assert((now_ms - last_activity_ms) % 0x1_0000_0000 == num::wrapping_elapsed(now_ms, last_activity_ms));
    assert((now_ms - last_pointing_activity_ms) % 0x1_0000_0000 == num::wrapping_elapsed(
        now_ms,
        last_pointing_activity_ms,
    ));
}

/// A mode that is used more has a shorter interval: 7.5 ms for motion, 15 ms for an
/// active link, 30 ms for an idle and 100 ms for a sleeping one. No event may be skipped,
/// and a link is given up after 5 s, a sleeping one after 11 s. A mode is entered, with
/// its parameters, whenever it is not the one in force.
pub proof fn law_busy_links_have_short_intervals(mode: SplitPowerMode, wanted: SplitPowerMode)
    ensures
        ({
            let p = mode_params(wanted);
            &&& p.min_connection_interval == p.max_connection_interval
            &&& p.max_connection_interval == (match wanted {
                SplitPowerMode::Pointing => 7_500u64,
                SplitPowerMode::Active => 15_000u64,
                SplitPowerMode::Idle => 30_000u64,
                SplitPowerMode::Sleeping => 100_000u64,
            })
            &&& p.max_latency == 0
            &&& p.supervision_timeout == (if wanted == SplitPowerMode::Sleeping {
                11_000_000u64
            } else {
                5_000_000u64
            })
            &&& p.min_event_length == 0 && p.max_event_length == 0
            &&& next_mode(mode, wanted) is None <==> wanted == mode
            &&& next_mode(mode, wanted) matches Some((next, params)) ==> next == wanted && params == p
        }),
{
}

/// Keys and motion count as activity at the time they come and end a requested sleep;
/// only motion counts as motion. The start of the clock counts as activity where there
/// was none before, and changes nothing else.
pub proof fn law_activity_is_noted(activity: SplitActivity, now_ms: u32)
    ensures
        key_noted(activity, now_ms).last_activity_ms == now_ms,
        key_noted(activity, now_ms).last_pointing_activity_ms == activity.last_pointing_activity_ms,
        !key_noted(activity, now_ms).sleep_requested,
        motion_noted(activity, now_ms).last_activity_ms == now_ms,
        motion_noted(activity, now_ms).last_pointing_activity_ms == now_ms,
        !motion_noted(activity, now_ms).sleep_requested,
        activity.last_activity_ms != 0 ==> clock_started(activity, now_ms) == activity,
        activity.last_activity_ms == 0 ==> {
            &&& clock_started(activity, now_ms).last_activity_ms == now_ms
            &&& clock_started(activity, now_ms).last_pointing_activity_ms == activity.last_pointing_activity_ms
            &&& !clock_started(activity, now_ms).sleep_requested
        },
{
}

/// The keyboard sleeps and wakes with its links: the only link of a keyboard puts it to
/// sleep when it starts to sleep and wakes it when it stops; with several peripherals the
/// links leave that to the manager, which does the same whenever the wanted mode starts
/// or stops to be sleep. A change, and only a change, is announced.
pub proof fn law_keyboards_sleep_with_their_links(
    mode: SplitPowerMode,
    wanted: SplitPowerMode,
    peripherals_num: usize,
    asleep: bool,
    sleeping: bool,
)
    ensures
        ({
            let after = sleep_after_entering(mode, wanted, peripherals_num, sleeping);
            &&& peripherals_num != 1 ==> after == sleeping
            &&& peripherals_num == 1 && wanted == SplitPowerMode::Sleeping ==> after
            &&& peripherals_num == 1 && wanted != SplitPowerMode::Sleeping && mode == SplitPowerMode::Sleeping
                ==> !after
            &&& wanted != SplitPowerMode::Sleeping && mode != SplitPowerMode::Sleeping ==> after == sleeping
        }),
        ({
            let (now_asleep, after) = sleep_after_look(wanted, asleep, sleeping);
            &&& now_asleep <==> wanted == SplitPowerMode::Sleeping
            &&& now_asleep == asleep ==> after == sleeping
            &&& now_asleep != asleep ==> after == now_asleep
        }),
        ({
            let (now_asleep, after) = sleep_at_start(wanted, sleeping);
            &&& now_asleep <==> wanted == SplitPowerMode::Sleeping
            &&& now_asleep ==> after
            &&& !now_asleep ==> after == sleeping
        }),
        announcement(sleeping, sleeping) is None,
        announcement(sleeping, !sleeping) == Some(!sleeping),
{
}

} // verus!
