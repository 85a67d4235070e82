//! Advertising: which advertisement runs for how long, and its data.

use vstd::prelude::*;

verus! {

/// Longest high-duty directed advertisement.
pub const DIRECTED_RECONNECT_WINDOW_MS: u64 = 1_300;

/// Longest fast undirected advertisement.
pub const FAST_ADVERTISING_TIMEOUT_SECS: u64 = 30;

/// Interval of fast advertisements.
pub const FAST_ADVERTISING_INTERVAL_MS: u64 = 30;

/// Interval of slow advertisements.
pub const SLOW_ADVERTISING_INTERVAL_MS: u64 = 200;

/// Size of the data of an advertisement.
pub const ADVERTISING_DATA_SIZE: usize = 31;

/// AD flags: LE general discoverable, BR/EDR not supported.
pub const AD_FLAGS: u8 = 0x06;

/// AD type of the appearance.
pub const AD_TYPE_APPEARANCE: u8 = 0x19;

/// Low byte of the battery service's UUID, 0x180f.
pub const BATTERY_SERVICE_LOW: u8 = 0x0f;

/// Low byte of the HID service's UUID, 0x1812.
pub const HID_SERVICE_LOW: u8 = 0x12;

/// High byte of both services' UUIDs.
pub const SERVICE_HIGH: u8 = 0x18;

/// Bytes of the appearance of a keyboard, 0x03c1.
pub const KEYBOARD_LOW: u8 = 0xc1;

pub const KEYBOARD_HIGH: u8 = 0x03;

/// An AD structure: its length, its type and its data.
pub open spec fn ad_structure(ty: u8, data: Seq<u8>) -> Seq<u8> {
    seq![(data.len() + 1) as u8, ty] + data
}

/// Flags, two services, the complete local name and one more structure.
pub open spec fn ad_bytes(flags: u8, first: Seq<u8>, second: Seq<u8>, name: Seq<u8>, ty: u8, data: Seq<u8>) -> Seq<
    u8,
> {
    ad_structure(0x01, seq![flags]) + ad_structure(0x03, first + second) + ad_structure(0x09, name) + ad_structure(
        ty,
        data,
    )
}

/// Data that a keyboard of this name advertises.
pub open spec fn device_ad(name: Seq<u8>) -> Seq<u8> {
    ad_bytes(
        AD_FLAGS,
        seq![BATTERY_SERVICE_LOW, SERVICE_HIGH],
        seq![HID_SERVICE_LOW, SERVICE_HIGH],
        name,
        AD_TYPE_APPEARANCE,
        seq![KEYBOARD_LOW, KEYBOARD_HIGH],
    )
}

/// Advertising data filled up with zeros.
pub open spec fn padded(data: Seq<u8>) -> Seq<u8> {
    data + Seq::new((ADVERTISING_DATA_SIZE - data.len()) as nat, |i: int| 0u8)
}

/// Calls `AdStructure::encode_slice` of trouble-host on a zeroed buffer, with flags, a
/// complete list of two 16-bit service UUIDs in little-endian order, a complete local
/// name and a structure of another type. The structures come out one after the other,
/// each behind its length and type, and there is no result when they need more than
/// the 31 bytes of the buffer.
#[verifier::external_body]
fn encode_ad(flags: u8, first: [u8; 2], second: [u8; 2], name: &[u8], ty: u8, data: [u8; 2]) -> (encoded: Option<
    [u8; 31],
>)
    ensures
        encoded is Some == (ad_bytes(flags, first@, second@, name@, ty, data@).len() <= ADVERTISING_DATA_SIZE),
        encoded matches Some(bytes) ==> bytes@ == padded(ad_bytes(flags, first@, second@, name@, ty, data@)),
{
    let mut dest = [0u8; 31];
    trouble_host::prelude::AdStructure::encode_slice(
        &[
            trouble_host::prelude::AdStructure::Flags(flags),
            trouble_host::prelude::AdStructure::CompleteServiceUuids16(&[first, second]),
            trouble_host::prelude::AdStructure::CompleteLocalName(name),
            trouble_host::prelude::AdStructure::Unknown { ty, data: &data },
        ],
        &mut dest,
    ).ok().map(|_| dest)
}

/// Purpose of an advertisement.
#[derive(Clone, Copy, Debug, PartialEq, Eq, Structural)]
pub enum BleAdvertisingMode {
    Reconnecting,
    Pairing,
}

/// Errors of the BLE host that the keyboard tells apart.
#[derive(Clone, Copy, Debug, PartialEq, Eq, Structural)]
pub enum HostError {
    Timeout,
    Disconnected,
    NotFound,
    InsufficientSpace,
    /// Error status of the controller.
    Hci(u8),
    Other,
}

/// Timeouts of the build.
#[derive(Clone, Copy, Debug, PartialEq, Eq, Structural)]
pub struct AdvertisingTimeouts {
    pub reconnect_secs: u32,
    pub pairing_secs: u32,
}

/// An advertisement that is on air.
#[derive(Clone, Copy, Debug, PartialEq, Eq, Structural)]
pub enum AdvertisingPhase {
    /// High-duty directed advertisement to the bonded host.
    DirectedHighDuty { window_ms: u64 },
    /// Slow directed advertisement to the bonded host.
    Directed { window_ms: u64 },
    /// Fast advertisement that any host can answer.
    FastUndirected { window_secs: u64 },
    /// Slow advertisement that any host can answer.
    SlowUndirected { window_secs: u64 },
}

/// How an advertisement ended.
#[derive(Clone, Copy, Debug, PartialEq, Eq, Structural)]
pub enum AdvertisingOutcome {
    Connected,
    /// The advertisement could not be started, or its connection could not be used.
    Broken(HostError),
    /// The advertisement ended with an error.
    Failed(HostError),
    /// The window passed without a connection.
    WindowElapsed,
}

/// What follows.
#[derive(Clone, Copy, Debug, PartialEq, Eq, Structural)]
pub enum AdvertisingStep {
    Advertise(AdvertisingPhase),
    /// The connection is to be used.
    Connected,
    Fail(HostError),
}

/// Purpose of the advertisements of a profile with or without a bond.
pub open spec fn purpose(has_active_bond: bool) -> BleAdvertisingMode {
    if has_active_bond {
        BleAdvertisingMode::Reconnecting
    } else {
        BleAdvertisingMode::Pairing
    }
}

/// Purpose of the advertisements of a profile with or without a bond.
pub fn advertising_mode(has_active_bond: bool) -> (mode: BleAdvertisingMode)
    ensures
        mode == purpose(has_active_bond),
{
    if has_active_bond {
        BleAdvertisingMode::Reconnecting
    } else {
        BleAdvertisingMode::Pairing
    }
}

/// Length of the pairing window in seconds: a bonded profile opens none, and a
/// configured length of zero means the reconnect timeout.
pub open spec fn pairing_window(has_active_bond: bool, configured_secs: u64, reconnect_secs: u64) -> Option<u64> {
    if has_active_bond {
        None
    } else if configured_secs == 0 {
        Some(reconnect_secs)
    } else {
        Some(configured_secs)
    }
}

/// Length of the pairing window in seconds.
pub fn pairing_window_timeout_secs(
    has_active_bond: bool,
    configured_pairing_timeout_secs: u64,
    reconnect_timeout_secs: u64,
) -> (window: Option<u64>)
    ensures
        window == pairing_window(has_active_bond, configured_pairing_timeout_secs, reconnect_timeout_secs),
{
    if has_active_bond {
        None
    } else if configured_pairing_timeout_secs == 0 {
        Some(reconnect_timeout_secs)
    } else {
        Some(configured_pairing_timeout_secs)
    }
}

/// Whether a failed high-duty advertisement is followed by a slow one.
pub open spec fn continues_after(error: HostError) -> bool {
    error == HostError::Timeout
}

/// Whether a failed high-duty advertisement is followed by a slow one.
pub fn directed_reconnect_should_continue(error: &HostError) -> (go_on: bool)
    ensures
        go_on == continues_after(*error),
{
    match error {
        HostError::Timeout => true,
        _ => false,
    }
}

/// `a` or `b`, whichever is smaller.
pub open spec fn lesser(a: int, b: int) -> int {
    if a <= b {
        a
    } else {
        b
    }
}

/// Length of the high-duty advertisement.
pub open spec fn high_duty_ms(t: AdvertisingTimeouts) -> int {
    lesser(t.reconnect_secs * 1000, DIRECTED_RECONNECT_WINDOW_MS as int)
}

/// Slow directed advertisement for the rest of the reconnect timeout, if any is left.
pub open spec fn directed_rest(t: AdvertisingTimeouts) -> AdvertisingStep {
    let rest = t.reconnect_secs * 1000 - high_duty_ms(t);
    if rest > 0 {
        AdvertisingStep::Advertise(AdvertisingPhase::Directed { window_ms: rest as u64 })
    } else {
        AdvertisingStep::Fail(HostError::Timeout)
    }
}

/// Pairing window of an unbonded profile.
pub open spec fn pairing_secs(t: AdvertisingTimeouts) -> u64 {
    pairing_window(false, t.pairing_secs as u64, t.reconnect_secs as u64).unwrap()
}

/// Length of the fast undirected advertisement.
pub open spec fn fast_secs(t: AdvertisingTimeouts) -> int {
    lesser(pairing_secs(t) as int, FAST_ADVERTISING_TIMEOUT_SECS as int)
}

/// First step of advertising.
pub open spec fn first_step(has_active_peer: bool, t: AdvertisingTimeouts) -> AdvertisingStep {
    if has_active_peer {
        if high_duty_ms(t) > 0 {
            AdvertisingStep::Advertise(AdvertisingPhase::DirectedHighDuty { window_ms: high_duty_ms(t) as u64 })
        } else {
            directed_rest(t)
        }
    } else if pairing_secs(t) == 0 {
        AdvertisingStep::Fail(HostError::Timeout)
    } else {
        AdvertisingStep::Advertise(AdvertisingPhase::FastUndirected { window_secs: fast_secs(t) as u64 })
    }
}

/// Step after an advertisement ended.
pub open spec fn next_step(phase: AdvertisingPhase, outcome: AdvertisingOutcome, t: AdvertisingTimeouts) ->
    AdvertisingStep {
    match outcome {
        AdvertisingOutcome::Connected => AdvertisingStep::Connected,
        AdvertisingOutcome::Broken(error) => AdvertisingStep::Fail(error),
        AdvertisingOutcome::Failed(error) => if phase is DirectedHighDuty && continues_after(error) {
            directed_rest(t)
        } else {
            AdvertisingStep::Fail(error)
        },
        AdvertisingOutcome::WindowElapsed => match phase {
            AdvertisingPhase::DirectedHighDuty { .. } => directed_rest(t),
            AdvertisingPhase::FastUndirected { .. } => {
                let rest = pairing_secs(t) - fast_secs(t);
                if rest > 0 {
                    AdvertisingStep::Advertise(AdvertisingPhase::SlowUndirected { window_secs: rest as u64 })
                } else {
                    AdvertisingStep::Fail(HostError::Timeout)
                }
            },
            _ => AdvertisingStep::Fail(HostError::Timeout),
        },
    }
}

/// Slow directed advertisement for the rest of the reconnect timeout, if any is left.
fn continue_directed(t: &AdvertisingTimeouts) -> (step: AdvertisingStep)
    ensures
        step == directed_rest(*t),
{
    let total_ms: u64 = t.reconnect_secs as u64 * 1_000;
    let high_ms: u64 = if total_ms <= DIRECTED_RECONNECT_WINDOW_MS {
        total_ms
    } else {
        DIRECTED_RECONNECT_WINDOW_MS
    };
    let rest_ms: u64 = total_ms - high_ms;
    if rest_ms > 0 {
        AdvertisingStep::Advertise(AdvertisingPhase::Directed { window_ms: rest_ms })
    } else {
        AdvertisingStep::Fail(HostError::Timeout)
    }
}

/// First advertisement for a profile with or without a bonded host.
pub fn advertise_first(has_active_peer: bool, t: &AdvertisingTimeouts) -> (step: AdvertisingStep)
    ensures
        step == first_step(has_active_peer, *t),
{
    let total_ms: u64 = t.reconnect_secs as u64 * 1_000;
    if has_active_peer {
        let high_ms: u64 = if total_ms <= DIRECTED_RECONNECT_WINDOW_MS {
            total_ms
        } else {
            DIRECTED_RECONNECT_WINDOW_MS
        };
        if high_ms > 0 {
            return AdvertisingStep::Advertise(AdvertisingPhase::DirectedHighDuty { window_ms: high_ms });
        }
        return continue_directed(t);
    }
    match pairing_window_timeout_secs(has_active_peer, t.pairing_secs as u64, t.reconnect_secs as u64) {
        Some(window) => {
            if window == 0 {
                return AdvertisingStep::Fail(HostError::Timeout);
            }
            let fast: u64 = if window <= FAST_ADVERTISING_TIMEOUT_SECS {
                window
            } else {
                FAST_ADVERTISING_TIMEOUT_SECS
            };
            AdvertisingStep::Advertise(AdvertisingPhase::FastUndirected { window_secs: fast })
        },
        None => AdvertisingStep::Fail(HostError::Timeout),
    }
}

/// What a keyboard puts on air, and why.
#[derive(Clone, Copy, Debug)]
pub struct AdvertisingPlan {
    /// Data of the undirected advertisements.
    pub data: [u8; 31],
    pub mode: BleAdvertisingMode,
    pub first: AdvertisingStep,
}

/// Whether `plan` is what advertising under a name of these bytes starts with.
pub open spec fn is_plan(
    plan: Result<AdvertisingPlan, HostError>,
    name: Seq<u8>,
    has_active_peer: bool,
    t: AdvertisingTimeouts,
) -> bool {
    match plan {
        Ok(p) => {
            &&& device_ad(name).len() <= ADVERTISING_DATA_SIZE
            &&& p.data@ == padded(device_ad(name))
            &&& p.mode == purpose(has_active_peer)
            &&& p.first == first_step(has_active_peer, t)
        },
        Err(error) => {
            &&& error == HostError::InsufficientSpace
            &&& device_ad(name).len() > ADVERTISING_DATA_SIZE
        },
    }
}

/// Starts advertising under a device name. A name that leaves no room for the other
/// data is refused before anything is put on air.
pub fn advertise(name: &str, has_active_peer: bool, t: &AdvertisingTimeouts) -> (plan: Result<
    AdvertisingPlan,
    HostError,
>)
    ensures
        is_plan(plan, vstd::utf8::encode_utf8(name@), has_active_peer, *t),
{
    match encode_ad(
        AD_FLAGS,
        [BATTERY_SERVICE_LOW, SERVICE_HIGH],
        [HID_SERVICE_LOW, SERVICE_HIGH],
        name.as_bytes(),
        AD_TYPE_APPEARANCE,
        [KEYBOARD_LOW, KEYBOARD_HIGH],
    ) {
        Some(data) => Ok(
            AdvertisingPlan {
                data,
                mode: advertising_mode(has_active_peer),
                first: advertise_first(has_active_peer, t),
            },
        ),
        None => Err(HostError::InsufficientSpace),
    }
}

/// Goes on after an advertisement ended.
pub fn advertise_next(phase: AdvertisingPhase, outcome: AdvertisingOutcome, t: &AdvertisingTimeouts) -> (step:
    AdvertisingStep)
    ensures
        step == next_step(phase, outcome, *t),
{
    match outcome {
        AdvertisingOutcome::Connected => AdvertisingStep::Connected,
        AdvertisingOutcome::Broken(error) => AdvertisingStep::Fail(error),
        AdvertisingOutcome::Failed(error) => {
            if let AdvertisingPhase::DirectedHighDuty { .. } = phase {
                if directed_reconnect_should_continue(&error) {
                    return continue_directed(t);
                }
            }
            AdvertisingStep::Fail(error)
        },
        AdvertisingOutcome::WindowElapsed => match phase {
            AdvertisingPhase::DirectedHighDuty { .. } => continue_directed(t),
            AdvertisingPhase::FastUndirected { .. } => {
                let window: u64 = if t.pairing_secs == 0 {
                    t.reconnect_secs as u64
                } else {
                    t.pairing_secs as u64
                };
                let fast: u64 = if window <= FAST_ADVERTISING_TIMEOUT_SECS {
                    window
                } else {
                    FAST_ADVERTISING_TIMEOUT_SECS
                };
                let slow: u64 = window - fast;
                if slow == 0 {
                    AdvertisingStep::Fail(HostError::Timeout)
                } else {
                    AdvertisingStep::Advertise(AdvertisingPhase::SlowUndirected { window_secs: slow })
                }
            },
            _ => AdvertisingStep::Fail(HostError::Timeout),
        },
    }
}

/// Interval of an advertisement.
pub open spec fn interval_of(phase: AdvertisingPhase) -> u64 {
    match phase {
        AdvertisingPhase::DirectedHighDuty { .. } | AdvertisingPhase::FastUndirected { .. } =>
            FAST_ADVERTISING_INTERVAL_MS,
        _ => SLOW_ADVERTISING_INTERVAL_MS,
    }
}

/// Interval of an advertisement.
pub fn advertising_interval_ms(phase: AdvertisingPhase) -> (interval: u64)
    ensures
        interval == interval_of(phase),
{
    match phase {
        AdvertisingPhase::DirectedHighDuty { .. } | AdvertisingPhase::FastUndirected { .. } =>
            FAST_ADVERTISING_INTERVAL_MS,
        _ => SLOW_ADVERTISING_INTERVAL_MS,
    }
}

/// A device name can be advertised if and only if it has at most 16 bytes.
pub proof fn law_short_names_fit(name: Seq<u8>)
    ensures
        device_ad(name).len() <= ADVERTISING_DATA_SIZE <==> name.len() <= 16,
{
}

/// Whether an advertisement can be answered by a host that is not bonded.
pub open spec fn is_discoverable(step: AdvertisingStep) -> bool {
    step matches AdvertisingStep::Advertise(phase) && (phase is FastUndirected || phase is SlowUndirected)
}

/// A bonded profile never becomes discoverable for a new host by itself: advertising
/// starts directed, and a directed advertisement is only ever followed by another
/// directed one.
pub proof fn law_bonded_profile_stays_hidden(
    t: AdvertisingTimeouts,
    phase: AdvertisingPhase,
    outcome: AdvertisingOutcome,
)
    ensures
        !is_discoverable(first_step(true, t)),
        phase is DirectedHighDuty || phase is Directed ==> !is_discoverable(next_step(phase, outcome, t)),
{
}

/// Time in milliseconds that an advertisement may be on air.
pub open spec fn air_time_ms(step: AdvertisingStep) -> int {
    match step {
        AdvertisingStep::Advertise(AdvertisingPhase::DirectedHighDuty { window_ms }) => window_ms as int,
        AdvertisingStep::Advertise(AdvertisingPhase::Directed { window_ms }) => window_ms as int,
        AdvertisingStep::Advertise(AdvertisingPhase::FastUndirected { window_secs }) => window_secs * 1000,
        AdvertisingStep::Advertise(AdvertisingPhase::SlowUndirected { window_secs }) => window_secs * 1000,
        _ => 0,
    }
}

/// Step that follows when nobody answers.
pub open spec fn unanswered(step: AdvertisingStep, t: AdvertisingTimeouts) -> AdvertisingStep {
    match step {
        AdvertisingStep::Advertise(phase) => next_step(phase, AdvertisingOutcome::WindowElapsed, t),
        other => other,
    }
}

/// Unanswered advertisements use up their timeout exactly and then report a timeout:
/// the reconnect timeout of a bonded profile, the pairing window of another.
pub proof fn law_windows_add_up(has_active_peer: bool, t: AdvertisingTimeouts)
    ensures
        ({
            let first = first_step(has_active_peer, t);
            let second = unanswered(first, t);
            let budget = if has_active_peer {
                t.reconnect_secs * 1000
            } else {
                pairing_secs(t) * 1000
            };
            &&& air_time_ms(first) + (if first is Advertise {
                air_time_ms(second)
            } else {
                0
            }) == budget
            &&& unanswered(second, t) == AdvertisingStep::Fail(HostError::Timeout)
        }),
{
}

/// A profile with a bond calls its host for the reconnect timeout and no other one: at
/// high duty for up to 1.3 s, and slowly for the rest, also where the high duty ended
/// early. Without a timeout it does not call at all.
pub proof fn law_bonded_profiles_call_their_host(t: AdvertisingTimeouts, window_ms: u64)
    ensures
        ({
            let timed_out = AdvertisingStep::Fail(HostError::Timeout);
            let high = |ms: u64| AdvertisingStep::Advertise(AdvertisingPhase::DirectedHighDuty { window_ms: ms });
            let rest = AdvertisingStep::Advertise(
                AdvertisingPhase::Directed { window_ms: (1000 * t.reconnect_secs - 1300) as u64 },
            );
            let phase = AdvertisingPhase::DirectedHighDuty { window_ms };
            let slow = AdvertisingPhase::Directed { window_ms };
            let elapsed = next_step(phase, AdvertisingOutcome::WindowElapsed, t);
            let ended = next_step(phase, AdvertisingOutcome::Failed(HostError::Timeout), t);
            &&& t.reconnect_secs == 0 ==> first_step(true, t) == timed_out
            &&& t.reconnect_secs == 1 ==> first_step(true, t) == high(1000)
            &&& t.reconnect_secs >= 2 ==> first_step(true, t) == high(1300)
            &&& t.reconnect_secs >= 2 ==> elapsed == rest && ended == rest
            &&& t.reconnect_secs < 2 ==> elapsed == timed_out && ended == timed_out
            &&& next_step(slow, AdvertisingOutcome::WindowElapsed, t) == timed_out
            &&& purpose(true) == BleAdvertisingMode::Reconnecting
        }),
{
}

/// A profile without a bond can be found for the pairing window, which is the reconnect
/// timeout where none is set: fast for up to 30 s, and slowly for the rest.
pub proof fn law_unbonded_profiles_can_be_found(t: AdvertisingTimeouts, window_secs: u64)
    ensures
        ({
            let window = if t.pairing_secs == 0 {
                t.reconnect_secs
            } else {
                t.pairing_secs
            };
            let timed_out = AdvertisingStep::Fail(HostError::Timeout);
            let fast = |secs: u64| AdvertisingStep::Advertise(AdvertisingPhase::FastUndirected { window_secs: secs });
            let elapsed = next_step(
                AdvertisingPhase::FastUndirected { window_secs },
                AdvertisingOutcome::WindowElapsed,
                t,
            );
            &&& window == 0 ==> first_step(false, t) == timed_out
            &&& 0 < window <= 30 ==> first_step(false, t) == fast(window as u64) && elapsed == timed_out
            &&& window > 30 ==> first_step(false, t) == fast(30) && elapsed == AdvertisingStep::Advertise(
                AdvertisingPhase::SlowUndirected { window_secs: (window - 30) as u64 },
            )
            &&& next_step(
                AdvertisingPhase::SlowUndirected { window_secs },
                AdvertisingOutcome::WindowElapsed,
                t,
            ) == timed_out
            &&& purpose(false) == BleAdvertisingMode::Pairing
        }),
        pairing_window(true, t.pairing_secs as u64, t.reconnect_secs as u64) is None,
        t.pairing_secs > 0 ==> pairing_window(false, t.pairing_secs as u64, t.reconnect_secs as u64) == Some(
            t.pairing_secs as u64,
        ),
        t.pairing_secs == 0 ==> pairing_window(false, 0, t.reconnect_secs as u64) == Some(t.reconnect_secs as u64),
{
}

/// A connection is used; an error is passed on, but for the timeout of a high-duty
/// advertisement. Fast advertisements come every 30 ms and slow ones every 200 ms.
pub proof fn law_advertising_ends_with_its_outcome(
    phase: AdvertisingPhase,
    error: HostError,
    t: AdvertisingTimeouts,
)
    ensures
        next_step(phase, AdvertisingOutcome::Connected, t) == AdvertisingStep::Connected,
        next_step(phase, AdvertisingOutcome::Broken(error), t) == AdvertisingStep::Fail(error),
        !(phase is DirectedHighDuty) || error != HostError::Timeout ==> next_step(
            phase,
            AdvertisingOutcome::Failed(error),
            t,
        ) == AdvertisingStep::Fail(error),
        continues_after(error) <==> error == HostError::Timeout,
        phase is DirectedHighDuty || phase is FastUndirected ==> interval_of(phase) == 30,
        phase is Directed || phase is SlowUndirected ==> interval_of(phase) == 200,
{
}

/// A keyboard advertises, in 31 bytes: that it is discoverable and speaks LE only, the
/// battery and HID services, its whole name, and that it is a keyboard; zeros fill the
/// rest. A name that does not fit is refused.
pub proof fn law_keyboards_announce_themselves(
    plan: Result<AdvertisingPlan, HostError>,
    name: Seq<u8>,
    has_active_peer: bool,
    t: AdvertisingTimeouts,
)
    requires
        is_plan(plan, name, has_active_peer, t),
    ensures
        plan is Ok <==> name.len() <= 16,
        plan matches Err(error) ==> error == HostError::InsufficientSpace,
        plan matches Ok(p) ==> {
            let ad = seq![2u8, 0x01, 0x06, 5, 0x03, 0x0f, 0x18, 0x12, 0x18, (name.len() + 1) as u8, 0x09] + name + seq![
                3u8,
                0x19,
                0xc1,
                0x03,
            ];
            &&& p.data@.take(ad.len() as int) == ad
            &&& forall|i: int| ad.len() <= i < 31 ==> p.data@[i] == 0
            &&& p.mode == BleAdvertisingMode::Reconnecting <==> has_active_peer
            &&& p.first == first_step(has_active_peer, t)
        },
{
    let ad = seq![2u8, 0x01, 0x06, 5, 0x03, 0x0f, 0x18, 0x12, 0x18, (name.len() + 1) as u8, 0x09] + name + seq![
        3u8,
        0x19,
        0xc1,
        0x03,
    ];
    assert(device_ad(name) =~= ad);
    if let Ok(p) = plan {
        assert(p.data@.take(ad.len() as int) =~= ad);
    }
}

} // verus!
