//! Link management: connection parameters, PHY upgrade and controller retries.
//!
//! Durations are microseconds unless a name says otherwise.

use vstd::prelude::*;

use crate::features::Features;

verus! {

pub const HOST_PHY_UPDATE_ATTEMPTS: u8 = 3;

/// Time between the request for another PHY and its verification.
pub const HOST_PHY_UPDATE_SETTLE_MS: u64 = 80;

/// Connection events that an idle keyboard may skip.
pub const HOST_IDLE_MAX_LATENCY: u16 = 30;

/// Connection events that may be skipped while the host configures the keyboard, and
/// at any time on a zero-latency link.
pub const HOST_INTERACTIVE_MAX_LATENCY: u16 = 0;

/// Time without configuration traffic after which a configuration session ends.
pub const VIAL_LINK_IDLE_TIMEOUT_SECS: u64 = 30;

pub const HCI_LINK_UPDATE_ATTEMPTS: u8 = 12;

pub const HCI_LINK_UPDATE_RETRY_MS: u64 = 20;

/// Pause before each of the first two parameter updates of a host connection.
pub const HOST_PARAMS_DELAY_SECS: u64 = 5;

/// Connection interval that every host accepts.
pub const HOST_COMPATIBLE_INTERVAL: u64 = 15_000;

/// Shortest connection interval.
pub const FAST_INTERVAL: u64 = 7_500;

/// Physical layer of a link.
#[derive(Clone, Copy, Debug, PartialEq, Eq, Structural)]
pub enum PhyKind {
    Le1M,
    Le2M,
    LeCoded,
    LeCodedS2,
}

/// Requested connection parameters. Durations are in microseconds.
#[derive(Clone, Copy, Debug, PartialEq, Eq, Structural)]
pub struct RequestedConnParams {
    pub min_connection_interval: u64,
    pub max_connection_interval: u64,
    pub max_latency: u16,
    pub min_event_length: u64,
    pub max_event_length: u64,
    pub supervision_timeout: u64,
}

/// Calls `RequestedConnParams::default` of trouble-host and hands out its shortest and
/// longest event length in microseconds. Both are zero.
#[verifier::external_body]
pub(crate) fn default_event_lengths() -> (lengths: (u64, u64))
    ensures
        lengths == (0u64, 0u64),
{
    let defaults = trouble_host::prelude::RequestedConnParams::default();
    (defaults.min_event_length.as_micros(), defaults.max_event_length.as_micros())
}

/// Parameters with a fixed interval, no event length and the given timeout.
pub open spec fn fixed_params(interval: u64, max_latency: u16, supervision_timeout: u64) -> RequestedConnParams {
    RequestedConnParams {
        min_connection_interval: interval,
        max_connection_interval: interval,
        max_latency,
        min_event_length: 0,
        max_event_length: 0,
        supervision_timeout,
    }
}

/// Parameters of a host connection with the given interval.
pub fn host_connection_params(interval: u64, max_latency: u16) -> (params: RequestedConnParams)
    ensures
        params == fixed_params(interval, max_latency, 5_000_000),
{
    RequestedConnParams {
        min_connection_interval: interval,
        max_connection_interval: interval,
        max_latency,
        min_event_length: 0,
        max_event_length: 0,
        supervision_timeout: 5_000_000,
    }
}

/// Latency of an idle host connection.
pub open spec fn idle_latency(features: Features) -> u16 {
    if features.ble_zero_latency {
        HOST_INTERACTIVE_MAX_LATENCY
    } else {
        HOST_IDLE_MAX_LATENCY
    }
}

/// Latency of an idle host connection.
pub fn host_idle_max_latency(features: &Features) -> (latency: u16)
    ensures
        latency == idle_latency(*features),
{
    if features.ble_zero_latency {
        HOST_INTERACTIVE_MAX_LATENCY
    } else {
        HOST_IDLE_MAX_LATENCY
    }
}

/// Where the parameter management of a host connection stands.
#[derive(Clone, Copy, Debug, PartialEq, Eq, Structural)]
pub enum ConnParamsState {
    /// Before the first update.
    WarmUp,
    /// First update, to the interval that every host accepts.
    Compatible,
    /// Between the first and the second update.
    Settle,
    /// Second update, to the shortest interval.
    Fast,
    /// No configuration session is open.
    AwaitSession,
    /// A configuration session starts.
    EnterSession,
    /// A configuration session is open.
    InSession,
    /// A configuration session ends.
    LeaveSession,
    /// Nothing is left to do.
    Parked,
}

/// What the parameter management of a host connection does in a state.
#[derive(Clone, Copy, Debug, PartialEq, Eq, Structural)]
pub enum ConnParamsAction {
    /// Pause for this many seconds.
    Pause(u64),
    /// Request connection parameters.
    Update(RequestedConnParams),
    /// Wait for configuration traffic.
    AwaitActivity,
    /// Wait for configuration traffic, for this many seconds at most.
    AwaitActivityFor(u64),
    /// Wait forever.
    Park,
}

/// Whether configuration sessions are watched for: only where there is a
/// configuration host and idling costs latency.
pub open spec fn watches_sessions(features: Features) -> bool {
    features.host && !features.ble_zero_latency
}

/// Action of a state.
pub open spec fn params_action(state: ConnParamsState, features: Features) -> ConnParamsAction {
    match state {
        ConnParamsState::WarmUp => ConnParamsAction::Pause(HOST_PARAMS_DELAY_SECS),
        ConnParamsState::Compatible => ConnParamsAction::Update(
            fixed_params(HOST_COMPATIBLE_INTERVAL, idle_latency(features), 5_000_000),
        ),
        ConnParamsState::Settle => ConnParamsAction::Pause(HOST_PARAMS_DELAY_SECS),
        ConnParamsState::Fast => ConnParamsAction::Update(
            fixed_params(FAST_INTERVAL, idle_latency(features), 5_000_000),
        ),
        ConnParamsState::AwaitSession => ConnParamsAction::AwaitActivity,
        ConnParamsState::EnterSession => ConnParamsAction::Update(
            fixed_params(FAST_INTERVAL, HOST_INTERACTIVE_MAX_LATENCY, 5_000_000),
        ),
        ConnParamsState::InSession => ConnParamsAction::AwaitActivityFor(VIAL_LINK_IDLE_TIMEOUT_SECS),
        ConnParamsState::LeaveSession => ConnParamsAction::Update(
            fixed_params(FAST_INTERVAL, idle_latency(features), 5_000_000),
        ),
        ConnParamsState::Parked => ConnParamsAction::Park,
    }
}

/// State after the action of a state is done. `active` tells whether a wait ended
/// with configuration traffic.
pub open spec fn params_next(state: ConnParamsState, active: bool, features: Features) -> ConnParamsState {
    match state {
        ConnParamsState::WarmUp => ConnParamsState::Compatible,
        ConnParamsState::Compatible => ConnParamsState::Settle,
        ConnParamsState::Settle => ConnParamsState::Fast,
        ConnParamsState::Fast => if watches_sessions(features) {
            ConnParamsState::AwaitSession
        } else {
            ConnParamsState::Parked
        },
        ConnParamsState::AwaitSession => ConnParamsState::EnterSession,
        ConnParamsState::EnterSession => ConnParamsState::InSession,
        ConnParamsState::InSession => if active {
            ConnParamsState::InSession
        } else {
            ConnParamsState::LeaveSession
        },
        ConnParamsState::LeaveSession => ConnParamsState::AwaitSession,
        ConnParamsState::Parked => ConnParamsState::Parked,
    }
}

impl ConnParamsState {
    /// What to do in this state.
    pub fn action(self, features: &Features) -> (action: ConnParamsAction)
        ensures
            action == params_action(self, *features),
    {
        let idle: u16 = host_idle_max_latency(features);
        match self {
            ConnParamsState::WarmUp => ConnParamsAction::Pause(HOST_PARAMS_DELAY_SECS),
            ConnParamsState::Compatible => ConnParamsAction::Update(
                host_connection_params(HOST_COMPATIBLE_INTERVAL, idle),
            ),
            ConnParamsState::Settle => ConnParamsAction::Pause(HOST_PARAMS_DELAY_SECS),
            ConnParamsState::Fast => ConnParamsAction::Update(host_connection_params(FAST_INTERVAL, idle)),
            ConnParamsState::AwaitSession => ConnParamsAction::AwaitActivity,
            ConnParamsState::EnterSession => ConnParamsAction::Update(
                host_connection_params(FAST_INTERVAL, HOST_INTERACTIVE_MAX_LATENCY),
            ),
            ConnParamsState::InSession => ConnParamsAction::AwaitActivityFor(VIAL_LINK_IDLE_TIMEOUT_SECS),
            ConnParamsState::LeaveSession => ConnParamsAction::Update(host_connection_params(FAST_INTERVAL, idle)),
            ConnParamsState::Parked => ConnParamsAction::Park,
        }
    }

    /// State after the action of this state is done. `active` tells whether a wait
    /// ended with configuration traffic.
    pub fn next(self, active: bool, features: &Features) -> (state: ConnParamsState)
        ensures
            state == params_next(self, active, *features),
    {
        match self {
            ConnParamsState::WarmUp => ConnParamsState::Compatible,
            ConnParamsState::Compatible => ConnParamsState::Settle,
            ConnParamsState::Settle => ConnParamsState::Fast,
            ConnParamsState::Fast => if features.host && !features.ble_zero_latency {
                ConnParamsState::AwaitSession
            } else {
                ConnParamsState::Parked
            },
            ConnParamsState::AwaitSession => ConnParamsState::EnterSession,
            ConnParamsState::EnterSession => ConnParamsState::InSession,
            ConnParamsState::InSession => if active {
                ConnParamsState::InSession
            } else {
                ConnParamsState::LeaveSession
            },
            ConnParamsState::LeaveSession => ConnParamsState::AwaitSession,
            ConnParamsState::Parked => ConnParamsState::Parked,
        }
    }
}

/// Outcome of the verification of a PHY upgrade.
#[derive(Clone, Copy, Debug, PartialEq, Eq, Structural)]
pub enum HostPhyUpdateState {
    Verified,
    Retry,
    Exhausted,
}

/// Verdict on the PHYs that were read back after attempt `attempt`.
pub open spec fn phy_verdict(tx_phy: PhyKind, rx_phy: PhyKind, attempt: u8) -> HostPhyUpdateState {
    if tx_phy == PhyKind::Le2M && rx_phy == PhyKind::Le2M {
        HostPhyUpdateState::Verified
    } else if attempt < HOST_PHY_UPDATE_ATTEMPTS {
        HostPhyUpdateState::Retry
    } else {
        HostPhyUpdateState::Exhausted
    }
}

/// Judges the PHYs that were read back after attempt `attempt`.
pub fn host_phy_update_state(tx_phy: PhyKind, rx_phy: PhyKind, attempt: u8) -> (state: HostPhyUpdateState)
    ensures
        state == phy_verdict(tx_phy, rx_phy, attempt),
{
    if tx_phy == PhyKind::Le2M && rx_phy == PhyKind::Le2M {
        HostPhyUpdateState::Verified
    } else if attempt < HOST_PHY_UPDATE_ATTEMPTS {
        HostPhyUpdateState::Retry
    } else {
        HostPhyUpdateState::Exhausted
    }
}

/// Attempt that follows attempt `attempt`, whose PHYs were read back as `readback`;
/// `None` when the upgrade is over. It is over once both directions run on LE 2M,
/// after the last attempt, and when the link is gone.
pub open spec fn next_phy_attempt(attempt: u8, readback: Option<(PhyKind, PhyKind)>, connected: bool) -> Option<u8> {
    if readback == Some((PhyKind::Le2M, PhyKind::Le2M)) || !connected || attempt >= HOST_PHY_UPDATE_ATTEMPTS {
        None
    } else {
        Some((attempt + 1) as u8)
    }
}

/// Attempt that follows attempt `attempt` of the upgrade of a host link to LE 2M.
pub fn ensure_host_ble_2m_phy_step(attempt: u8, readback: Option<(PhyKind, PhyKind)>, connected: bool) -> (next: Option<
    u8,
>)
    ensures
        next == next_phy_attempt(attempt, readback, connected),
{
    if let Some((tx_phy, rx_phy)) = readback {
        match host_phy_update_state(tx_phy, rx_phy, attempt) {
            HostPhyUpdateState::Verified => {
                return None;
            },
            HostPhyUpdateState::Retry => {},
            HostPhyUpdateState::Exhausted => {
                return None;
            },
        }
    }
    if !connected || attempt >= HOST_PHY_UPDATE_ATTEMPTS {
        return None;
    }
    Some(attempt + 1)
}

/// Whether an HCI status says that the controller is busy.
pub open spec fn is_busy(status: u8) -> bool {
    status == 0x2a || status == 0x3a
}

/// Whether an HCI status says that the controller is busy with another link-control
/// procedure: 0x2a (different transaction collision) or 0x3a (controller busy).
pub fn is_hci_link_update_busy(status: u8) -> (busy: bool)
    ensures
        busy == is_busy(status),
{
    status == 0x2a || status == 0x3a
}

/// Outcome of one attempt at a link-control procedure.
#[derive(Clone, Copy, Debug, PartialEq, Eq, Structural)]
pub enum LinkOutcome {
    /// The link was gone before the attempt.
    NotConnected,
    /// The controller accepted the procedure.
    Accepted,
    /// The controller refused with this HCI status.
    Hci(u8),
    /// Any other error.
    Failed,
}

/// What follows an attempt at a link-control procedure.
#[derive(Clone, Copy, Debug, PartialEq, Eq, Structural)]
pub enum LinkStep {
    /// Try again as this attempt, after [`HCI_LINK_UPDATE_RETRY_MS`].
    Retry(u8),
    /// Give the result.
    Done(bool),
}

/// What follows attempt `attempt`: only a busy controller is asked again, and only
/// until the attempts are used up.
pub open spec fn link_step(attempt: u8, outcome: LinkOutcome) -> LinkStep {
    match outcome {
        LinkOutcome::Accepted => LinkStep::Done(true),
        LinkOutcome::Hci(status) => if is_busy(status) && attempt < HCI_LINK_UPDATE_ATTEMPTS {
            LinkStep::Retry((attempt + 1) as u8)
        } else {
            LinkStep::Done(false)
        },
        _ => LinkStep::Done(false),
    }
}

/// What follows attempt `attempt` at a PHY or parameter update. Attempts count from 1.
pub fn link_update_step(attempt: u8, outcome: LinkOutcome) -> (step: LinkStep)
    ensures
        step == link_step(attempt, outcome),
{
    match outcome {
        LinkOutcome::Accepted => LinkStep::Done(true),
        LinkOutcome::Hci(status) => if is_hci_link_update_busy(status) && attempt < HCI_LINK_UPDATE_ATTEMPTS {
            LinkStep::Retry(attempt + 1)
        } else {
            LinkStep::Done(false)
        },
        _ => LinkStep::Done(false),
    }
}

/// Result of a link update whose attempts, from `attempt` on, have these outcomes;
/// `None` while the outcomes ask for another attempt.
pub open spec fn link_result(attempt: u8, outcomes: Seq<LinkOutcome>) -> Option<bool>
    decreases outcomes.len(),
{
    if outcomes.len() == 0 {
        None
    } else {
        match link_step(attempt, outcomes.first()) {
            LinkStep::Done(ok) => Some(ok),
            LinkStep::Retry(next) => link_result(next, outcomes.drop_first()),
        }
    }
}

/// A link update ends after at most [`HCI_LINK_UPDATE_ATTEMPTS`] attempts.
pub proof fn law_link_update_ends(attempt: u8, outcomes: Seq<LinkOutcome>)
    requires
        1 <= attempt <= HCI_LINK_UPDATE_ATTEMPTS,
        outcomes.len() > HCI_LINK_UPDATE_ATTEMPTS - attempt,
    ensures
        link_result(attempt, outcomes) is Some,
    decreases outcomes.len(),
{
    if link_step(attempt, outcomes.first()) is Retry {
        law_link_update_ends((attempt + 1) as u8, outcomes.drop_first());
    }
}

/// A link update that succeeds was accepted by the controller.
pub proof fn law_link_update_success_is_earned(attempt: u8, outcomes: Seq<LinkOutcome>)
    requires
        link_result(attempt, outcomes) == Some(true),
    ensures
        outcomes.contains(LinkOutcome::Accepted),
    decreases outcomes.len(),
{
    match link_step(attempt, outcomes.first()) {
        LinkStep::Done(_) => {
            assert(outcomes[0] == LinkOutcome::Accepted);
        },
        LinkStep::Retry(next) => {
            let rest = outcomes.drop_first();
            law_link_update_success_is_earned(next, rest);
            let i = choose|i: int| 0 <= i < rest.len() && rest[i] == LinkOutcome::Accepted;
            assert(outcomes[i + 1] == LinkOutcome::Accepted);
        },
    }
}

/// The PHY upgrade of a host link makes at most [`HOST_PHY_UPDATE_ATTEMPTS`] attempts and
/// ends before that only when LE 2M is verified in both directions or the link is gone.
pub proof fn law_phy_upgrade_ends(attempt: u8, readback: Option<(PhyKind, PhyKind)>, connected: bool)
    requires
        1 <= attempt <= HOST_PHY_UPDATE_ATTEMPTS,
    ensures
        next_phy_attempt(attempt, readback, connected) matches Some(next) ==> attempt < next
            <= HOST_PHY_UPDATE_ATTEMPTS,
        next_phy_attempt(attempt, readback, connected) is None && attempt < HOST_PHY_UPDATE_ATTEMPTS ==> readback
            == Some((PhyKind::Le2M, PhyKind::Le2M)) || !connected,
{
}

/// A configuration session always runs without latency and always gives the latency of
/// an idle link back when it ends.
pub proof fn law_sessions_restore_idle_latency(features: Features)
    ensures
        params_action(ConnParamsState::EnterSession, features) matches ConnParamsAction::Update(p) && p.max_latency == 0,
        params_next(ConnParamsState::InSession, false, features) == ConnParamsState::LeaveSession,
        params_action(ConnParamsState::LeaveSession, features) == params_action(ConnParamsState::Fast, features),
{
}

/// The parameters of a host connection have the interval as asked, no shorter and no
/// longer one, the latency as asked, and are given up after 5 s. An idle keyboard may
/// skip 30 events, and none on a link without latency.
pub proof fn law_host_links_are_as_asked(interval: u64, max_latency: u16, timeout: u64, features: Features)
    ensures
        ({
            let p = fixed_params(interval, max_latency, timeout);
            &&& p.min_connection_interval == interval && p.max_connection_interval == interval
            &&& p.max_latency == max_latency
            &&& p.supervision_timeout == timeout
            &&& p.min_event_length == 0 && p.max_event_length == 0
        }),
        idle_latency(features) == (if features.ble_zero_latency {
            0u16
        } else {
            30u16
        }),
{
}

/// A new host connection is left alone for 5 s, is given an interval of 15 ms, and after
/// 5 s more the shortest one, of 7.5 ms. Where a host can configure the keyboard and the
/// link has latency, traffic of a configuration then opens a session without latency,
/// which goes on until there was none for 30 s, and then gives the latency back.
pub proof fn law_host_links_settle(active: bool, features: Features)
    ensures
        ({
            let latency = if features.ble_zero_latency {
                0u16
            } else {
                30u16
            };
            let watched = features.host && !features.ble_zero_latency;
            let update = |interval: u64, max_latency: u16|
                ConnParamsAction::Update(
                    RequestedConnParams {
                        min_connection_interval: interval,
                        max_connection_interval: interval,
                        max_latency,
                        min_event_length: 0,
                        max_event_length: 0,
                        supervision_timeout: 5_000_000,
                    },
                );
            let next = |state: ConnParamsState| params_next(state, active, features);
            let action = |state: ConnParamsState| params_action(state, features);
            &&& action(ConnParamsState::WarmUp) == ConnParamsAction::Pause(5)
            &&& next(ConnParamsState::WarmUp) == ConnParamsState::Compatible
            &&& action(ConnParamsState::Compatible) == update(15_000, latency)
            &&& next(ConnParamsState::Compatible) == ConnParamsState::Settle
            &&& action(ConnParamsState::Settle) == ConnParamsAction::Pause(5)
            &&& next(ConnParamsState::Settle) == ConnParamsState::Fast
            &&& action(ConnParamsState::Fast) == update(7_500, latency)
            &&& watched ==> next(ConnParamsState::Fast) == ConnParamsState::AwaitSession
            &&& !watched ==> next(ConnParamsState::Fast) == ConnParamsState::Parked
            &&& action(ConnParamsState::AwaitSession) == ConnParamsAction::AwaitActivity
            &&& next(ConnParamsState::AwaitSession) == ConnParamsState::EnterSession
            &&& action(ConnParamsState::EnterSession) == update(7_500, 0)
            &&& next(ConnParamsState::EnterSession) == ConnParamsState::InSession
            &&& action(ConnParamsState::InSession) == ConnParamsAction::AwaitActivityFor(30)
            &&& active ==> next(ConnParamsState::InSession) == ConnParamsState::InSession
            &&& !active ==> next(ConnParamsState::InSession) == ConnParamsState::LeaveSession
            &&& action(ConnParamsState::LeaveSession) == update(7_500, latency)
            &&& next(ConnParamsState::LeaveSession) == ConnParamsState::AwaitSession
            &&& action(ConnParamsState::Parked) == ConnParamsAction::Park
            &&& next(ConnParamsState::Parked) == ConnParamsState::Parked
        }),
{
}

/// A host link is upgraded in up to three attempts, until both directions run on LE 2M or
/// the link is gone. What could not be read back is not verified.
pub proof fn law_phy_upgrades_are_verified(
    attempt: u8,
    tx_phy: PhyKind,
    rx_phy: PhyKind,
    connected: bool,
)
    requires
        attempt >= 1,
    ensures
        ({
            let both = tx_phy == PhyKind::Le2M && rx_phy == PhyKind::Le2M;
            let read = next_phy_attempt(attempt, Some((tx_phy, rx_phy)), connected);
            let unread = next_phy_attempt(attempt, None, connected);
            &&& phy_verdict(tx_phy, rx_phy, attempt) == HostPhyUpdateState::Verified <==> both
            &&& phy_verdict(tx_phy, rx_phy, attempt) == HostPhyUpdateState::Retry <==> !both && attempt < 3
            &&& phy_verdict(tx_phy, rx_phy, attempt) == HostPhyUpdateState::Exhausted <==> !both && attempt >= 3
            &&& read is Some <==> !both && connected && attempt < 3
            &&& unread is Some <==> connected && attempt < 3
            &&& read matches Some(next) ==> next == attempt + 1
            &&& unread matches Some(next) ==> next == attempt + 1
        }),
{
}

/// A controller that is busy is asked again, up to twelve times in all; an update that it
/// accepted is done, and any other outcome gives it up.
pub proof fn law_busy_controllers_are_asked_again(attempt: u8, status: u8, outcome: LinkOutcome)
    ensures
        is_busy(status) <==> status == 42 || status == 58,
        link_step(attempt, LinkOutcome::Accepted) == LinkStep::Done(true),
        outcome != LinkOutcome::Accepted ==> link_step(attempt, outcome) != LinkStep::Done(true),
        link_step(attempt, outcome) is Retry <==> {
            &&& outcome == LinkOutcome::Hci(42) || outcome == LinkOutcome::Hci(58)
            &&& attempt < 12
        },
        link_step(attempt, outcome) matches LinkStep::Retry(next) ==> next == attempt + 1,
{
}

} // verus!
