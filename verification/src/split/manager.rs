//! One split link: connecting, proving the product, and exchanging messages.

use vstd::prelude::*;

use crate::ble::advertise::HostError;
use crate::split::peers;
use crate::split::peers::{PeerAddress, PeerSet, PeerSlots};
use crate::split::power;
use crate::split::power::SplitActivity;

verus! {

/// Pause between two looks for a peripheral's address, and before a new attempt.
pub const RETRY_PAUSE_MS: u64 = 500;

/// Longest attempt to connect.
pub const CONNECT_TIMEOUT_SECS: u64 = 5;

/// Pause between the end of a scan and an attempt to connect.
pub const SCAN_STOP_PAUSE_MS: u64 = 100;

/// Scan interval and window of an attempt to connect, in microseconds.
pub const INITIATING_SCAN_INTERVAL: u64 = 62_500;

/// Time in which a peripheral has to name its product.
pub const PRODUCT_CHECK_TIMEOUT_MS: u64 = 1_500;

/// Time between two looks at a link.
pub const LINK_CHECK_SECS: u64 = 5;

/// Errors of a link.
#[derive(Clone, Copy, Debug, PartialEq, Eq, Structural)]
pub enum SplitDriverError {
    Disconnected,
    DeserializeError,
}

/// Messages that matter before and beyond their content.
#[derive(Clone, Copy, Debug, PartialEq, Eq, Structural)]
pub enum SplitMessageKind {
    ProductId(u16),
    Pointing,
    Key,
    Other,
}

/// What happened while a peripheral's product is checked.
#[derive(Clone, Copy, Debug, PartialEq, Eq, Structural)]
pub enum ProductCheckEvent {
    /// The own product id could not be sent.
    WriteFailed,
    Message(SplitMessageKind),
    ReadFailed,
    TimedOut,
}

/// Result of the product check, once it is known.
pub open spec fn check_result(event: ProductCheckEvent, product_id: u16) -> Option<bool> {
    match event {
        ProductCheckEvent::Message(SplitMessageKind::ProductId(id)) => Some(id == product_id),
        ProductCheckEvent::Message(_) => None,
        _ => Some(false),
    }
}

/// Result of the product check, once it is known. Messages before the peripheral's
/// product id are ignored.
pub fn validate_split_product(event: ProductCheckEvent, product_id: u16) -> (valid: Option<bool>)
    ensures
        valid == check_result(event, product_id),
{
    match event {
        ProductCheckEvent::Message(SplitMessageKind::ProductId(id)) => Some(id == product_id),
        ProductCheckEvent::Message(_) => None,
        _ => Some(false),
    }
}

/// How an attempt to use a peripheral ended.
#[derive(Clone, Copy, Debug, PartialEq, Eq, Structural)]
pub enum LinkOutcome {
    /// The connection failed or timed out.
    NotConnected,
    /// The link ended; tells whether the product was proved before.
    Ended { validated: bool },
}

/// A link is taken down: the peripheral counts as disconnected until it is proved again.
pub fn begin_connection(connected: &mut PeerSet, peri_id: usize)
    ensures
        forall|i: int|
            i >= 0 ==> #[trigger] final(connected).holds(i) == (old(connected).holds(i) && !peers::same_bit(
                peri_id as int,
                i,
            )),
{
    connected.publish_peripheral_connection(peri_id, false);
}

/// A peripheral proved its product: its address is kept and it counts as connected.
/// Returns the record to be saved.
pub fn peripheral_validated(
    candidates: &mut PeerSet,
    connected: &mut PeerSet,
    peri_id: usize,
    peer_address: [u8; 6],
) -> (record: Option<PeerAddress>)
    ensures
        record is Some <==> old(candidates).holds(peri_id as int),
        record matches Some(r) ==> r.peer_id == peri_id as u8 && r.is_valid && r.address == peer_address,
        forall|i: int|
            i >= 0 ==> #[trigger] final(candidates).holds(i) == (old(candidates).holds(i) && !peers::same_bit(
                peri_id as int,
                i,
            )),
        forall|i: int|
            i >= 0 ==> #[trigger] final(connected).holds(i) == (old(connected).holds(i) || peers::same_bit(
                peri_id as int,
                i,
            )),
{
    let record = peers::commit_peer_candidate(candidates, peri_id, peer_address);
    connected.publish_peripheral_connection(peri_id, true);
    record
}

/// An attempt ended. An address that did not lead to a proved peripheral is forgotten;
/// one that did is kept for the next attempt. Returns the record to be saved.
pub fn link_ended(slots: &mut PeerSlots, candidates: &mut PeerSet, peri_id: usize, outcome: LinkOutcome) -> (record:
    Option<PeerAddress>)
    ensures
        record is None <==> outcome == (LinkOutcome::Ended { validated: true }),
        record is None ==> final(slots)@ == old(slots)@ && *final(candidates) == *old(candidates),
        record matches Some(r) ==> {
            &&& r.peer_id == peri_id as u8
            &&& !r.is_valid
            &&& r.address@ == seq![0u8, 0, 0, 0, 0, 0]
            &&& final(slots)@ == (if peri_id < old(slots)@.len() {
                old(slots)@.update(peri_id as int, None)
            } else {
                old(slots)@
            })
            &&& forall|i: int|
                i >= 0 ==> #[trigger] final(candidates).holds(i) == (old(candidates).holds(i) && !peers::same_bit(
                    peri_id as int,
                    i,
                ))
        },
{
    match outcome {
        LinkOutcome::Ended { validated: true } => None,
        _ => Some(slots.forget_failed_peer(candidates, peri_id)),
    }
}

/// Where the link to a peripheral stands: the action whose outcome comes next.
#[derive(Clone, Copy, Debug)]
pub enum LinkState {
    /// Waiting for a scan to find the peripheral.
    AwaitAddress,
    /// Waiting for the radio.
    AwaitStack { addr: [u8; 6] },
    Connecting { addr: [u8; 6] },
    /// The link is up; `validated` tells whether the product was proved.
    Linked { addr: [u8; 6], validated: bool },
    /// Waiting before the next attempt.
    Pausing,
}

/// What the caller is to do next.
#[derive(Clone, Copy, Debug)]
pub enum LinkAction {
    /// Ask for a scan and pause for [`RETRY_PAUSE_MS`].
    RequestScan,
    AwaitStack,
    /// Connect to this address, for [`CONNECT_TIMEOUT_SECS`] at most.
    Connect([u8; 6]),
    /// Run the link until its product is proved or it ends.
    RunLink,
    /// Pause for [`RETRY_PAUSE_MS`].
    Pause,
}

/// Outcome of an action.
#[derive(Clone, Copy, Debug, PartialEq, Eq, Structural)]
pub enum LinkEvent {
    PauseElapsed,
    StackStarted,
    Connected,
    ConnectFailed,
    Validated,
    LinkEnded,
}

/// Next state and action, and the record that is to be saved.
#[derive(Clone, Copy, Debug)]
pub struct LinkTurn {
    pub state: LinkState,
    pub action: LinkAction,
    pub record: Option<PeerAddress>,
}

/// Whether an event can be the outcome of what a link asked for.
pub open spec fn link_expects(state: LinkState, event: LinkEvent) -> bool {
    match state {
        LinkState::AwaitAddress | LinkState::Pausing => event is PauseElapsed,
        LinkState::AwaitStack { .. } => event is StackStarted,
        LinkState::Connecting { .. } => event is Connected || event is ConnectFailed,
        LinkState::Linked { validated, .. } => event is LinkEnded || (event is Validated && !validated),
    }
}

/// How an attempt ended, if an event ends one.
pub open spec fn attempt_outcome(state: LinkState, event: LinkEvent) -> Option<LinkOutcome> {
    match (state, event) {
        (LinkState::Connecting { .. }, LinkEvent::ConnectFailed) => Some(LinkOutcome::NotConnected),
        (LinkState::Linked { validated, .. }, LinkEvent::LinkEnded) => Some(LinkOutcome::Ended { validated }),
        _ => None,
    }
}

/// Next state and action of a link. `known` is the address of the peripheral, if any.
pub open spec fn link_next(state: LinkState, event: LinkEvent, known: Option<[u8; 6]>) -> (LinkState, LinkAction) {
    match (state, event) {
        (LinkState::AwaitAddress, _) | (LinkState::Pausing, _) => match known {
            Some(addr) => (LinkState::AwaitStack { addr }, LinkAction::AwaitStack),
            None => (LinkState::AwaitAddress, LinkAction::RequestScan),
        },
        (LinkState::AwaitStack { addr }, _) => (LinkState::Connecting { addr }, LinkAction::Connect(addr)),
        (LinkState::Connecting { addr }, LinkEvent::Connected) => (
            LinkState::Linked { addr, validated: false },
            LinkAction::RunLink,
        ),
        (LinkState::Linked { addr, .. }, LinkEvent::Validated) => (
            LinkState::Linked { addr, validated: true },
            LinkAction::RunLink,
        ),
        _ => (LinkState::Pausing, LinkAction::Pause),
    }
}

/// Address that a peripheral is known by.
pub open spec fn known_address(slots: Seq<Option<[u8; 6]>>, peri_id: usize) -> Option<[u8; 6]> {
    if peri_id < slots.len() {
        slots[peri_id as int]
    } else {
        None
    }
}

/// Starts or restarts a link: with a known address it waits for the radio, without one
/// it asks for a scan.
pub fn look_up(slots: &PeerSlots, peri_id: usize) -> (next: (LinkState, LinkAction))
    ensures
        next == link_next(LinkState::Pausing, LinkEvent::PauseElapsed, known_address(slots@, peri_id)),
{
    match slots.address_of(peri_id) {
        Some(addr) => (LinkState::AwaitStack { addr }, LinkAction::AwaitStack),
        None => (LinkState::AwaitAddress, LinkAction::RequestScan),
    }
}

/// Whether a turn and what it leaves are what an event leads to.
pub open spec fn turn_result(
    state: LinkState,
    event: LinkEvent,
    slots: Seq<Option<[u8; 6]>>,
    candidates: PeerSet,
    connected: PeerSet,
    peri_id: usize,
    turn: LinkTurn,
    slots_after: Seq<Option<[u8; 6]>>,
    candidates_after: PeerSet,
    connected_after: PeerSet,
) -> bool {
    &&& (turn.state, turn.action) == link_next(state, event, known_address(slots, peri_id))
    &&& match attempt_outcome(state, event) {
        Some(outcome) => {
            &&& turn.record is None <==> outcome == (LinkOutcome::Ended { validated: true })
            &&& turn.record matches Some(r) ==> r.peer_id == peri_id as u8 && !r.is_valid && r.address@ == seq![
                0u8,
                0,
                0,
                0,
                0,
                0,
            ]
            &&& slots_after == (if turn.record is Some && peri_id < slots.len() {
                slots.update(peri_id as int, None)
            } else {
                slots
            })
            &&& forall|i: int|
                i >= 0 ==> #[trigger] candidates_after.holds(i) == (candidates.holds(i) && !(turn.record is Some
                    && peers::same_bit(peri_id as int, i)))
        },
        None => {
            &&& slots_after == slots
            &&& event is Validated ==> {
                &&& turn.record is Some <==> candidates.holds(peri_id as int)
                &&& turn.record matches Some(r) ==> r.peer_id == peri_id as u8 && r.is_valid && r.address
                    == state->Linked_addr
            }
            &&& !(event is Validated) ==> turn.record is None
            &&& forall|i: int|
                i >= 0 ==> #[trigger] candidates_after.holds(i) == (candidates.holds(i) && !(event is Validated
                    && peers::same_bit(peri_id as int, i)))
        },
    }
    &&& turn.record matches Some(r) ==> (r.is_valid ==> event is Validated)
    &&& forall|i: int|
        i >= 0 ==> #[trigger] connected_after.holds(i) == (if !peers::same_bit(peri_id as int, i) {
            connected.holds(i)
        } else if event is StackStarted {
            false
        } else if event is Validated {
            true
        } else {
            connected.holds(i)
        })
}

/// Goes on with the link to a peripheral. The peripheral counts as disconnected from
/// each attempt to connect on, and as connected once it proved its product.
pub fn link_turn(
    state: LinkState,
    event: LinkEvent,
    slots: &mut PeerSlots,
    candidates: &mut PeerSet,
    connected: &mut PeerSet,
    peri_id: usize,
) -> (turn: LinkTurn)
    requires
        link_expects(state, event),
    ensures
        turn_result(
            state,
            event,
            old(slots)@,
            *old(candidates),
            *old(connected),
            peri_id,
            turn,
            final(slots)@,
            *final(candidates),
            *final(connected),
        ),
{
    match (state, event) {
        (LinkState::AwaitAddress, _) | (LinkState::Pausing, _) => {
            let (state, action) = look_up(slots, peri_id);
            LinkTurn { state, action, record: None }
        },
        (LinkState::AwaitStack { addr }, _) => {
            begin_connection(connected, peri_id);
            LinkTurn { state: LinkState::Connecting { addr }, action: LinkAction::Connect(addr), record: None }
        },
        (LinkState::Connecting { addr }, LinkEvent::Connected) => LinkTurn {
            state: LinkState::Linked { addr, validated: false },
            action: LinkAction::RunLink,
            record: None,
        },
        (LinkState::Linked { addr, .. }, LinkEvent::Validated) => {
            let record = peripheral_validated(candidates, connected, peri_id, addr);
            LinkTurn { state: LinkState::Linked { addr, validated: true }, action: LinkAction::RunLink, record }
        },
        (LinkState::Linked { validated, .. }, _) => {
            let record = link_ended(slots, candidates, peri_id, LinkOutcome::Ended { validated });
            LinkTurn { state: LinkState::Pausing, action: LinkAction::Pause, record }
        },
        (LinkState::Connecting { .. }, _) => {
            let record = link_ended(slots, candidates, peri_id, LinkOutcome::NotConnected);
            LinkTurn { state: LinkState::Pausing, action: LinkAction::Pause, record }
        },
    }
}

/// Whether a message counts as activity, and the activity after it.
pub open spec fn message_noted(activity: SplitActivity, message: SplitMessageKind, now_ms: u32) -> (
    bool,
    SplitActivity,
) {
    match message {
        SplitMessageKind::Pointing => (true, power::motion_noted(activity, now_ms)),
        SplitMessageKind::Key => (true, power::key_noted(activity, now_ms)),
        _ => (false, activity),
    }
}

/// A message came in from a peripheral; keys and motion count as activity. Tells whether
/// the message counts, and so whether activity is to be reported.
pub fn note_message(activity: &mut SplitActivity, message: SplitMessageKind, now_ms: u32) -> (counts: bool)
    ensures
        (counts, *final(activity)) == message_noted(*old(activity), message, now_ms),
{
    match message {
        SplitMessageKind::Pointing => {
            activity.update_pointing_activity_time(now_ms);
            true
        },
        SplitMessageKind::Key => {
            activity.update_activity_time(now_ms);
            true
        },
        _ => false,
    }
}

/// Result of sending a message of the full size `max_size`.
pub open spec fn sent_result(failure: Option<HostError>, max_size: usize) -> Result<usize, SplitDriverError> {
    if failure == Some(HostError::NotFound) {
        Err(SplitDriverError::Disconnected)
    } else {
        Ok(max_size)
    }
}

/// Result of sending a message of the full size `max_size`. `failure` is the error of
/// the radio, if there was one. Only a peripheral that is gone is reported; anything
/// else is logged and forgotten.
pub fn write_result(failure: Option<HostError>, max_size: usize) -> (result: Result<usize, SplitDriverError>)
    ensures
        result == sent_result(failure, max_size),
{
    match failure {
        Some(HostError::NotFound) => Err(SplitDriverError::Disconnected),
        _ => Ok(max_size),
    }
}

/// A stale address cannot trap the central: an attempt that ended before the product was
/// proved is followed by a scan, and one that ended after it by another attempt at the
/// same address.
pub proof fn law_stale_addresses_are_left(
    state: LinkState,
    event: LinkEvent,
    slots: Seq<Option<[u8; 6]>>,
    after: Seq<Option<[u8; 6]>>,
    peri_id: usize,
)
    requires
        link_expects(state, event),
        peri_id < slots.len(),
        attempt_outcome(state, event) is Some,
        after == (if attempt_outcome(state, event) != Some(LinkOutcome::Ended { validated: true }) {
            slots.update(peri_id as int, None)
        } else {
            slots
        }),
    ensures
        ({
            let (paused, _) = link_next(state, event, known_address(slots, peri_id));
            let (_, next) = link_next(paused, LinkEvent::PauseElapsed, known_address(after, peri_id));
            &&& paused == LinkState::Pausing
            &&& attempt_outcome(state, event) != Some(LinkOutcome::Ended { validated: true }) ==> next
                == LinkAction::RequestScan
            &&& attempt_outcome(state, event) == Some(LinkOutcome::Ended { validated: true }) && slots[peri_id as int]
                is Some ==> next == LinkAction::AwaitStack
        }),
{
}

/// Results of a sequence of product checks: the first event with a result decides.
pub open spec fn product_verdict(events: Seq<ProductCheckEvent>, product_id: u16) -> Option<bool>
    decreases events.len(),
{
    if events.len() == 0 {
        None
    } else {
        match check_result(events.first(), product_id) {
            Some(valid) => Some(valid),
            None => product_verdict(events.drop_first(), product_id),
        }
    }
}

/// A peripheral is accepted only after it named the product of the central.
pub proof fn law_only_own_products_are_accepted(events: Seq<ProductCheckEvent>, product_id: u16)
    requires
        product_verdict(events, product_id) == Some(true),
    ensures
        events.contains(ProductCheckEvent::Message(SplitMessageKind::ProductId(product_id))),
    decreases events.len(),
{
    let wanted = ProductCheckEvent::Message(SplitMessageKind::ProductId(product_id));
    if events.first() == wanted {
        assert(events[0] == wanted);
    } else {
        let rest = events.drop_first();
        law_only_own_products_are_accepted(rest, product_id);
        let i = choose|i: int| 0 <= i < rest.len() && rest[i] == wanted;
        assert(events[i + 1] == wanted);
    }
}

/// A peripheral is accepted by a message that names the own product and by nothing else;
/// one that names another product, a failure and the end of the time refuse it; any other
/// message decides nothing.
pub proof fn law_products_decide(event: ProductCheckEvent, product_id: u16, id: u16)
    ensures
        check_result(event, product_id) == Some(true) <==> event == ProductCheckEvent::Message(
            SplitMessageKind::ProductId(product_id),
        ),
        id != product_id ==> check_result(
            ProductCheckEvent::Message(SplitMessageKind::ProductId(id)),
            product_id,
        ) == Some(false),
        check_result(event, product_id) is None <==> {
            ||| event == ProductCheckEvent::Message(SplitMessageKind::Pointing)
            ||| event == ProductCheckEvent::Message(SplitMessageKind::Key)
            ||| event == ProductCheckEvent::Message(SplitMessageKind::Other)
        },
{
}

/// A link takes its course: a known address is waited for and connected to, an unknown
/// one is scanned for; a connection is run, goes on when the product is proved, and is
/// followed by a pause when it fails or ends.
pub proof fn law_links_take_their_course(state: LinkState, event: LinkEvent, known: Option<[u8; 6]>)
    requires
        link_expects(state, event),
    ensures
        ({
            let (next, action) = link_next(state, event, known);
            &&& state is AwaitAddress || state is Pausing ==> {
                &&& known matches Some(addr) ==> next == (LinkState::AwaitStack { addr }) && action is AwaitStack
                &&& known is None ==> next is AwaitAddress && action is RequestScan
            }
            &&& state matches LinkState::AwaitStack { addr } ==> next == (LinkState::Connecting { addr }) && action
                == LinkAction::Connect(addr)
            &&& state matches LinkState::Connecting { addr } ==> if event is Connected {
                next == (LinkState::Linked { addr, validated: false }) && action is RunLink
            } else {
                next is Pausing && action is Pause
            }
            &&& state matches LinkState::Linked { addr, validated } ==> if event is Validated {
                next == (LinkState::Linked { addr, validated: true }) && action is RunLink
            } else {
                next is Pausing && action is Pause
            }
        }),
{
}

/// A peripheral counts as disconnected from each attempt on, and as connected once its
/// product is proved; then its address is saved if it was on trial. An attempt that ends
/// before that forgets the address, one that ends after it keeps it. No other peripheral
/// is touched.
pub proof fn law_links_keep_the_books(
    state: LinkState,
    event: LinkEvent,
    slots: Seq<Option<[u8; 6]>>,
    candidates: PeerSet,
    connected: PeerSet,
    peri_id: usize,
    turn: LinkTurn,
    slots_after: Seq<Option<[u8; 6]>>,
    candidates_after: PeerSet,
    connected_after: PeerSet,
    other: int,
)
    requires
        link_expects(state, event),
        turn_result(
            state,
            event,
            slots,
            candidates,
            connected,
            peri_id,
            turn,
            slots_after,
            candidates_after,
            connected_after,
        ),
        0 <= other < 31,
        other != peri_id,
    ensures
        ({
            let id = peri_id as int;
            let failed = event is ConnectFailed || (event is LinkEnded && !state->validated);
            let address = if peri_id < slots.len() {
                slots[id]
            } else {
                None
            };
            &&& connected_after.holds(other) == connected.holds(other)
            &&& candidates_after.holds(other) == candidates.holds(other)
            &&& slots_after.len() == slots.len()
            &&& other < slots.len() ==> slots_after[other] == slots[other]
            &&& event is StackStarted ==> !connected_after.holds(id)
            &&& event is Validated ==> connected_after.holds(id) && !candidates_after.holds(id)
            &&& !(event is StackStarted) && !(event is Validated) ==> connected_after.holds(id) == connected.holds(id)
            &&& event is Validated && candidates.holds(id) ==> {
                &&& turn.record matches Some(r)
                &&& r.is_valid
                &&& r.address == state->Linked_addr
                &&& peri_id < 256 ==> r.peer_id == peri_id
            }
            &&& failed ==> {
                &&& turn.record matches Some(r)
                &&& !r.is_valid
                &&& forall|k: int| 0 <= k < 6 ==> r.address@[k] == 0
                &&& peri_id < 256 ==> r.peer_id == peri_id
            }
            &&& failed ==> !candidates_after.holds(id)
            &&& failed && peri_id < slots.len() ==> slots_after[id] is None
            &&& !failed ==> slots_after == slots
            &&& !failed && !(event is Validated) ==> turn.record is None && candidates_after.holds(id)
                == candidates.holds(id)
            &&& event is PauseElapsed ==> (turn.action is RequestScan <==> address is None)
        }),
{
}

/// Keys and motion from a peripheral count as activity at the time they come, motion also
/// as motion; any other message does not count and changes nothing.
pub proof fn law_messages_are_activity(activity: SplitActivity, message: SplitMessageKind, now_ms: u32)
    ensures
        ({
            let (counts, after) = message_noted(activity, message, now_ms);
            &&& counts <==> message == SplitMessageKind::Key || message == SplitMessageKind::Pointing
            &&& counts ==> after.last_activity_ms == now_ms && !after.sleep_requested
            &&& !counts ==> after == activity
            &&& after.last_pointing_activity_ms == (if message == SplitMessageKind::Pointing {
                now_ms
            } else {
                activity.last_pointing_activity_ms
            })
        }),
{
}

/// Only a peripheral that is gone makes sending fail; otherwise the whole message counts
/// as sent.
pub proof fn law_sending_fails_with_the_peripheral(failure: Option<HostError>, max_size: usize)
    ensures
        sent_result(failure, max_size) is Err <==> failure == Some(HostError::NotFound),
        sent_result(failure, max_size) matches Err(error) ==> error == SplitDriverError::Disconnected,
        sent_result(failure, max_size) matches Ok(size) ==> size == max_size,
{
}

/// Whatever comes of what a link asks for, it can go on.
pub proof fn law_every_outcome_is_taken(state: LinkState, event: LinkEvent, known: Option<[u8; 6]>)
    requires
        link_expects(state, event),
    ensures
        ({
            let (next, action) = link_next(state, event, known);
            &&& action is RequestScan || action is Pause ==> link_expects(next, LinkEvent::PauseElapsed)
            &&& action is AwaitStack ==> link_expects(next, LinkEvent::StackStarted)
            &&& action is Connect ==> link_expects(next, LinkEvent::Connected) && link_expects(
                next,
                LinkEvent::ConnectFailed,
            )
            &&& action is RunLink ==> link_expects(next, LinkEvent::LinkEnded)
            &&& action is RunLink && !(event is Validated) ==> link_expects(next, LinkEvent::Validated)
        }),
        link_expects(LinkState::Pausing, LinkEvent::PauseElapsed),
        link_expects(LinkState::AwaitAddress, LinkEvent::PauseElapsed),
{
}

} // verus!
