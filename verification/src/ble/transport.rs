//! The BLE transport: what it tells hosts about the device, and the loop that
//! advertises, serves one host at a time and sleeps in between.

use vstd::prelude::*;

use crate::ble::advertise::HostError;
use crate::state::BleState;

verus! {

/// Pause after advertising failed.
pub const ADVERTISE_ERROR_PAUSE_MS: u64 = 200;

/// Pause before advertising, in which the USB port is looked at.
pub const ADVERTISE_DELAY_MS: u64 = 10;

/// Pause after the BLE stack's runner failed.
pub const RUNNER_ERROR_PAUSE_MS: u64 = 100;

/// Text whose capacity in bytes was fixed when it was made.
#[verifier::external_body]
pub struct DeviceText {
    text: Box<heapless::string::StringView>,
}

/// Characters that a text holds.
pub uninterp spec fn device_text(text: DeviceText) -> Seq<char>;

/// Capacity in bytes that a text was made with.
pub uninterp spec fn text_capacity(text: DeviceText) -> nat;

/// Calls `String::new` of heapless for a text of capacity `N`: a text without
/// characters.
#[verifier::external_body]
fn text_new<const N: usize>() -> (text: DeviceText)
    ensures
        device_text(text) == Seq::<char>::empty(),
        text_capacity(text) == N,
{
    DeviceText { text: Box::new(heapless::String::<N>::new()) }
}

/// Calls `String::push` of heapless: appends a character, or refuses it and leaves the
/// text as it is when its UTF-8 bytes do not fit into the capacity, which stays.
#[verifier::external_body]
fn text_push(text: &mut DeviceText, c: char) -> (pushed: bool)
    ensures
        pushed == (vstd::utf8::encode_utf8(device_text(*old(text)).push(c)).len() <= text_capacity(*old(text))),
        text_capacity(*final(text)) == text_capacity(*old(text)),
        device_text(*final(text)) == (if pushed {
            device_text(*old(text)).push(c)
        } else {
            device_text(*old(text))
        }),
{
    text.text.push(c).is_ok()
}

/// Calls `String::try_from` of heapless for a text of capacity `N`: the same text, or
/// nothing when its UTF-8 bytes do not fit.
#[verifier::external_body]
fn text_try_from<const N: usize>(s: &str) -> (text: Option<DeviceText>)
    ensures
        text is Some == (vstd::utf8::encode_utf8(s@).len() <= N),
        text matches Some(t) ==> device_text(t) == s@ && text_capacity(t) == N,
{
    heapless::String::<N>::try_from(s).ok().map(|text| DeviceText { text: Box::new(text) })
}

/// Calls `String::as_str` of heapless: the text as a string slice.
#[verifier::external_body]
fn text_as_str(text: &DeviceText) -> (s: &str)
    ensures
        s@ == device_text(*text),
{
    text.text.as_str()
}

/// Whether `text` is the longest beginning of `s` that fits into `capacity` bytes.
pub open spec fn is_trim_of(text: Seq<char>, s: Seq<char>, capacity: nat) -> bool {
    &&& text.len() <= s.len()
    &&& text == s.take(text.len() as int)
    &&& vstd::utf8::encode_utf8(text).len() <= capacity
    &&& forall|n: int|
        text.len() < n <= s.len() ==> vstd::utf8::encode_utf8(#[trigger] s.take(n)).len() > capacity
}

/// Bytes of two texts one after the other.
proof fn lemma_encode_concat(a: Seq<char>, b: Seq<char>)
    ensures
        vstd::utf8::encode_utf8(a + b) == vstd::utf8::encode_utf8(a) + vstd::utf8::encode_utf8(b),
    decreases a.len(),
{
    if a.len() == 0 {
        assert(a + b =~= b);
        assert(vstd::utf8::encode_utf8(a) =~= Seq::<u8>::empty());
        assert(vstd::utf8::encode_utf8(a) + vstd::utf8::encode_utf8(b) =~= vstd::utf8::encode_utf8(b));
    } else {
        lemma_encode_concat(a.drop_first(), b);
        assert((a + b).drop_first() =~= a.drop_first() + b);
        assert((a + b)[0] == a[0]);
        assert(vstd::utf8::encode_utf8(a + b) =~= vstd::utf8::encode_utf8(a) + vstd::utf8::encode_utf8(b));
    }
}

/// A longer beginning has at least as many bytes.
proof fn lemma_bytes_grow(s: Seq<char>, n: int, m: int)
    requires
        0 <= n <= m <= s.len(),
    ensures
        vstd::utf8::encode_utf8(s.take(n)).len() <= vstd::utf8::encode_utf8(s.take(m)).len(),
{
    assert(s.take(m) =~= s.take(n) + s.subrange(n, m));
    lemma_encode_concat(s.take(n), s.subrange(n, m));
}

impl DeviceText {
    /// Characters of the text.
    pub open spec fn view(&self) -> Seq<char> {
        device_text(*self)
    }

    /// Takes as much of a text as fits into `N` bytes, cutting between characters.
    pub fn trimmed<const N: usize>(s: &str) -> (text: DeviceText)
        ensures
            is_trim_of(text@, s@, N as nat),
            text_capacity(text) == N,
    {
        let mut text = text_new::<N>();
        let mut full = false;
        for c in it: s.chars()
            invariant
                it.seq() == s@,
                text_capacity(text) == N,
                text@.len() <= it.index(),
                !full ==> text@.len() == it.index(),
                text@ == s@.take(text@.len() as int),
                vstd::utf8::encode_utf8(text@).len() <= N,
                full ==> text@.len() < s@.len() && vstd::utf8::encode_utf8(s@.take(text@.len() as int + 1)).len()
                    > N,
        {
            if !full {
                proof {
                    assert(s@.take(text@.len() as int + 1) =~= text@.push(c));
                }
                if !text_push(&mut text, c) {
                    full = true;
                }
            }
        }
        proof {
            assert forall|n: int| text@.len() < n <= s@.len() implies vstd::utf8::encode_utf8(
                #[trigger] s@.take(n),
            ).len() > N by {
                lemma_bytes_grow(s@, text@.len() as int + 1, n);
            }
        }
        text
    }

    /// Takes a text that fits into `N` bytes.
    pub fn try_from_str<const N: usize>(s: &str) -> (text: Option<DeviceText>)
        ensures
            text is Some <==> vstd::utf8::encode_utf8(s@).len() <= N,
            text matches Some(t) ==> t@ == s@ && text_capacity(t) == N,
    {
        text_try_from::<N>(s)
    }

    /// The text as a string slice.
    pub fn as_str(&self) -> (s: &str)
        ensures
            s@ == self@,
    {
        text_as_str(self)
    }
}

/// Who assigned a vendor id.
#[derive(Clone, Copy, Debug, PartialEq, Eq, Structural)]
pub enum VidSource {
    BluetoothSig,
    UsbIF,
}

/// Plug-and-play id of the device.
#[derive(Clone, Copy, Debug, PartialEq, Eq, Structural)]
pub struct PnPID {
    pub vid_source: VidSource,
    pub vendor_id: u16,
    pub product_id: u16,
    pub product_version: u16,
}

/// Description of the device in its configuration.
#[derive(Clone, Copy, Debug)]
pub struct DeviceConfig<'a> {
    pub vid: u16,
    pub pid: u16,
    pub manufacturer: &'a str,
    pub product_name: &'a str,
    pub serial_number: &'a str,
}

/// What the transport tells hosts about the device.
pub struct BleTransport<'a> {
    pub product_name: &'a str,
    pub pnp_id: PnPID,
    pub serial_number: DeviceText,
    pub manufacturer_name: DeviceText,
}

/// Whether a transport tells hosts what the configuration says, with a serial number of
/// at most `capacity` bytes.
pub open spec fn describes(this: BleTransport, config: DeviceConfig, capacity: nat) -> bool {
    &&& this.product_name == config.product_name
    &&& this.pnp_id == (PnPID {
        vid_source: VidSource::UsbIF,
        vendor_id: config.vid,
        product_id: config.pid,
        product_version: 1,
    })
    &&& is_trim_of(this.serial_number@, config.serial_number@, capacity)
    &&& this.manufacturer_name@ == config.manufacturer@
}

impl<'a> BleTransport<'a> {
    /// Describes the device. A serial number of more than `S` bytes is cut; a
    /// manufacturer of more than `M` bytes is no input.
    pub fn new<const S: usize, const M: usize>(config: DeviceConfig<'a>) -> (this: Self)
        requires
            vstd::utf8::encode_utf8(config.manufacturer@).len() <= M,
        ensures
            describes(this, config, S as nat),
    {
        let serial_number = DeviceText::trimmed::<S>(config.serial_number);
        let manufacturer_name = DeviceText::try_from_str::<M>(config.manufacturer).unwrap();
        BleTransport {
            product_name: config.product_name,
            pnp_id: PnPID {
                vid_source: VidSource::UsbIF,
                vendor_id: config.vid,
                product_id: config.pid,
                product_version: 0x0001,
            },
            serial_number,
            manufacturer_name,
        }
    }
}

/// What the transport is waiting for.
#[derive(Clone, Copy, Debug, PartialEq, Eq, Structural)]
pub enum TransportState {
    /// Until the split halves leave the radio to the host.
    AwaitSplitWindow,
    Advertising,
    /// A host is connected.
    Serving,
    /// The host is being disconnected because another profile was chosen.
    Disconnecting,
    /// No host answered: until a key or a pointing device is used.
    Asleep,
    /// After an error, for [`ADVERTISE_ERROR_PAUSE_MS`].
    Paused,
}

/// What ended the wait.
#[derive(Clone, Copy, Debug, PartialEq, Eq, Structural)]
pub enum TransportEvent {
    SplitWindowOpen,
    /// Another profile was chosen; tells whether a host is still connected.
    ProfileUpdated { connected: bool },
    Connected,
    AdvertisingFailed(HostError),
    /// Serving the host ended.
    Ended,
    Disconnected,
    KeyActivity,
    PointingActivity,
    PauseElapsed,
}

/// What the transport does before the next wait, in this order.
#[derive(Clone, Copy, Debug, PartialEq, Eq, Structural)]
pub struct TransportStep {
    pub state: TransportState,
    /// Wake whatever sleeps.
    pub report_activity: bool,
    pub set_inactive: bool,
    /// Let the keyboard sleep.
    pub request_sleep: bool,
}

/// Whether an event can end a wait.
pub open spec fn awaited(state: TransportState, event: TransportEvent) -> bool {
    match state {
        TransportState::AwaitSplitWindow => event is SplitWindowOpen || event is ProfileUpdated,
        TransportState::Advertising => event is Connected || event is AdvertisingFailed || event is ProfileUpdated,
        TransportState::Serving => event is Ended || event is ProfileUpdated,
        TransportState::Disconnecting => event is Disconnected,
        TransportState::Asleep => event is KeyActivity || event is PointingActivity,
        TransportState::Paused => event is PauseElapsed,
    }
}

/// First wait of a round.
pub open spec fn round_start(split: bool) -> TransportState {
    if split {
        TransportState::AwaitSplitWindow
    } else {
        TransportState::Advertising
    }
}

/// A wait without side effects.
pub open spec fn just(state: TransportState) -> TransportStep {
    TransportStep { state, report_activity: false, set_inactive: false, request_sleep: false }
}

/// End of a round: the transport is inactive, unless it never left advertising.
pub open spec fn round_end(split: bool, ble_state: BleState, report_activity: bool) -> TransportStep {
    TransportStep {
        state: round_start(split),
        report_activity,
        set_inactive: ble_state != BleState::Advertising,
        request_sleep: false,
    }
}

/// Next wait. `ble_state` is the state of the transport as the last wait ends,
/// `other_transport` tells whether a host is reached in another way.
pub open spec fn transport_step(
    state: TransportState,
    event: TransportEvent,
    split: bool,
    ble_state: BleState,
    other_transport: bool,
) -> TransportStep {
    match state {
        TransportState::AwaitSplitWindow => if event is SplitWindowOpen {
            just(TransportState::Advertising)
        } else {
            just(round_start(split))
        },
        TransportState::Advertising => match event {
            TransportEvent::Connected => just(TransportState::Serving),
            TransportEvent::AdvertisingFailed(HostError::Timeout) => if other_transport {
                TransportStep {
                    state: round_start(split),
                    report_activity: false,
                    set_inactive: true,
                    request_sleep: false,
                }
            } else {
                TransportStep {
                    state: TransportState::Asleep,
                    report_activity: false,
                    set_inactive: true,
                    request_sleep: true,
                }
            },
            TransportEvent::AdvertisingFailed(_) => just(TransportState::Paused),
            _ => round_end(split, ble_state, false),
        },
        TransportState::Serving => if event matches TransportEvent::ProfileUpdated { connected } && connected {
            just(TransportState::Disconnecting)
        } else {
            round_end(split, ble_state, false)
        },
        TransportState::Disconnecting => round_end(split, ble_state, false),
        TransportState::Asleep => round_end(split, ble_state, true),
        TransportState::Paused => round_end(split, ble_state, false),
    }
}

/// End of a round.
fn end_round(split: bool, ble_state: BleState, report_activity: bool) -> (step: TransportStep)
    ensures
        step == round_end(split, ble_state, report_activity),
{
    TransportStep {
        state: TransportState::start(split),
        report_activity,
        set_inactive: ble_state != BleState::Advertising,
        request_sleep: false,
    }
}

/// A wait without side effects.
fn only(state: TransportState) -> (step: TransportStep)
    ensures
        step == just(state),
{
    TransportStep { state, report_activity: false, set_inactive: false, request_sleep: false }
}

impl TransportState {
    /// First wait of a round: a keyboard with split halves gives them the radio first.
    pub fn start(split: bool) -> (state: TransportState)
        ensures
            state == round_start(split),
    {
        if split {
            TransportState::AwaitSplitWindow
        } else {
            TransportState::Advertising
        }
    }

    /// Next wait. `ble_state` is the state of the transport as this wait ends,
    /// `other_transport` tells whether a host is reached in another way.
    pub fn step(self, event: TransportEvent, split: bool, ble_state: BleState, other_transport: bool) -> (step:
        TransportStep)
        requires
            awaited(self, event),
        ensures
            step == transport_step(self, event, split, ble_state, other_transport),
    {
        match self {
            TransportState::AwaitSplitWindow => match event {
                TransportEvent::SplitWindowOpen => only(TransportState::Advertising),
                _ => only(TransportState::start(split)),
            },
            TransportState::Advertising => match event {
                TransportEvent::Connected => only(TransportState::Serving),
                TransportEvent::AdvertisingFailed(HostError::Timeout) => {
                    if other_transport {
                        TransportStep {
                            state: TransportState::start(split),
                            report_activity: false,
                            set_inactive: true,
                            request_sleep: false,
                        }
                    } else {
                        TransportStep {
                            state: TransportState::Asleep,
                            report_activity: false,
                            set_inactive: true,
                            request_sleep: true,
                        }
                    }
                },
                TransportEvent::AdvertisingFailed(_) => only(TransportState::Paused),
                _ => end_round(split, ble_state, false),
            },
            TransportState::Serving => match event {
                TransportEvent::ProfileUpdated { connected: true } => only(TransportState::Disconnecting),
                _ => end_round(split, ble_state, false),
            },
            TransportState::Disconnecting => end_round(split, ble_state, false),
            TransportState::Asleep => end_round(split, ble_state, true),
            TransportState::Paused => end_round(split, ble_state, false),
        }
    }
}

/// A keyboard that reaches a host in another way is never put to sleep, and only an
/// unanswered advertisement puts it to sleep at all.
pub proof fn law_sleep_needs_silence(
    state: TransportState,
    event: TransportEvent,
    split: bool,
    ble_state: BleState,
    other_transport: bool,
)
    ensures
        transport_step(state, event, split, ble_state, other_transport).request_sleep <==> state
            == TransportState::Advertising && event == TransportEvent::AdvertisingFailed(HostError::Timeout)
            && !other_transport,
{
}

/// Keys and pointing devices alike end the sleep that follows an unanswered
/// advertisement, and are reported as activity.
pub proof fn law_any_input_wakes(event: TransportEvent, split: bool, ble_state: BleState, other_transport: bool)
    ensures
        awaited(TransportState::Asleep, event) <==> event is KeyActivity || event is PointingActivity,
        ({
            let step = transport_step(TransportState::Asleep, event, split, ble_state, other_transport);
            step.report_activity && step.state == round_start(split)
        }),
{
}

/// A new round never starts with the transport still marked as connected.
pub proof fn law_rounds_start_disconnected(
    state: TransportState,
    event: TransportEvent,
    split: bool,
    other_transport: bool,
)
    requires
        state is Serving || state is Disconnecting,
        awaited(state, event),
    ensures
        ({
            let step = transport_step(state, event, split, BleState::Connected, other_transport);
            step.state == round_start(split) ==> step.set_inactive
        }),
{
}

/// A host reads the names and numbers of the configuration, under ids that the USB
/// implementers' forum assigned; a serial number that fits is told in full, and another
/// one from its beginning, with no character that would still fit left out.
pub proof fn law_hosts_read_the_configuration(this: BleTransport, config: DeviceConfig, capacity: nat)
    requires
        describes(this, config, capacity),
    ensures
        this.product_name@ == config.product_name@,
        this.manufacturer_name@ == config.manufacturer@,
        this.pnp_id.vendor_id == config.vid,
        this.pnp_id.product_id == config.pid,
        this.pnp_id.vid_source == VidSource::UsbIF,
        vstd::utf8::encode_utf8(config.serial_number@).len() <= capacity ==> this.serial_number@
            == config.serial_number@,
        this.serial_number@.is_prefix_of(config.serial_number@),
        vstd::utf8::encode_utf8(this.serial_number@).len() <= capacity,
        this.serial_number@.len() < config.serial_number@.len() ==> vstd::utf8::encode_utf8(
            config.serial_number@.take(this.serial_number@.len() as int + 1),
        ).len() > capacity,
{
    let told = this.serial_number@;
    let all = config.serial_number@;
    assert(all.take(all.len() as int) =~= all);
    assert(told =~= all.subrange(0, told.len() as int));
}

/// The transport takes its course: split halves are waited for, a host is advertised to
/// and served; another profile ends a round, after the host was disconnected; an error
/// pauses; silence ends in sleep, unless a host is reached in another way; and any input
/// ends the sleep. A round that ends leaves the transport inactive, unless it is still
/// advertising.
pub proof fn law_transports_take_their_course(
    state: TransportState,
    event: TransportEvent,
    split: bool,
    ble_state: BleState,
    other_transport: bool,
)
    requires
        awaited(state, event),
    ensures
        ({
            let step = transport_step(state, event, split, ble_state, other_transport);
            let start = if split {
                TransportState::AwaitSplitWindow
            } else {
                TransportState::Advertising
            };
            let silent = state == TransportState::Advertising && event == TransportEvent::AdvertisingFailed(
                HostError::Timeout,
            );
            let goes_on = |next: TransportState|
                step.state == next && !step.set_inactive && !step.request_sleep && !step.report_activity;
            let ends = step.state == start && !step.request_sleep && (step.set_inactive <==> ble_state
                == BleState::Connected || ble_state == BleState::Inactive);
            &&& state is AwaitSplitWindow && event is SplitWindowOpen ==> goes_on(TransportState::Advertising)
            &&& state is AwaitSplitWindow && event is ProfileUpdated ==> goes_on(start)
            &&& state is Advertising && event is Connected ==> goes_on(TransportState::Serving)
            &&& state is Advertising && event is AdvertisingFailed && !silent ==> goes_on(TransportState::Paused)
            &&& silent && other_transport ==> step.state == start && step.set_inactive && !step.request_sleep
            &&& silent && !other_transport ==> step.state == TransportState::Asleep && step.set_inactive
                && step.request_sleep
            &&& state is Advertising && event is ProfileUpdated ==> ends
            &&& state is Serving && event == (TransportEvent::ProfileUpdated { connected: true }) ==> goes_on(
                TransportState::Disconnecting,
            )
            &&& state is Serving && event != (TransportEvent::ProfileUpdated { connected: true }) ==> ends
            &&& state is Disconnecting || state is Asleep || state is Paused ==> ends
            &&& step.report_activity <==> state is Asleep
        }),
        round_start(true) == TransportState::AwaitSplitWindow,
        round_start(false) == TransportState::Advertising,
{
}

/// Each wait ends with what it is for: another profile ends every wait for a host or the
/// halves, and sleep ends with any input.
pub proof fn law_waits_end_with_what_they_are_for(error: HostError, connected: bool)
    ensures
        awaited(TransportState::AwaitSplitWindow, TransportEvent::SplitWindowOpen),
        awaited(TransportState::AwaitSplitWindow, TransportEvent::ProfileUpdated { connected }),
        awaited(TransportState::Advertising, TransportEvent::Connected),
        awaited(TransportState::Advertising, TransportEvent::AdvertisingFailed(error)),
        awaited(TransportState::Advertising, TransportEvent::ProfileUpdated { connected }),
        awaited(TransportState::Serving, TransportEvent::Ended),
        awaited(TransportState::Serving, TransportEvent::ProfileUpdated { connected }),
        awaited(TransportState::Disconnecting, TransportEvent::Disconnected),
        awaited(TransportState::Asleep, TransportEvent::KeyActivity),
        awaited(TransportState::Asleep, TransportEvent::PointingActivity),
        awaited(TransportState::Paused, TransportEvent::PauseElapsed),
{
}

} // verus!
