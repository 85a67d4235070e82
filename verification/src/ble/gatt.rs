//! Requests and events of a host on a GATT connection.

use vstd::prelude::*;

verus! {

/// ATT error: the attribute may only be used on an encrypted link.
pub const INSUFFICIENT_ENCRYPTION: u8 = 0x0f;

/// Size of a packet of the configuration host.
pub const HOST_PACKET_SIZE: usize = 32;

/// Handles of the characteristics that a configuration host uses.
#[derive(Clone, Copy, Debug, PartialEq, Eq, Structural)]
pub struct HostHandles {
    pub hid_output: u16,
    pub hid_input_cccd: u16,
    pub gatt_output: u16,
    pub gatt_input_cccd: u16,
}

/// Handles of the keyboard's characteristics.
#[derive(Clone, Copy, Debug, PartialEq, Eq, Structural)]
pub struct GattHandles {
    pub battery_level_cccd: u16,
    pub output_keyboard: u16,
    pub hid_control_point: u16,
    pub input_keyboard_cccd: u16,
    pub mouse_cccd: u16,
    pub media_cccd: u16,
    pub system_cccd: u16,
    /// Present where the keyboard can be configured by a host.
    pub host: Option<HostHandles>,
}

/// Way by which a configuration host reaches the keyboard.
#[derive(Clone, Copy, Debug, PartialEq, Eq, Structural)]
pub enum BleHostTransport {
    Hid,
    VendorGatt,
}

/// Meaning of a write request.
#[derive(Clone, Copy, Debug)]
pub enum GattWrite {
    /// LED state of the keyboard.
    Led(u8),
    /// The host subscribed to or unsubscribed from a characteristic.
    Cccd,
    /// The host suspends.
    Suspend,
    /// The host resumes.
    Resume,
    /// A packet of the configuration host.
    HostPacket { transport: BleHostTransport, packet: [u8; 32] },
    /// Data of the wrong size or with an unknown meaning.
    Malformed,
    /// Nothing that the keyboard reacts to.
    Unknown,
}

/// A request of the host.
#[derive(Clone, Copy, Debug)]
pub enum GattRequest<'a> {
    Read { handle: u16 },
    Write { handle: u16, data: &'a [u8] },
    Other,
    NotAllowed,
}

/// Answer to a request.
#[derive(Clone, Copy, Debug, PartialEq, Eq, Structural)]
pub enum GattReply {
    Accept,
    /// Refuse with this ATT error.
    Reject(u8),
    /// The link is gone: end the connection's task without an answer.
    End,
}

/// Reaction to a request: what it means, the answer, and whether the subscriptions
/// are to be saved after the answer went out.
#[derive(Clone, Copy, Debug)]
pub struct GattReaction {
    pub write: Option<GattWrite>,
    pub reply: GattReply,
    pub cccd_updated: bool,
}

impl GattHandles {
    /// Whether a handle is that of a subscription to reports or the battery level.
    pub open spec fn is_report_cccd(&self, handle: u16) -> bool {
        ||| handle == self.input_keyboard_cccd
        ||| handle == self.mouse_cccd
        ||| handle == self.media_cccd
        ||| handle == self.system_cccd
        ||| handle == self.battery_level_cccd
    }

    /// Whether `write` is what a write of `data` to `handle` means. Where a handle
    /// is listed more than once, keyboard characteristics come before those of the
    /// configuration host.
    pub open spec fn means(&self, handle: u16, data: Seq<u8>, write: GattWrite) -> bool {
        if handle == self.output_keyboard {
            write == (if data.len() == 1 {
                GattWrite::Led(data[0])
            } else {
                GattWrite::Malformed
            })
        } else if self.is_report_cccd(handle) {
            write == GattWrite::Cccd
        } else if handle == self.hid_control_point {
            write == (if data.len() == 1 && data[0] == 0 {
                GattWrite::Suspend
            } else if data.len() == 1 && data[0] == 1 {
                GattWrite::Resume
            } else {
                GattWrite::Malformed
            })
        } else {
            match self.host {
                Some(host) => if handle == host.hid_output || handle == host.gatt_output {
                    if data.len() == HOST_PACKET_SIZE {
                        &&& write matches GattWrite::HostPacket { transport, packet }
                        &&& packet@ == data
                        &&& transport == (if handle == host.gatt_output {
                            BleHostTransport::VendorGatt
                        } else {
                            BleHostTransport::Hid
                        })
                    } else {
                        write == GattWrite::Malformed
                    }
                } else if handle == host.hid_input_cccd || handle == host.gatt_input_cccd {
                    write == GattWrite::Cccd
                } else {
                    write == GattWrite::Unknown
                },
                None => write == GattWrite::Unknown,
            }
        }
    }

    /// Whether `reaction` is what a request leads to.
    pub open spec fn reacts(&self, request: GattRequest, encrypted: Option<bool>, reaction: GattReaction) -> bool {
        &&& match request {
            GattRequest::Write { handle, data } => {
                &&& reaction.write matches Some(write)
                &&& self.means(handle, data@, write)
                &&& reaction.cccd_updated == (write is Cccd && encrypted is Some)
            },
            _ => reaction.write is None && !reaction.cccd_updated,
        }
        &&& reaction.reply == reply_to(request is Read || request is Write, encrypted)
    }

    /// Meaning of a write of `data` to `handle`.
    pub fn classify_write(&self, handle: u16, data: &[u8]) -> (write: GattWrite)
        ensures
            self.means(handle, data@, write),
    {
        if handle == self.output_keyboard {
            if data.len() == 1 {
                GattWrite::Led(data[0])
            } else {
                GattWrite::Malformed
            }
        } else if handle == self.input_keyboard_cccd || handle == self.mouse_cccd || handle == self.media_cccd || handle
            == self.system_cccd || handle == self.battery_level_cccd {
            GattWrite::Cccd
        } else if handle == self.hid_control_point {
            if data.len() == 1 && data[0] == 0 {
                GattWrite::Suspend
            } else if data.len() == 1 && data[0] == 1 {
                GattWrite::Resume
            } else {
                GattWrite::Malformed
            }
        } else {
            match self.host {
                Some(host) => {
                    if handle == host.hid_output || handle == host.gatt_output {
                        if data.len() == HOST_PACKET_SIZE {
                            let transport = if handle == host.gatt_output {
                                BleHostTransport::VendorGatt
                            } else {
                                BleHostTransport::Hid
                            };
                            GattWrite::HostPacket { transport, packet: copy_packet(data) }
                        } else {
                            GattWrite::Malformed
                        }
                    } else if handle == host.hid_input_cccd || handle == host.gatt_input_cccd {
                        GattWrite::Cccd
                    } else {
                        GattWrite::Unknown
                    }
                },
                None => GattWrite::Unknown,
            }
        }
    }

    /// Reacts to a request. `encrypted` tells whether the link is encrypted, and is
    /// `None` when the link is gone. Reads and writes are answered on encrypted links
    /// only; what a write means takes effect before it is answered.
    pub fn on_gatt_request(&self, request: GattRequest, encrypted: Option<bool>) -> (reaction: GattReaction)
        ensures
            self.reacts(request, encrypted, reaction),
    {
        match request {
            GattRequest::Read { .. } => GattReaction {
                write: None,
                reply: guarded_reply(encrypted),
                cccd_updated: false,
            },
            GattRequest::Write { handle, data } => {
                let write = self.classify_write(handle, data);
                let cccd_updated = match write {
                    GattWrite::Cccd => encrypted.is_some(),
                    _ => false,
                };
                GattReaction { write: Some(write), reply: guarded_reply(encrypted), cccd_updated }
            },
            _ => GattReaction { write: None, reply: GattReply::Accept, cccd_updated: false },
        }
    }
}

/// Answer to a request: one that touches an attribute needs an encrypted link.
pub open spec fn reply_to(touches_attribute: bool, encrypted: Option<bool>) -> GattReply {
    if !touches_attribute {
        GattReply::Accept
    } else {
        match encrypted {
            Some(true) => GattReply::Accept,
            Some(false) => GattReply::Reject(INSUFFICIENT_ENCRYPTION),
            None => GattReply::End,
        }
    }
}

/// Answer to a request that touches an attribute.
fn guarded_reply(encrypted: Option<bool>) -> (reply: GattReply)
    ensures
        reply == reply_to(true, encrypted),
{
    match encrypted {
        Some(true) => GattReply::Accept,
        Some(false) => GattReply::Reject(INSUFFICIENT_ENCRYPTION),
        None => GattReply::End,
    }
}

/// Copies a packet out of a request.
fn copy_packet(data: &[u8]) -> (packet: [u8; 32])
    requires
        data@.len() == HOST_PACKET_SIZE,
    ensures
        packet@ == data@,
{
    let mut packet: [u8; 32] = [0; 32];
    let mut i: usize = 0;
    while i < HOST_PACKET_SIZE
        invariant
            data@.len() == HOST_PACKET_SIZE,
            i <= HOST_PACKET_SIZE,
            forall|j: int| 0 <= j < i ==> packet@[j] == data@[j],
        decreases HOST_PACKET_SIZE - i,
    {
        packet[i] = data[i];
        i += 1;
    }
    assert(packet@ =~= data@);
    packet
}

/// How passkeys are entered.
#[derive(Clone, Copy, Debug, PartialEq, Eq, Structural)]
pub enum PasskeyEntry {
    /// The keyboard is built without passkey entry.
    Absent,
    /// Switched off by configuration.
    Disabled,
    Enabled,
}

/// What happened on a connection, requests aside.
#[derive(Clone, Copy, Debug, PartialEq, Eq, Structural)]
pub enum ConnectionEvent {
    Disconnected,
    /// Pairing succeeded, with or without a bond.
    PairingComplete { bonded: bool },
    PairingFailed,
    Encrypted,
    PassKeyInput,
    /// Anything that is only logged.
    Notice,
}

/// Reaction to an event.
#[derive(Clone, Copy, Debug, PartialEq, Eq, Structural)]
pub enum ConnectionEffect {
    Nothing,
    /// The connection's task ends.
    End,
    /// The bond is saved under the active profile.
    SaveBond,
    /// The host can now be written to.
    Connected,
    BeginPasskey,
    CancelPasskey,
}

/// Reaction to an event, and whether a passkey that is being entered is dropped.
#[derive(Clone, Copy, Debug, PartialEq, Eq, Structural)]
pub struct ConnectionReaction {
    pub effect: ConnectionEffect,
    pub clear_passkey: bool,
}

/// Reaction to an event on a connection.
pub open spec fn reaction_to(event: ConnectionEvent, passkey: PasskeyEntry) -> ConnectionReaction {
    ConnectionReaction {
        clear_passkey: passkey != PasskeyEntry::Absent && (event is Disconnected || event is PairingComplete || event
            is PairingFailed),
        effect: match event {
            ConnectionEvent::Disconnected => ConnectionEffect::End,
            ConnectionEvent::PairingComplete { bonded: true } => ConnectionEffect::SaveBond,
            ConnectionEvent::Encrypted => ConnectionEffect::Connected,
            ConnectionEvent::PassKeyInput => match passkey {
                PasskeyEntry::Absent => ConnectionEffect::Nothing,
                PasskeyEntry::Disabled => ConnectionEffect::CancelPasskey,
                PasskeyEntry::Enabled => ConnectionEffect::BeginPasskey,
            },
            _ => ConnectionEffect::Nothing,
        },
    }
}

/// Reacts to an event on a connection.
pub fn on_connection_event(event: ConnectionEvent, passkey: PasskeyEntry) -> (reaction: ConnectionReaction)
    ensures
        reaction == reaction_to(event, passkey),
{
    let built_in = match passkey {
        PasskeyEntry::Absent => false,
        _ => true,
    };
    match event {
        ConnectionEvent::Disconnected => ConnectionReaction { effect: ConnectionEffect::End, clear_passkey: built_in },
        ConnectionEvent::PairingComplete { bonded } => ConnectionReaction {
            effect: if bonded {
                ConnectionEffect::SaveBond
            } else {
                ConnectionEffect::Nothing
            },
            clear_passkey: built_in,
        },
        ConnectionEvent::PairingFailed => ConnectionReaction {
            effect: ConnectionEffect::Nothing,
            clear_passkey: built_in,
        },
        ConnectionEvent::Encrypted => ConnectionReaction { effect: ConnectionEffect::Connected, clear_passkey: false },
        ConnectionEvent::PassKeyInput => ConnectionReaction {
            effect: match passkey {
                PasskeyEntry::Absent => ConnectionEffect::Nothing,
                PasskeyEntry::Disabled => ConnectionEffect::CancelPasskey,
                PasskeyEntry::Enabled => ConnectionEffect::BeginPasskey,
            },
            clear_passkey: false,
        },
        ConnectionEvent::Notice => ConnectionReaction { effect: ConnectionEffect::Nothing, clear_passkey: false },
    }
}

/// No attribute is served on an open link.
pub proof fn law_open_links_are_refused(encrypted: bool)
    ensures
        reply_to(true, Some(encrypted)) == GattReply::Accept <==> encrypted,
{
}

/// A write means what its characteristic is for: one byte to the keyboard's output is the
/// state of the LEDs, a write to a subscription changes it, and one byte to the control
/// point suspends by 0 and resumes by 1. Of a configuration host, 32 bytes are a packet,
/// over HID or over the vendor's service. Data of another size means nothing, nor does
/// another handle.
pub proof fn law_writes_mean_what_their_handle_is_for(
    h: GattHandles,
    handle: u16,
    data: Seq<u8>,
    write: GattWrite,
)
    requires
        h.means(handle, data, write),
    ensures
        ({
            let subscribes = handle == h.input_keyboard_cccd || handle == h.mouse_cccd || handle == h.media_cccd
                || handle == h.system_cccd || handle == h.battery_level_cccd;
            let basic = handle == h.output_keyboard || subscribes || handle == h.hid_control_point;
            &&& handle == h.output_keyboard && data.len() == 1 ==> write == GattWrite::Led(data[0])
            &&& handle == h.output_keyboard && data.len() != 1 ==> write == GattWrite::Malformed
            &&& handle != h.output_keyboard && subscribes ==> write == GattWrite::Cccd
            &&& handle != h.output_keyboard && !subscribes && handle == h.hid_control_point ==> {
                &&& data == seq![0u8] ==> write == GattWrite::Suspend
                &&& data == seq![1u8] ==> write == GattWrite::Resume
                &&& data.len() != 1 || data[0] > 1 ==> write == GattWrite::Malformed
            }
            &&& !basic && h.host is None ==> write == GattWrite::Unknown
            &&& !basic && h.host is Some ==> {
                let host = h.host->0;
                let outputs = handle == host.hid_output || handle == host.gatt_output;
                let inputs = handle == host.hid_input_cccd || handle == host.gatt_input_cccd;
                &&& outputs && data.len() != 32 ==> write == GattWrite::Malformed
                &&& outputs && data.len() == 32 ==> {
                    &&& write is HostPacket
                    &&& write->packet@ == data
                    &&& handle == host.gatt_output ==> write->transport == BleHostTransport::VendorGatt
                    &&& handle != host.gatt_output ==> write->transport == BleHostTransport::Hid
                }
                &&& !outputs && inputs ==> write == GattWrite::Cccd
                &&& !outputs && !inputs ==> write == GattWrite::Unknown
            }
        }),
{
}

/// Reads and writes are answered on an encrypted link, refused with the error 0x0f on an
/// open one, and end the task where the link is gone; other requests are always answered.
/// A write, and nothing else, has a meaning, and a subscription is saved unless the link
/// is gone.
pub proof fn law_requests_need_encryption(
    h: GattHandles,
    request: GattRequest,
    encrypted: Option<bool>,
    reaction: GattReaction,
)
    requires
        h.reacts(request, encrypted, reaction),
    ensures
        request is Read || request is Write ==> {
            &&& encrypted == Some(true) ==> reaction.reply == GattReply::Accept
            &&& encrypted == Some(false) ==> reaction.reply == GattReply::Reject(0x0f)
            &&& encrypted is None ==> reaction.reply == GattReply::End
        },
        !(request is Read) && !(request is Write) ==> reaction.reply == GattReply::Accept,
        reaction.write is Some <==> request is Write,
        request matches GattRequest::Write { handle, data } ==> h.means(handle, data@, reaction.write->0),
        reaction.cccd_updated <==> reaction.write == Some(GattWrite::Cccd) && encrypted is Some,
{
}

/// A connection ends when the host is gone, can be used once it is encrypted, and saves
/// the bond that a pairing made. A passkey is asked for where its entry is enabled and
/// cancelled where it is disabled; the end of a pairing or of the link drops one that is
/// being entered. Nothing else has an effect.
pub proof fn law_connections_react_to_events(event: ConnectionEvent, passkey: PasskeyEntry)
    ensures
        ({
            let reaction = reaction_to(event, passkey);
            &&& reaction.effect == ConnectionEffect::End <==> event == ConnectionEvent::Disconnected
            &&& reaction.effect == ConnectionEffect::SaveBond <==> event == (ConnectionEvent::PairingComplete {
                bonded: true,
            })
            &&& reaction.effect == ConnectionEffect::Connected <==> event == ConnectionEvent::Encrypted
            &&& reaction.effect == ConnectionEffect::BeginPasskey <==> event == ConnectionEvent::PassKeyInput && passkey
                == PasskeyEntry::Enabled
            &&& reaction.effect == ConnectionEffect::CancelPasskey <==> event == ConnectionEvent::PassKeyInput && passkey
                == PasskeyEntry::Disabled
            &&& reaction.clear_passkey <==> {
                &&& passkey == PasskeyEntry::Enabled || passkey == PasskeyEntry::Disabled
                &&& event == ConnectionEvent::Disconnected || event == ConnectionEvent::PairingFailed || event
                    is PairingComplete
            }
        }),
{
}

} // verus!
