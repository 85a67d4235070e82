//! Bonds: the identity of a host and its saved subscriptions.

use vstd::prelude::*;

verus! {

/// Identity of a host.
#[derive(Clone, Copy, Debug)]
pub struct PeerIdentity {
    /// Address type as the controller gives it.
    pub kind: u8,
    /// Address, least significant byte first.
    pub addr: [u8; 6],
    /// Identity resolving key; zero when there is none.
    pub irk: u128,
}

/// Bytes of a client's subscriptions, in a vector whose capacity was fixed when it was
/// made.
#[verifier::external_body]
pub struct CccdTable {
    bytes: Box<heapless::VecView<u8>>,
}

/// Bytes that a table holds.
pub uninterp spec fn cccd_bytes(table: CccdTable) -> Seq<u8>;

/// Calls `Vec::from_slice` of heapless for a vector of capacity `N`: a copy of the
/// bytes, or nothing when they are more than the capacity.
#[verifier::external_body]
fn cccd_from_slice<const N: usize>(raw: &[u8]) -> (table: Option<CccdTable>)
    ensures
        table is Some == (raw@.len() <= N),
        table matches Some(t) ==> cccd_bytes(t) == raw@,
{
    heapless::Vec::<u8, N>::from_slice(raw).ok().map(|bytes| CccdTable { bytes: Box::new(bytes) })
}

/// Calls `Vec::default` of heapless for a vector of capacity `N`: a vector without
/// elements.
#[verifier::external_body]
fn cccd_default<const N: usize>() -> (table: CccdTable)
    ensures
        cccd_bytes(table) == Seq::<u8>::empty(),
{
    CccdTable { bytes: Box::new(heapless::Vec::<u8, N>::default()) }
}

/// Calls `Vec::as_slice` of heapless: the elements in order.
#[verifier::external_body]
fn cccd_as_slice(table: &CccdTable) -> (bytes: &[u8])
    ensures
        bytes@ == cccd_bytes(*table),
{
    table.bytes.as_slice()
}

impl CccdTable {
    /// Bytes of the table.
    pub open spec fn view(&self) -> Seq<u8> {
        cccd_bytes(*self)
    }

    /// Saves the raw bytes of a client's table, if they are no more than the capacity
    /// `N`.
    pub fn from_raw<const N: usize>(raw: &[u8]) -> (table: Option<CccdTable>)
        ensures
            table is Some <==> raw@.len() <= N,
            table matches Some(t) ==> t@ == raw@,
    {
        cccd_from_slice::<N>(raw)
    }

    /// Saved bytes.
    pub fn as_raw(&self) -> (raw: &[u8])
        ensures
            raw@ == self@,
    {
        cccd_as_slice(self)
    }
}

/// A bond under a profile.
pub struct ProfileInfo {
    pub slot_num: u8,
    pub identity: PeerIdentity,
    pub removed: bool,
    pub cccd_table: CccdTable,
}

/// Whether `profile` is the bond that is saved when pairing is complete.
pub open spec fn is_bond(
    profile: ProfileInfo,
    slot_num: u8,
    identity: PeerIdentity,
    raw_table: Option<Seq<u8>>,
    capacity: nat,
) -> bool {
    &&& profile.slot_num == slot_num
    &&& profile.identity == identity
    &&& !profile.removed
    &&& profile.cccd_table@ == (match raw_table {
        Some(raw) => if raw.len() <= capacity {
            raw
        } else {
            Seq::empty()
        },
        None => Seq::empty(),
    })
}

/// Bond that is saved when pairing is complete. `raw_table` is the client's table of
/// subscriptions, if the server has one; without one, or when it does not fit into the
/// capacity `N`, none are saved.
pub fn bonded_profile<const N: usize>(slot_num: u8, identity: PeerIdentity, raw_table: Option<&[u8]>) -> (profile:
    ProfileInfo)
    ensures
        is_bond(
            profile,
            slot_num,
            identity,
            match raw_table {
                Some(raw) => Some(raw@),
                None => None,
            },
            N as nat,
        ),
{
    let saved = match raw_table {
        Some(raw) => cccd_from_slice::<N>(raw),
        None => None,
    };
    let cccd_table = match saved {
        Some(table) => table,
        None => cccd_default::<N>(),
    };
    ProfileInfo { slot_num, identity, removed: false, cccd_table }
}

/// Result of `Identity::match_identity` of trouble-host.
pub uninterp spec fn identities_match(
    kind: u8,
    addr: Seq<u8>,
    irk: u128,
    other_kind: u8,
    other_addr: Seq<u8>,
    other_irk: u128,
) -> bool;

/// Calls `Identity::match_identity` of trouble-host: whether two identities can be
/// those of one device. It is named; beside the name stand only that an identity
/// matches every identity with the same address, and every one with the same resolving
/// key.
#[verifier::external_body]
fn match_identity(known: &PeerIdentity, peer: &PeerIdentity) -> (matched: bool)
    ensures
        matched == identities_match(known.kind, known.addr@, known.irk, peer.kind, peer.addr@, peer.irk),
        known.kind == peer.kind && known.addr@ == peer.addr@ ==> matched,
        known.irk == peer.irk && known.irk != 0 ==> matched,
{
    let known = trouble_host::Identity {
        addr: trouble_host::Address {
            kind: bt_hci::param::AddrKind::new(known.kind),
            addr: bt_hci::param::BdAddr::new(known.addr),
        },
        irk: trouble_host::IdentityResolvingKey::new(known.irk),
    };
    let peer = trouble_host::Identity {
        addr: trouble_host::Address {
            kind: bt_hci::param::AddrKind::new(peer.kind),
            addr: bt_hci::param::BdAddr::new(peer.addr),
        },
        irk: trouble_host::IdentityResolvingKey::new(peer.irk),
    };
    known.match_identity(&peer)
}

/// Whether `ClientAttTableView::try_from_raw` of trouble-host takes these bytes.
pub uninterp spec fn att_table_valid(raw: Seq<u8>) -> bool;

/// Calls `ClientAttTableView::try_from_raw` of trouble-host: whether the bytes are a
/// well-formed table of subscriptions. It is named; beside the name stands only that
/// bytes without a whole header are refused.
#[verifier::external_body]
fn is_valid_att_table(raw: &[u8]) -> (valid: bool)
    ensures
        valid == att_table_valid(raw@),
        raw@.len() < 4 ==> !valid,
{
    trouble_host::prelude::ClientAttTableView::try_from_raw(raw).is_ok()
}

/// What becomes of saved subscriptions when a host connects.
#[derive(Clone, Copy, Debug, PartialEq, Eq, Structural)]
pub enum CccdRestore {
    /// There is no bond with this host.
    NotBonded,
    /// The saved bytes are no table.
    Invalid,
    /// The saved subscriptions hold again.
    Restore,
}

/// Decision on saved subscriptions.
pub open spec fn restore_decision(matched: bool, valid: bool) -> CccdRestore {
    if !matched {
        CccdRestore::NotBonded
    } else if !valid {
        CccdRestore::Invalid
    } else {
        CccdRestore::Restore
    }
}

/// Decides on saved subscriptions: `matched` tells whether the bond is one with the
/// connected host, `valid` whether its bytes are a table.
pub fn cccd_restore(matched: bool, valid: bool) -> (restore: CccdRestore)
    ensures
        restore == restore_decision(matched, valid),
{
    if !matched {
        CccdRestore::NotBonded
    } else if !valid {
        CccdRestore::Invalid
    } else {
        CccdRestore::Restore
    }
}

/// Whether a profile's bond is one with this host.
pub open spec fn bond_matches(bond: ProfileInfo, peer: PeerIdentity) -> bool {
    identities_match(
        bond.identity.kind,
        bond.identity.addr@,
        bond.identity.irk,
        peer.kind,
        peer.addr@,
        peer.irk,
    )
}

/// Decides on the subscriptions that the active profile has saved, for a host that
/// connected.
pub fn restore_subscriptions(bond: Option<&ProfileInfo>, peer: &PeerIdentity) -> (restore: CccdRestore)
    ensures
        match bond {
            None => restore == CccdRestore::NotBonded,
            Some(b) => {
                &&& restore == restore_decision(bond_matches(*b, *peer), att_table_valid(b.cccd_table@))
                &&& b.cccd_table@.len() == 0 ==> !(restore is Restore)
                &&& b.identity.kind == peer.kind && b.identity.addr@ == peer.addr@ ==> !(restore is NotBonded)
            },
        },
{
    match bond {
        None => CccdRestore::NotBonded,
        Some(b) => {
            let matched = match_identity(&b.identity, peer);
            let valid = is_valid_att_table(b.cccd_table.as_raw());
            cccd_restore(matched, valid)
        },
    }
}

/// A bond is kept under its profile and with the identity of its host; its subscriptions
/// are kept whole or not at all.
pub proof fn law_bonds_keep_identity_and_subscriptions(
    profile: ProfileInfo,
    slot_num: u8,
    identity: PeerIdentity,
    raw_table: Option<Seq<u8>>,
    capacity: nat,
)
    requires
        is_bond(profile, slot_num, identity, raw_table, capacity),
    ensures
        profile.slot_num == slot_num && profile.identity == identity && !profile.removed,
        raw_table matches Some(raw) ==> (raw.len() <= capacity ==> profile.cccd_table@ == raw),
        raw_table matches Some(raw) ==> (raw.len() > capacity ==> profile.cccd_table@.len() == 0),
        raw_table is None ==> profile.cccd_table@.len() == 0,
{
}

/// Subscriptions hold again for the host that they were saved for, if they are a table;
/// for another host there is no bond, whatever was saved.
pub proof fn law_subscriptions_return_to_their_host(matched: bool, valid: bool)
    ensures
        restore_decision(matched, valid) == CccdRestore::Restore <==> matched && valid,
        restore_decision(matched, valid) == CccdRestore::Invalid <==> matched && !valid,
        restore_decision(matched, valid) == CccdRestore::NotBonded <==> !matched,
{
}

} // verus!
