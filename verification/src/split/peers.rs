//! Which split peripherals are known, on trial and connected.

use vstd::prelude::*;

verus! {

/// Number of peripherals that have a bit in a set; the last bit stands for every
/// peripheral beyond it too.
pub const PEER_BITS: usize = 32;

/// Bit of a peripheral. Peripherals beyond the last bit share it.
pub open spec fn peri_bit(peri_id: int) -> u32 {
    1u32 << (if peri_id <= 31 {
        peri_id as u32
    } else {
        31u32
    })
}

/// Whether the bit of a peripheral is set.
pub open spec fn has_bit(mask: u32, peri_id: int) -> bool {
    mask & peri_bit(peri_id) != 0
}

/// Whether two peripherals share a bit.
pub open spec fn same_bit(a: int, b: int) -> bool {
    a == b || (a >= 31 && b >= 31)
}

/// Bit of a peripheral. Peripherals beyond the last bit share it.
pub fn bit_for_peri(peri_id: usize) -> (bit: u32)
    ensures
        bit == peri_bit(peri_id as int),
{
    let shift: u32 = if peri_id <= 31 {
        peri_id as u32
    } else {
        31
    };
    1u32 << shift
}

/// Setting a bit sets it and no other.
proof fn lemma_set_bit(mask: u32, a: int, b: int)
    requires
        a >= 0,
        b >= 0,
    ensures
        has_bit(mask | peri_bit(a), b) == (has_bit(mask, b) || same_bit(a, b)),
{
    let i: u32 = if a <= 31 {
        a as u32
    } else {
        31
    };
    let j: u32 = if b <= 31 {
        b as u32
    } else {
        31
    };
    assert(((mask | (1u32 << i)) & (1u32 << j) != 0) == (mask & (1u32 << j) != 0 || i == j)) by (bit_vector)
        requires
            i < 32,
            j < 32,
    ;
}

/// Clearing a bit clears it and no other.
proof fn lemma_clear_bit(mask: u32, a: int, b: int)
    requires
        a >= 0,
        b >= 0,
    ensures
        has_bit(mask & !peri_bit(a), b) == (has_bit(mask, b) && !same_bit(a, b)),
{
    let i: u32 = if a <= 31 {
        a as u32
    } else {
        31
    };
    let j: u32 = if b <= 31 {
        b as u32
    } else {
        31
    };
    assert(((mask & !(1u32 << i)) & (1u32 << j) != 0) == (mask & (1u32 << j) != 0 && i != j)) by (bit_vector)
        requires
            i < 32,
            j < 32,
    ;
}

/// A set of peripherals.
#[derive(Clone, Copy, Debug, PartialEq, Eq, Structural)]
pub struct PeerSet {
    pub mask: u32,
}

impl PeerSet {
    /// Whether a peripheral is in the set.
    pub open spec fn holds(&self, peri_id: int) -> bool {
        has_bit(self.mask, peri_id)
    }

    /// Whether the first `n` peripherals are all in the set, as far as they have a bit.
    pub open spec fn holds_first(&self, n: int) -> bool {
        forall|i: int| 0 <= i < n && i < PEER_BITS ==> #[trigger] self.holds(i)
    }

    /// The empty set.
    pub fn new() -> (this: Self)
        ensures
            this.mask == 0,
            forall|i: int| i >= 0 ==> !(#[trigger] this.holds(i)),
    {
        let this = PeerSet { mask: 0 };
        proof {
            assert forall|i: int| i >= 0 implies !(#[trigger] this.holds(i)) by {
                let j: u32 = if i <= 31 {
                    i as u32
                } else {
                    31
                };
                assert(0u32 & (1u32 << j) == 0) by (bit_vector);
            }
        }
        this
    }

    /// Adds a peripheral.
    pub fn insert(&mut self, peri_id: usize)
        ensures
            final(self).mask == old(self).mask | peri_bit(peri_id as int),
            forall|i: int|
                i >= 0 ==> #[trigger] final(self).holds(i) == (old(self).holds(i) || same_bit(peri_id as int, i)),
    {
        let ghost before = self.mask;
        self.mask = self.mask | bit_for_peri(peri_id);
        proof {
            assert forall|i: int| i >= 0 implies has_bit(self.mask, i) == (has_bit(before, i) || same_bit(
                peri_id as int,
                i,
            )) by {
                lemma_set_bit(before, peri_id as int, i);
            }
        }
    }

    /// Removes a peripheral and tells whether it was there.
    pub fn take(&mut self, peri_id: usize) -> (was_there: bool)
        ensures
            was_there == old(self).holds(peri_id as int),
            final(self).mask == old(self).mask & !peri_bit(peri_id as int),
            forall|i: int|
                i >= 0 ==> #[trigger] final(self).holds(i) == (old(self).holds(i) && !same_bit(peri_id as int, i)),
    {
        let ghost before = self.mask;
        let bit: u32 = bit_for_peri(peri_id);
        let was_there = self.mask & bit != 0;
        self.mask = self.mask & !bit;
        proof {
            assert forall|i: int| i >= 0 implies has_bit(self.mask, i) == (has_bit(before, i) && !same_bit(
                peri_id as int,
                i,
            )) by {
                lemma_clear_bit(before, peri_id as int, i);
            }
        }
        was_there
    }

    /// Notes whether a peripheral is connected.
    pub fn publish_peripheral_connection(&mut self, id: usize, connected: bool)
        ensures
            forall|i: int|
                i >= 0 ==> #[trigger] final(self).holds(i) == (if same_bit(id as int, i) {
                    connected
                } else {
                    old(self).holds(i)
                }),
    {
        if connected {
            self.insert(id);
        } else {
            let _ = self.take(id);
        }
    }

    /// Whether the first `peripherals_num` peripherals are all in the set, as far as they
    /// have a bit.
    pub fn all_peripherals_connected(&self, peripherals_num: usize) -> (all: bool)
        ensures
            all == self.holds_first(peripherals_num as int),
    {
        let required: u32 = required_peripheral_mask(peripherals_num);
        let all = self.mask & required == required;
        proof {
            let n: int = if peripherals_num >= 32 {
                32
            } else {
                peripherals_num as int
            };
            lemma_covers(self.mask, n);
            if all {
                assert forall|i: int| 0 <= i < peripherals_num && i < PEER_BITS implies #[trigger] self.holds(i) by {
                    assert(has_bit(self.mask, i));
                }
            } else {
                let i = choose|i: int| 0 <= i < n && !(#[trigger] has_bit(self.mask, i));
                assert(!self.holds(i));
            }
        }
        all
    }
}

/// Bits of the first `peripherals_num` peripherals.
pub open spec fn required_mask(peripherals_num: int) -> u32 {
    if peripherals_num >= 32 {
        u32::MAX
    } else {
        ((1u32 << (peripherals_num as u32)) - 1) as u32
    }
}

/// Bits of the first `peripherals_num` peripherals.
pub fn required_peripheral_mask(peripherals_num: usize) -> (mask: u32)
    ensures
        mask == required_mask(peripherals_num as int),
        forall|i: int| 0 <= i < 32 ==> #[trigger] has_bit(mask, i) == (i < peripherals_num),
{
    let mask: u32 = if peripherals_num >= 32 {
        u32::MAX
    } else {
        let shift: u32 = peripherals_num as u32;
        assert(1u32 << shift >= 1) by (bit_vector)
            requires
                shift < 32,
        ;
        (1u32 << shift) - 1
    };
    proof {
        assert forall|i: int| 0 <= i < 32 implies #[trigger] has_bit(mask, i) == (i < peripherals_num) by {
            let j: u32 = i as u32;
            if peripherals_num >= 32 {
                assert(0xffff_ffffu32 & (1u32 << j) != 0) by (bit_vector)
                    requires
                        j < 32,
                ;
            } else {
                let n: u32 = peripherals_num as u32;
                assert((((1u32 << n) - 1) as u32 & (1u32 << j) != 0) == (j < n)) by (bit_vector)
                    requires
                        n < 32,
                        j < 32,
                ;
            }
        }
    }
    mask
}

/// A mask covers the first `n` peripherals if and only if it holds each of them.
proof fn lemma_covers(mask: u32, n: int)
    requires
        0 <= n <= 32,
    ensures
        (mask & required_mask(n) == required_mask(n)) == (forall|i: int| 0 <= i < n ==> #[trigger] has_bit(mask, i)),
    decreases n,
{
    if n == 0 {
        assert(mask & (((1u32 << 0u32) - 1) as u32) == ((1u32 << 0u32) - 1) as u32) by (bit_vector);
    } else {
        lemma_covers(mask, n - 1);
        let k: u32 = (n - 1) as u32;
        if n == 32 {
            assert((mask & 0xffff_ffffu32 == 0xffff_ffffu32) == (mask & (((1u32 << 31u32) - 1) as u32) == ((1u32 << 31u32)
                - 1) as u32 && mask & (1u32 << 31u32) != 0)) by (bit_vector);
        } else {
            let m: u32 = n as u32;
            assert((mask & (((1u32 << m) - 1) as u32) == ((1u32 << m) - 1) as u32) == (mask & (((1u32 << k) - 1) as u32)
                == ((1u32 << k) - 1) as u32 && mask & (1u32 << k) != 0)) by (bit_vector)
                requires
                    m < 32,
                    m == k + 1,
            ;
        }
        let before = forall|i: int| 0 <= i < n - 1 ==> #[trigger] has_bit(mask, i);
        let now = forall|i: int| 0 <= i < n ==> #[trigger] has_bit(mask, i);
        if before && has_bit(mask, n - 1) {
            assert forall|i: int| 0 <= i < n implies #[trigger] has_bit(mask, i) by {}
        }
        if now {
            assert(has_bit(mask, n - 1));
        }
    }
}

/// Addresses of the peripherals, in a vector whose capacity was fixed when it was made.
/// A slot without an address is to be filled by scanning.
#[verifier::external_body]
pub struct PeerSlots {
    slots: Box<heapless::VecView<Option<[u8; 6]>>>,
}

/// Slots in order.
pub uninterp spec fn peer_slots(slots: PeerSlots) -> Seq<Option<[u8; 6]>>;

/// Calls `Vec::from_slice` of heapless for a vector of capacity `N`: a copy of the
/// slots, or nothing when they are more than the capacity.
#[verifier::external_body]
fn slots_from_slice<const N: usize>(saved: &[Option<[u8; 6]>]) -> (slots: Option<PeerSlots>)
    ensures
        slots is Some == (saved@.len() <= N),
        slots matches Some(s) ==> peer_slots(s) == saved@,
{
    heapless::Vec::<Option<[u8; 6]>, N>::from_slice(saved).ok().map(|slots| PeerSlots { slots: Box::new(slots) })
}

/// Calls `Vec::len` of heapless: the number of slots.
#[verifier::external_body]
fn slots_len(slots: &PeerSlots) -> (len: usize)
    ensures
        len == peer_slots(*slots).len(),
{
    slots.slots.len()
}

/// Calls `get` on a heapless vector: the slot at an index, if there is one.
#[verifier::external_body]
fn slots_get(slots: &PeerSlots, index: usize) -> (slot: Option<Option<[u8; 6]>>)
    ensures
        slot == (if index < peer_slots(*slots).len() {
            Some(peer_slots(*slots)[index as int])
        } else {
            None
        }),
{
    slots.slots.get(index).copied()
}

/// Calls `index_mut` on a heapless vector: assigns the slot at an index that is there.
#[verifier::external_body]
fn slots_set(slots: &mut PeerSlots, index: usize, slot: Option<[u8; 6]>)
    requires
        index < peer_slots(*old(slots)).len(),
    ensures
        peer_slots(*final(slots)) == peer_slots(*old(slots)).update(index as int, slot),
{
    slots.slots[index] = slot;
}

/// Record of a peripheral's address in persistent storage.
#[derive(Clone, Copy, Debug)]
pub struct PeerAddress {
    pub peer_id: u8,
    pub is_valid: bool,
    pub address: [u8; 6],
}

/// Whether two addresses are the same.
fn same_address(a: &[u8; 6], b: &[u8; 6]) -> (same: bool)
    ensures
        same == (a@ == b@),
{
    let mut i: usize = 0;
    while i < 6
        invariant
            i <= 6,
            forall|j: int| 0 <= j < i ==> a@[j] == b@[j],
        decreases 6 - i,
    {
        if a[i] != b[i] {
            return false;
        }
        i += 1;
    }
    assert(a@ =~= b@);
    true
}

/// Whether every slot holds an address.
pub open spec fn all_known(slots: Seq<Option<[u8; 6]>>) -> bool {
    forall|i: int| 0 <= i < slots.len() ==> (#[trigger] slots[i]) is Some
}

/// Whether a slot holds this address.
pub open spec fn knows(slots: Seq<Option<[u8; 6]>>, id: int, addr: Seq<u8>) -> bool {
    id < slots.len() && (slots[id] matches Some(stored) && stored@ == addr)
}

/// Whether a slot is there and empty.
pub open spec fn is_vacant(slots: Seq<Option<[u8; 6]>>, id: int) -> bool {
    id < slots.len() && slots[id] is None
}

/// Whether the search goes on.
#[derive(Clone, Copy, Debug, PartialEq, Eq, Structural)]
pub enum ScanStep {
    KeepScanning,
    Done,
}

/// Whether a step and what it leaves are what finding a peripheral leads to.
pub open spec fn found_result(
    slots: Seq<Option<[u8; 6]>>,
    candidates: PeerSet,
    id: u8,
    addr: [u8; 6],
    step: ScanStep,
    slots_after: Seq<Option<[u8; 6]>>,
    candidates_after: PeerSet,
) -> bool {
    &&& knows(slots, id as int, addr@) ==> step == ScanStep::KeepScanning
    &&& !knows(slots, id as int, addr@) ==> (step == ScanStep::Done <==> all_known(slots_after))
    &&& slots_after == (if is_vacant(slots, id as int) {
        slots.update(id as int, Some(addr))
    } else {
        slots
    })
    &&& forall|i: int|
        i >= 0 ==> #[trigger] candidates_after.holds(i) == (candidates.holds(i) || (is_vacant(slots, id as int)
            && same_bit(id as int, i)))
}

/// Whether a record and what is left are what a failed attempt leads to.
pub open spec fn forgotten_result(
    slots: Seq<Option<[u8; 6]>>,
    candidates: PeerSet,
    peri_id: usize,
    record: PeerAddress,
    slots_after: Seq<Option<[u8; 6]>>,
    candidates_after: PeerSet,
) -> bool {
    &&& slots_after == (if peri_id < slots.len() {
        slots.update(peri_id as int, None)
    } else {
        slots
    })
    &&& forall|i: int|
        i >= 0 ==> #[trigger] candidates_after.holds(i) == (candidates.holds(i) && !same_bit(peri_id as int, i))
    &&& record.peer_id == peri_id as u8
    &&& !record.is_valid
    &&& record.address@ == seq![0u8, 0, 0, 0, 0, 0]
}

/// Whether a record and what is left on trial are what a proved peripheral leads to.
pub open spec fn committed_result(
    candidates: PeerSet,
    peri_id: usize,
    peer_address: [u8; 6],
    record: Option<PeerAddress>,
    candidates_after: PeerSet,
) -> bool {
    &&& record is Some <==> candidates.holds(peri_id as int)
    &&& record matches Some(r) ==> r.peer_id == peri_id as u8 && r.is_valid && r.address == peer_address
    &&& forall|i: int|
        i >= 0 ==> #[trigger] candidates_after.holds(i) == (candidates.holds(i) && !same_bit(peri_id as int, i))
}

impl PeerSlots {
    /// Slots in order.
    pub open spec fn view(&self) -> Seq<Option<[u8; 6]>> {
        peer_slots(*self)
    }

    /// Slots as they were saved, if there are no more than the capacity `N`.
    pub fn from_saved<const N: usize>(saved: &[Option<[u8; 6]>]) -> (slots: Option<PeerSlots>)
        ensures
            slots is Some <==> saved@.len() <= N,
            slots matches Some(s) ==> s@ == saved@,
    {
        slots_from_slice::<N>(saved)
    }

    /// Address of a peripheral, if it is known.
    pub fn address_of(&self, peri_id: usize) -> (addr: Option<[u8; 6]>)
        ensures
            addr == (if peri_id < self@.len() {
                self@[peri_id as int]
            } else {
                None
            }),
    {
        match slots_get(self, peri_id) {
            Some(slot) => slot,
            None => None,
        }
    }

    /// Whether any address is still to be found.
    pub fn need_scan(&self) -> (needed: bool)
        ensures
            needed == !all_known(self@),
    {
        let n: usize = slots_len(self);
        let mut i: usize = 0;
        while i < n
            invariant
                i <= n,
                n == self@.len(),
                forall|j: int| 0 <= j < i ==> (#[trigger] self@[j]) is Some,
            decreases n - i,
        {
            if let Some(None) = slots_get(self, i) {
                assert(self@[i as int] is None);
                return true;
            }
            i += 1;
        }
        false
    }

    /// A scan found a peripheral. Its address fills a vacant slot, on trial: it is
    /// saved only once the peripheral has proved to belong to this product. An address
    /// that is known already changes nothing and does not end the search.
    pub fn on_found(&mut self, candidates: &mut PeerSet, id: u8, addr: [u8; 6]) -> (step: ScanStep)
        ensures
            found_result(old(self)@, *old(candidates), id, addr, step, final(self)@, *final(candidates)),
    {
        if let Some(Some(stored)) = slots_get(self, id as usize) {
            if same_address(&stored, &addr) {
                return ScanStep::KeepScanning;
            }
        }
        if let Some(None) = slots_get(self, id as usize) {
            slots_set(self, id as usize, Some(addr));
            candidates.insert(id as usize);
        }
        if self.need_scan() {
            ScanStep::KeepScanning
        } else {
            ScanStep::Done
        }
    }

    /// An attempt to connect failed: the address is forgotten, so that a scan can find
    /// the peripheral that is there now. Returns the record to be saved.
    pub fn forget_failed_peer(&mut self, candidates: &mut PeerSet, peri_id: usize) -> (record: PeerAddress)
        ensures
            forgotten_result(old(self)@, *old(candidates), peri_id, record, final(self)@, *final(candidates)),
    {
        let _ = candidates.take(peri_id);
        if peri_id < slots_len(self) {
            slots_set(self, peri_id, None);
        }
        let address: [u8; 6] = [0; 6];
        assert(address@ =~= seq![0u8, 0, 0, 0, 0, 0]);
        PeerAddress { peer_id: peri_id as u8, is_valid: false, address }
    }
}

/// A peripheral proved to belong to this product. Returns the record to be saved, if its
/// address was on trial.
pub fn commit_peer_candidate(candidates: &mut PeerSet, peri_id: usize, peer_address: [u8; 6]) -> (record: Option<
    PeerAddress,
>)
    ensures
        committed_result(*old(candidates), peri_id, peer_address, record, *final(candidates)),
{
    if !candidates.take(peri_id) {
        return None;
    }
    Some(PeerAddress { peer_id: peri_id as u8, is_valid: true, address: peer_address })
}

/// An address that a scan found is on trial until the peripheral is committed or
/// forgotten: one commit saves it, and no second one does.
pub proof fn law_candidates_commit_once(before: PeerSet, found: PeerSet, committed: PeerSet, id: int)
    requires
        id >= 0,
        forall|i: int| i >= 0 ==> #[trigger] found.holds(i) == (before.holds(i) || same_bit(id, i)),
        forall|i: int| i >= 0 ==> #[trigger] committed.holds(i) == (found.holds(i) && !same_bit(id, i)),
    ensures
        found.holds(id),
        !committed.holds(id),
        forall|i: int| i >= 0 && !same_bit(id, i) ==> #[trigger] committed.holds(i) == before.holds(i),
{
}

/// After a failed attempt to connect, a peripheral with a slot is searched for again.
pub proof fn law_forgotten_peers_are_searched(before: Seq<Option<[u8; 6]>>, id: int)
    requires
        0 <= id < before.len(),
    ensures
        !all_known(before.update(id, None)),
        is_vacant(before.update(id, None), id),
{
    assert(before.update(id, None)[id] is None);
}

/// The first 32 peripherals have a bit each, the last of which stands for all further
/// peripherals too.
pub proof fn law_peripherals_have_their_own_bits(a: int, b: int)
    requires
        0 <= a < b,
    ensures
        a < 31 ==> !same_bit(a, b) && !same_bit(b, a) && !has_bit(peri_bit(a), b) && !has_bit(peri_bit(b), a),
        a >= 31 ==> same_bit(a, b) && same_bit(b, a) && has_bit(peri_bit(a), b) && has_bit(peri_bit(b), a),
        same_bit(a, a),
        has_bit(peri_bit(a), a),
        !has_bit(0, a),
{
    let i: u32 = if a <= 31 {
        a as u32
    } else {
        31
    };
    let j: u32 = if b <= 31 {
        b as u32
    } else {
        31
    };
    assert((1u32 << i) & (1u32 << i) != 0) by (bit_vector)
        requires
            i < 32,
    ;
    assert(((1u32 << i) & (1u32 << j) != 0) == (i == j)) by (bit_vector)
        requires
            i < 32,
            j < 32,
    ;
    assert(((1u32 << j) & (1u32 << i) != 0) == (i == j)) by (bit_vector)
        requires
            i < 32,
            j < 32,
    ;
    assert(0u32 & (1u32 << i) == 0) by (bit_vector);
}

/// All peripherals are connected if and only if none of the first `n` is missing, as far
/// as they have a bit.
pub proof fn law_every_peripheral_counts(set: PeerSet, n: int, i: int)
    requires
        0 <= i < n,
        i < 32,
    ensures
        set.holds_first(n) ==> set.holds(i),
        set.holds_first(0),
        n <= 32 ==> (set.holds_first(n) <==> set.holds_first(n - 1) && set.holds(n - 1)),
        n > 32 ==> (set.holds_first(n) <==> set.holds_first(n - 1)),
{
    if n <= 32 && set.holds_first(n - 1) && set.holds(n - 1) {
        assert forall|k: int| 0 <= k < n && k < PEER_BITS implies #[trigger] set.holds(k) by {}
    }
    if set.holds_first(n) {
        assert forall|k: int| 0 <= k < n - 1 && k < PEER_BITS implies #[trigger] set.holds(k) by {}
    }
}

/// A scan fills the empty slot of a peripheral with its address, on trial, and touches no
/// other slot; an address that is known, a slot with another address and an unknown
/// peripheral change nothing. The scan is over once every slot is filled, unless what it
/// found was known already.
pub proof fn law_scans_fill_empty_slots(
    slots: Seq<Option<[u8; 6]>>,
    candidates: PeerSet,
    id: u8,
    addr: [u8; 6],
    step: ScanStep,
    slots_after: Seq<Option<[u8; 6]>>,
    candidates_after: PeerSet,
    i: int,
)
    requires
        found_result(slots, candidates, id, addr, step, slots_after, candidates_after),
        0 <= i < slots.len(),
    ensures
        slots_after.len() == slots.len(),
        i == id && slots[i] is None ==> slots_after[i] == Some(addr) && candidates_after.holds(i),
        i != id || slots[i] is Some ==> slots_after[i] == slots[i],
        i != id && i < 31 ==> candidates_after.holds(i) == candidates.holds(i),
        id >= slots.len() || slots[id as int] is Some ==> candidates_after.holds(i) == candidates.holds(i),
        step == ScanStep::Done ==> slots_after[i] is Some,
        i == id && (slots[i] matches Some(known) && known@ == addr@) ==> step == ScanStep::KeepScanning,
        step == ScanStep::KeepScanning ==> (id < slots.len() && (slots[id as int] matches Some(known) && known@
            == addr@)) || exists|k: int| 0 <= k < slots_after.len() && (#[trigger] slots_after[k]) is None,
{
}

/// After a failed attempt the address of that peripheral is forgotten, in its slot, on
/// trial and in storage, and no other one is.
pub proof fn law_failed_peers_are_forgotten(
    slots: Seq<Option<[u8; 6]>>,
    candidates: PeerSet,
    peri_id: usize,
    record: PeerAddress,
    slots_after: Seq<Option<[u8; 6]>>,
    candidates_after: PeerSet,
    i: int,
)
    requires
        forgotten_result(slots, candidates, peri_id, record, slots_after, candidates_after),
        0 <= i < slots.len(),
    ensures
        slots_after.len() == slots.len(),
        i == peri_id ==> slots_after[i] is None && !candidates_after.holds(i),
        i != peri_id ==> slots_after[i] == slots[i],
        i != peri_id && i < 31 ==> candidates_after.holds(i) == candidates.holds(i),
        !record.is_valid,
        peri_id < 256 ==> record.peer_id == peri_id,
        forall|k: int| 0 <= k < 6 ==> record.address@[k] == 0,
{
}

/// A peripheral that proved itself is saved, under its number and with its address, if
/// and only if it was on trial, and no longer is; no other one is touched.
pub proof fn law_proved_peers_are_saved(
    candidates: PeerSet,
    peri_id: usize,
    peer_address: [u8; 6],
    record: Option<PeerAddress>,
    candidates_after: PeerSet,
    i: int,
)
    requires
        committed_result(candidates, peri_id, peer_address, record, candidates_after),
        i >= 0,
    ensures
        record is Some <==> candidates.holds(peri_id as int),
        record matches Some(r) ==> r.is_valid && r.address == peer_address && (peri_id < 256 ==> r.peer_id == peri_id),
        !candidates_after.holds(peri_id as int),
        i != peri_id && i < 31 ==> candidates_after.holds(i) == candidates.holds(i),
{
}

/// The mask that all peripherals make up has the bits of those that there are, and no
/// other bit.
pub proof fn law_masks_hold_the_peripherals_there_are(n: int, i: int)
    requires
        0 <= n,
        0 <= i < 32,
    ensures
        has_bit(required_mask(n), i) <==> i < n,
{
    let j: u32 = i as u32;
    if n >= 32 {
        assert(0xffff_ffffu32 & (1u32 << j) != 0) by (bit_vector)
            requires
                j < 32,
        ;
    } else {
        let m: u32 = n as u32;
        assert((((1u32 << m) - 1) as u32 & (1u32 << j) != 0) == (j < m)) by (bit_vector)
            requires
                m < 32,
                j < 32,
        ;
    }
}

} // verus!
