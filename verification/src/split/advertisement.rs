//! Recognition of split peripherals by what they advertise.

use vstd::prelude::*;

use crate::ble::advertise;

verus! {

/// Company id under which split peripherals advertise.
pub const SPLIT_COMPANY_ID: u16 = 0xe118;

/// AD type of a complete list of 128-bit services.
pub const AD_TYPE_SERVICES: u8 = 0x07;

/// AD type of manufacturer data.
pub const AD_TYPE_MANUFACTURER: u8 = 0xff;

/// UUID of the split service, least significant byte first.
pub open spec fn split_service_uuid_bytes() -> Seq<u8> {
    seq![70u8, 153, 101, 152, 54, 53, 10, 191, 7, 75, 229, 24, 170, 251, 213, 77]
}

/// UUID of the split service, least significant byte first.
pub fn split_service_uuid() -> (uuid: [u8; 16])
    ensures
        uuid@ == split_service_uuid_bytes(),
{
    let uuid: [u8; 16] = [70, 153, 101, 152, 54, 53, 10, 191, 7, 75, 229, 24, 170, 251, 213, 77];
    assert(uuid@ =~= split_service_uuid_bytes());
    uuid
}

/// Types and payloads of the AD structures in advertising data. They end at the first
/// structure of length zero and at one that is cut off.
pub open spec fn ad_structures(data: Seq<u8>) -> Seq<(u8, Seq<u8>)>
    decreases data.len(),
{
    if data.len() == 0 || data[0] == 0 || data[0] + 1 > data.len() {
        Seq::empty()
    } else {
        seq![(data[1], data.subrange(2, data[0] + 1))] + ad_structures(data.skip(data[0] + 1))
    }
}

/// 16-bit number from its low and its high byte.
pub open spec fn le16(low: u8, high: u8) -> int {
    low + 256 * high
}

/// Whether a structure announces the split service.
pub open spec fn announces_service(structure: (u8, Seq<u8>)) -> bool {
    structure.0 == AD_TYPE_SERVICES && structure.1 == split_service_uuid_bytes()
}

/// Whether a structure is manufacturer data of a split peripheral of this product.
pub open spec fn announces_product(structure: (u8, Seq<u8>), product_id: u16) -> bool {
    &&& structure.0 == AD_TYPE_MANUFACTURER
    &&& structure.1.len() >= 5
    &&& le16(structure.1[0], structure.1[1]) == SPLIT_COMPANY_ID
    &&& le16(structure.1[2], structure.1[3]) == product_id
}

/// Whether any structure announces the split service.
pub open spec fn has_service(structures: Seq<(u8, Seq<u8>)>) -> bool {
    exists|i: int| 0 <= i < structures.len() && announces_service(#[trigger] structures[i])
}

/// Peripheral id in the last structure that announces the product.
pub open spec fn last_product_id(structures: Seq<(u8, Seq<u8>)>, product_id: u16) -> Option<u8>
    decreases structures.len(),
{
    if structures.len() == 0 {
        None
    } else if announces_product(structures.last(), product_id) {
        Some(structures.last().1[4])
    } else {
        last_product_id(structures.drop_last(), product_id)
    }
}

/// Peripheral id that advertising data announces for a product.
pub open spec fn advertised_id(data: Seq<u8>, product_id: u16) -> Option<u8> {
    if has_service(ad_structures(data)) {
        last_product_id(ad_structures(data), product_id)
    } else {
        None
    }
}

/// Peripheral id in the older form of the advertisement, which names no product.
pub open spec fn legacy_advertised_id(data: Seq<u8>) -> Option<u8> {
    if data.len() > 25 && data[4] == AD_TYPE_SERVICES && data.subrange(5, 21) == split_service_uuid_bytes()
        && data.subrange(21, 25) == seq![0x04u8, 0xff, 0x18, 0xe1] {
        Some(data[25])
    } else {
        None
    }
}

/// Whether `data` holds the split service's UUID at `start`.
fn holds_uuid(data: &[u8], start: usize) -> (holds: bool)
    requires
        start + 16 <= data.len(),
    ensures
        holds == (data@.subrange(start as int, start + 16) == split_service_uuid_bytes()),
{
    let uuid = split_service_uuid();
    let mut i: usize = 0;
    while i < 16
        invariant
            i <= 16,
            start + 16 <= data.len(),
            uuid@ == split_service_uuid_bytes(),
            forall|j: int| 0 <= j < i ==> data@[start + j] == uuid@[j],
        decreases 16 - i,
    {
        if data[start + i] != uuid[i] {
            proof {
                assert(data@.subrange(start as int, start + 16)[i as int] == data@[start + i]);
            }
            return false;
        }
        i += 1;
    }
    assert(data@.subrange(start as int, start + 16) =~= uuid@);
    true
}

/// Peripheral id in the older form of the advertisement, which names no product. The
/// product is still checked before the peripheral's address is kept.
pub fn legacy_split_peripheral_id_from_advertisement(data: &[u8]) -> (id: Option<u8>)
    ensures
        id == legacy_advertised_id(data@),
{
    if data.len() <= 25 {
        return None;
    }
    let ghost head = data@.subrange(21, 25);
    assert(head[0] == data@[21] && head[1] == data@[22] && head[2] == data@[23] && head[3] == data@[24]);
    if data[4] == AD_TYPE_SERVICES && holds_uuid(data, 5) && data[21] == 0x04 && data[22] == 0xff && data[23] == 0x18
        && data[24] == 0xe1 {
        assert(head =~= seq![0x04u8, 0xff, 0x18, 0xe1]);
        Some(data[25])
    } else {
        proof {
            if head == seq![0x04u8, 0xff, 0x18, 0xe1] {
                assert(head[0] == 0x04 && head[1] == 0xff && head[2] == 0x18 && head[3] == 0xe1);
            }
        }
        None
    }
}

/// Peripheral id that advertising data announces for a product: the split service and
/// the product have to be announced, in any order.
pub fn split_peripheral_id_from_advertisement(data: &[u8], product_id: u16) -> (id: Option<u8>)
    ensures
        id == advertised_id(data@, product_id),
{
    let mut has_split_service = false;
    let mut peripheral_id: Option<u8> = None;
    let mut offset: usize = 0;
    let mut done = false;
    let ghost mut seen: Seq<(u8, Seq<u8>)> = Seq::empty();
    assert(data@.skip(0) =~= data@);
    assert(seen + ad_structures(data@) =~= ad_structures(data@));
    while offset < data.len() && !done
        invariant
            offset <= data@.len(),
            ad_structures(data@) == (if done {
                seen
            } else {
                seen + ad_structures(data@.skip(offset as int))
            }),
            has_split_service == has_service(seen),
            peripheral_id == last_product_id(seen, product_id),
        decreases data@.len() - offset, !done as int,
    {
        let len: usize = data[offset] as usize;
        let ghost rest = data@.skip(offset as int);
        assert(rest[0] == data@[offset as int]);
        if len == 0 || len >= data.len() - offset {
            proof {
                assert(ad_structures(rest) =~= Seq::empty());
                assert(seen + ad_structures(rest) =~= seen);
            }
            done = true;
        } else {
            let end: usize = offset + 1 + len;
            let ad_type: u8 = data[offset + 1];
            let ghost payload = rest.subrange(2, len + 1);
            let ghost structure = (ad_type, payload);
            proof {
                assert(payload =~= data@.subrange(offset + 2, end as int));
                assert(rest.skip(len + 1) =~= data@.skip(end as int));
                assert(seen + ad_structures(rest) =~= seen.push(structure) + ad_structures(data@.skip(end as int)));
                lemma_service_push(seen, structure);
                assert(seen.push(structure).drop_last() =~= seen);
            }
            if ad_type == AD_TYPE_SERVICES && len == 17 {
                if holds_uuid(data, offset + 2) {
                    has_split_service = true;
                }
            } else if ad_type == AD_TYPE_MANUFACTURER && len >= 6 {
                let company_id: u32 = data[offset + 2] as u32 + 256 * data[offset + 3] as u32;
                let product: u32 = data[offset + 4] as u32 + 256 * data[offset + 5] as u32;
                if company_id == SPLIT_COMPANY_ID as u32 && product == product_id as u32 {
                    peripheral_id = Some(data[offset + 6]);
                }
            }
            proof {
                seen = seen.push(structure);
            }
            offset = end;
        }
    }
    proof {
        if !done {
            assert(ad_structures(data@.skip(offset as int)) =~= Seq::empty());
            assert(seen + ad_structures(data@.skip(offset as int)) =~= seen);
        }
    }
    if has_split_service {
        peripheral_id
    } else {
        None
    }
}

/// One more structure announces the split service, or an earlier one does.
proof fn lemma_service_push(structures: Seq<(u8, Seq<u8>)>, structure: (u8, Seq<u8>))
    ensures
        has_service(structures.push(structure)) == (has_service(structures) || announces_service(structure)),
{
    let all = structures.push(structure);
    if has_service(structures) {
        let i = choose|i: int| 0 <= i < structures.len() && announces_service(#[trigger] structures[i]);
        assert(announces_service(all[i]));
    }
    if announces_service(structure) {
        assert(announces_service(all[structures.len() as int]));
    }
    if has_service(all) {
        let i = choose|i: int| 0 <= i < all.len() && announces_service(#[trigger] all[i]);
        if i < structures.len() {
            assert(announces_service(structures[i]));
        }
    }
}

/// Peripheral id that advertising data announces, in the current form of the
/// advertisement or in the older one.
pub open spec fn recognised_id(data: Seq<u8>, product_id: u16) -> Option<u8> {
    match advertised_id(data, product_id) {
        Some(id) => Some(id),
        None => legacy_advertised_id(data),
    }
}

/// An advertisement that was received.
pub struct AdvReport {
    pub addr: [u8; 6],
    pub data: Vec<u8>,
}

/// Whether `found` is the first split peripheral among the received advertisements.
pub open spec fn is_first_found(reports: Seq<AdvReport>, product_id: u16, found: Option<(u8, [u8; 6])>) -> bool {
    match found {
        Some((id, addr)) => exists|i: int|
            #![trigger reports[i]]
            {
                &&& 0 <= i < reports.len()
                &&& recognised_id(reports[i].data@, product_id) == Some(id)
                &&& addr == reports[i].addr
                &&& forall|j: int| 0 <= j < i ==> recognised_id((#[trigger] reports[j]).data@, product_id) is None
            },
        None => forall|j: int|
            0 <= j < reports.len() ==> recognised_id((#[trigger] reports[j]).data@, product_id) is None,
    }
}

/// First of the received advertisements that comes from a split peripheral: its id and
/// its address.
pub fn first_split_peripheral(reports: &Vec<AdvReport>, product_id: u16) -> (found: Option<(u8, [u8; 6])>)
    ensures
        is_first_found(reports@, product_id, found),
{
    let mut i: usize = 0;
    while i < reports.len()
        invariant
            i <= reports@.len(),
            forall|j: int| 0 <= j < i ==> recognised_id((#[trigger] reports@[j]).data@, product_id) is None,
        decreases reports@.len() - i,
    {
        let report = &reports[i];
        let current = split_peripheral_id_from_advertisement(report.data.as_slice(), product_id);
        let id = match current {
            Some(id) => Some(id),
            None => legacy_split_peripheral_id_from_advertisement(report.data.as_slice()),
        };
        if let Some(id) = id {
            assert(recognised_id(reports@[i as int].data@, product_id) == Some(id));
            return Some((id, report.addr));
        }
        i += 1;
    }
    None
}

/// Structures of data that starts with an encoded structure.
proof fn lemma_structures_of_encoded(ty: u8, payload: Seq<u8>, rest: Seq<u8>)
    requires
        payload.len() <= 254,
    ensures
        ad_structures(advertise::ad_structure(ty, payload) + rest) == seq![(ty, payload)] + ad_structures(rest),
{
    let data = advertise::ad_structure(ty, payload) + rest;
    assert(data[0] == (payload.len() + 1) as u8);
    assert(data[1] == ty);
    assert(data.subrange(2, data[0] + 1) =~= payload);
    assert(data.skip(data[0] + 1) =~= rest);
}

/// Manufacturer data of a split peripheral.
pub open spec fn product_payload(product_id: u16, peripheral_id: u8) -> Seq<u8> {
    seq![0x18u8, 0xe1, (product_id % 256) as u8, (product_id / 256) as u8, peripheral_id]
}

/// Advertising data of a split peripheral: flags, the split service and the product.
pub open spec fn split_advertisement(flags: u8, product_id: u16, peripheral_id: u8) -> Seq<u8> {
    advertise::ad_structure(0x01, seq![flags]) + (advertise::ad_structure(
        AD_TYPE_SERVICES,
        split_service_uuid_bytes(),
    ) + (advertise::ad_structure(AD_TYPE_MANUFACTURER, product_payload(product_id, peripheral_id)) + Seq::<u8>::empty()))
}

/// A split peripheral is recognised, under the id it advertises, by a central of the
/// same product, and by no central of another.
pub proof fn law_products_find_their_own(flags: u8, product_id: u16, peripheral_id: u8, wanted: u16)
    ensures
        advertised_id(split_advertisement(flags, product_id, peripheral_id), wanted) == (if wanted == product_id {
            Some(peripheral_id)
        } else {
            None::<u8>
        }),
{
    let uuid = split_service_uuid_bytes();
    let product = product_payload(product_id, peripheral_id);
    let none = Seq::<u8>::empty();
    let tail = advertise::ad_structure(AD_TYPE_MANUFACTURER, product) + none;
    let body = advertise::ad_structure(AD_TYPE_SERVICES, uuid) + tail;
    lemma_structures_of_encoded(0x01, seq![flags], body);
    lemma_structures_of_encoded(AD_TYPE_SERVICES, uuid, tail);
    lemma_structures_of_encoded(AD_TYPE_MANUFACTURER, product, none);
    let all = ad_structures(split_advertisement(flags, product_id, peripheral_id));
    let expected = seq![(0x01u8, seq![flags]), (AD_TYPE_SERVICES, uuid), (AD_TYPE_MANUFACTURER, product)];
    assert(all =~= expected);
    assert(announces_service(all[1]));
    assert(has_service(all));
    assert(le16(product[2], product[3]) == product_id);
    assert(le16(product[0], product[1]) == SPLIT_COMPANY_ID);
    assert(all.drop_last() =~= expected.take(2));
    assert(all.drop_last().drop_last() =~= expected.take(1));
    reveal_with_fuel(last_product_id, 4);
}

/// What a keyboard advertises to hosts is never taken for a split peripheral.
pub proof fn law_keyboards_are_no_peripherals(name: Seq<u8>, product_id: u16)
    requires
        name.len() <= 16,
    ensures
        recognised_id(advertise::padded(advertise::device_ad(name)), product_id) is None,
{
    let services = seq![advertise::BATTERY_SERVICE_LOW, advertise::SERVICE_HIGH] + seq![
        advertise::HID_SERVICE_LOW,
        advertise::SERVICE_HIGH,
    ];
    let appearance = seq![advertise::KEYBOARD_LOW, advertise::KEYBOARD_HIGH];
    let flags = seq![advertise::AD_FLAGS];
    let data = advertise::padded(advertise::device_ad(name));
    let zeros = Seq::new((31 - advertise::device_ad(name).len()) as nat, |i: int| 0u8);
    let d = advertise::ad_structure(advertise::AD_TYPE_APPEARANCE, appearance) + zeros;
    let c = advertise::ad_structure(0x09, name) + d;
    let b = advertise::ad_structure(0x03, services) + c;
    assert(data =~= advertise::ad_structure(0x01, flags) + b);
    lemma_structures_of_encoded(0x01, flags, b);
    lemma_structures_of_encoded(0x03, services, c);
    lemma_structures_of_encoded(0x09, name, d);
    lemma_structures_of_encoded(advertise::AD_TYPE_APPEARANCE, appearance, zeros);
    let all = ad_structures(data);
    assert(ad_structures(zeros) =~= Seq::empty());
    assert(all =~= seq![(0x01u8, flags), (0x03u8, services), (0x09u8, name), (advertise::AD_TYPE_APPEARANCE, appearance)]);
    assert(!has_service(all));
    assert(data[4] == 0x03);
}

/// Structures are taken one after the other: behind the flags, or any other structure,
/// comes what follows it in the data. A length of zero and a structure that is cut off
/// end them.
pub proof fn law_structures_follow_each_other(ty: u8, payload: Seq<u8>, rest: Seq<u8>, cut: Seq<u8>)
    requires
        payload.len() <= 254,
        cut.len() > 0,
        cut[0] == 0 || cut[0] >= cut.len(),
    ensures
        ad_structures(seq![(payload.len() + 1) as u8, ty] + payload + rest) == seq![(ty, payload)] + ad_structures(rest),
        ad_structures(cut) == Seq::<(u8, Seq<u8>)>::empty(),
        ad_structures(Seq::empty()) == Seq::<(u8, Seq<u8>)>::empty(),
{
    lemma_structures_of_encoded(ty, payload, rest);
}

/// Whether a structure is manufacturer data of company 0xe118 that names a product, low
/// bytes first, and a peripheral.
pub open spec fn names_peripheral(structure: (u8, Seq<u8>), product_id: u16) -> bool {
    &&& structure.0 == 0xff
    &&& structure.1.len() >= 5
    &&& structure.1[0] == 0x18
    &&& structure.1[1] == 0xe1
    &&& structure.1[2] == product_id % 256
    &&& structure.1[3] == product_id / 256
}

/// A peripheral is recognised by two structures, in any order: the complete list of
/// services, which holds the split service alone, and the manufacturer data of the
/// product, the last of which counts and names the peripheral. Without either of them it
/// is not.
pub proof fn law_peripherals_announce_service_and_product(data: Seq<u8>, product_id: u16, k: int)
    requires
        0 <= k <= ad_structures(data).len(),
        k > 0 ==> names_peripheral(ad_structures(data)[k - 1], product_id),
        forall|i: int|
            k <= i < ad_structures(data).len() ==> !names_peripheral(#[trigger] ad_structures(data)[i], product_id),
    ensures
        ({
            let service = seq![70u8, 153, 101, 152, 54, 53, 10, 191, 7, 75, 229, 24, 170, 251, 213, 77];
            let served = exists|i: int|
                0 <= i < ad_structures(data).len() && #[trigger] ad_structures(data)[i] == (0x07u8, service);
            &&& served && k > 0 ==> advertised_id(data, product_id) == Some(ad_structures(data)[k - 1].1[4])
            &&& !served || k == 0 ==> advertised_id(data, product_id) is None
        }),
{
    let all = ad_structures(data);
    let service = seq![70u8, 153, 101, 152, 54, 53, 10, 191, 7, 75, 229, 24, 170, 251, 213, 77];
    assert(service =~= split_service_uuid_bytes());
    lemma_last_product(all, product_id, k);
    if has_service(all) {
        let i = choose|i: int| 0 <= i < all.len() && announces_service(#[trigger] all[i]);
        assert(all[i] == (0x07u8, service));
    }
    if exists|i: int| 0 <= i < all.len() && #[trigger] all[i] == (0x07u8, service) {
        let i = choose|i: int| 0 <= i < all.len() && #[trigger] all[i] == (0x07u8, service);
        assert(announces_service(all[i]));
    }
}

/// The last structure of a product counts.
proof fn lemma_last_product(all: Seq<(u8, Seq<u8>)>, product_id: u16, k: int)
    requires
        0 <= k <= all.len(),
        k > 0 ==> names_peripheral(all[k - 1], product_id),
        forall|i: int| k <= i < all.len() ==> !names_peripheral(#[trigger] all[i], product_id),
    ensures
        k > 0 ==> last_product_id(all, product_id) == Some(all[k - 1].1[4]),
        k == 0 ==> last_product_id(all, product_id) is None,
    decreases all.len(),
{
    if all.len() > 0 {
        let last = all.last();
        assert(last == all[all.len() - 1]);
        assert(announces_product(last, product_id) <==> names_peripheral(last, product_id));
        if k < all.len() {
            lemma_last_product(all.drop_last(), product_id, k);
        }
    }
}

/// The older form of the advertisement has the service behind the flags and names the
/// peripheral at once; it is recognised for any product that the current form does not
/// name, and shorter or other data is not.
pub proof fn law_older_peripherals_are_recognised(head: Seq<u8>, id: u8, rest: Seq<u8>, data: Seq<u8>, product_id: u16)
    requires
        head.len() == 4,
    ensures
        ({
            let service = seq![70u8, 153, 101, 152, 54, 53, 10, 191, 7, 75, 229, 24, 170, 251, 213, 77];
            let older = head + seq![0x07u8] + service + seq![0x04u8, 0xff, 0x18, 0xe1, id] + rest;
            &&& legacy_advertised_id(older) == Some(id)
            &&& legacy_advertised_id(data) matches Some(found) ==> {
                &&& data.len() > 25
                &&& data[4] == 0x07
                &&& data.subrange(5, 21) == service
                &&& data.subrange(21, 26) == seq![0x04u8, 0xff, 0x18, 0xe1, found]
            }
            &&& advertised_id(data, product_id) is Some ==> recognised_id(data, product_id) == advertised_id(
                data,
                product_id,
            )
            &&& advertised_id(data, product_id) is None ==> recognised_id(data, product_id) == legacy_advertised_id(
                data,
            )
        }),
{
    let service = seq![70u8, 153, 101, 152, 54, 53, 10, 191, 7, 75, 229, 24, 170, 251, 213, 77];
    let older = head + seq![0x07u8] + service + seq![0x04u8, 0xff, 0x18, 0xe1, id] + rest;
    assert(service =~= split_service_uuid_bytes());
    assert(older.subrange(5, 21) =~= service);
    assert(older.subrange(21, 25) =~= seq![0x04u8, 0xff, 0x18, 0xe1]);
    if let Some(found) = legacy_advertised_id(data) {
        assert(data.subrange(21, 26) =~= data.subrange(21, 25) + seq![data[25]]);
        assert(data.subrange(21, 26) =~= seq![0x04u8, 0xff, 0x18, 0xe1, found]);
    }
}

/// The first advertisement of a split peripheral counts, with its own address; those
/// before it are not of a split peripheral. Where none is, nothing is found.
pub proof fn law_the_first_peripheral_counts(
    reports: Seq<AdvReport>,
    product_id: u16,
    found: Option<(u8, [u8; 6])>,
    i: int,
)
    requires
        is_first_found(reports, product_id, found),
        0 <= i <= reports.len(),
        i < reports.len() ==> recognised_id(reports[i].data@, product_id) is Some,
        forall|j: int| 0 <= j < i ==> recognised_id((#[trigger] reports[j]).data@, product_id) is None,
    ensures
        i == reports.len() ==> found is None,
        i < reports.len() ==> found == Some((recognised_id(reports[i].data@, product_id).unwrap(), reports[i].addr)),
{
    if let Some((id, addr)) = found {
        let k = choose|k: int|
            #![trigger reports[k]]
            {
                &&& 0 <= k < reports.len()
                &&& recognised_id(reports[k].data@, product_id) == Some(id)
                &&& addr == reports[k].addr
                &&& forall|j: int| 0 <= j < k ==> recognised_id((#[trigger] reports[j]).data@, product_id) is None
            };
        if k < i {
            assert(recognised_id(reports[k].data@, product_id) is None);
        }
        if i < k {
            assert(recognised_id(reports[i].data@, product_id) is None);
        }
    }
}

} // verus!
